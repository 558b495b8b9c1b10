use youtube_client::client::Client;
use youtube_client::config::Config;
use youtube_client::video::VideoEndPoint;

#[test]
fn check_config_loaded() {
    let config = Config {
        api_key: "ADF32723289FWY".to_string(),
        client_id: "myClientID".to_string(),
        redirect_uri: "myRedirectURI".to_string(),
    };
    let client = Client::new("123", &config.api_key);
    assert_eq!(client.api_key, "ADF32723289FWY");
    assert_eq!(client.token, "123");
}

#[test]
fn video_endpoint_resolves_placeholder() {
    let mut client = Client::new("123", "ADF32723289FWY");
    let endpoint = client.video();
    assert_eq!(
        endpoint.url,
        "https://www.googleapis.com/youtube/v3/videos?access_token=123&api=ADF32723289FWY"
    );
}

#[test]
fn video_endpoint_request_url_appends_query() {
    let endpoint = VideoEndPoint::new("https://example.com/API?k=v".to_string());
    assert_eq!(endpoint.url, "https://example.com/videos?k=v");
    let url = endpoint.request_url("id=E6UTz_Doic8");
    assert_eq!(url, "https://example.com/videos?k=v&id=E6UTz_Doic8");
}

#[test]
fn video_endpoint_replaces_every_occurrence() {
    let endpoint = VideoEndPoint::new("API/API".to_string());
    assert_eq!(endpoint.url, "videos/videos");
    let untouched = VideoEndPoint::new("apis".to_string());
    assert_eq!(untouched.url, "apis");
}
