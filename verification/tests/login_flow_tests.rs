use youtube_client::config::Config;
use youtube_client::login::login_flow::AuthenticationRedirectUrl;
use youtube_client::login_flow::AuthenticationRedirectUrl as StoredRedirectUrl;
use youtube_client::login_flow::parse_token_fragments;

fn test_config() -> Config {
    Config {
        api_key: "testApiKey".to_string(),
        client_id: "testClientID".to_string(),
        redirect_uri: "testRedirectURI".to_string(),
    }
}

#[test]
fn test_parse_client_id() {
    let auth_url = AuthenticationRedirectUrl::new(test_config());
    assert_eq!(auth_url.client_id, "testClientID");
}

#[test]
fn test_parse_redirect_url() {
    let redir_url = AuthenticationRedirectUrl::new(test_config());
    assert_eq!(redir_url.redirect_url, "testRedirectURI");
    assert_eq!(redir_url.client_id, "testClientID");
}

#[test]
fn test_build_full_url() {
    let full_url = "https://accounts.google.com/o/oauth2/v2/auth?scope=https://www.googleapis.com/auth/youtube.readonly&state=&redirect_uri=testRedirectURI&response_type=token&client_id=testClientID";
    let redirect_url = AuthenticationRedirectUrl::new(test_config()).build_full_url();
    assert_eq!(full_url, redirect_url.get_full_url());
}

#[test]
fn build_full_url_is_idempotent() {
    let first = AuthenticationRedirectUrl::new(test_config()).build_full_url();
    let second = AuthenticationRedirectUrl::new(test_config()).build_full_url();
    assert_eq!(first.get_full_url(), second.get_full_url());
}

#[test]
fn stored_variant_parse_full_url() {
    let full_url = "https://accounts.google.com/o/oauth2/v2/auth?scope=https://www.googleapis.com/auth/youtube.readonly&state=&redirect_uri=testRedirectURI&response_type=token&client_id=testClientID";
    let redir_url = StoredRedirectUrl::new(test_config()).parse_full_url();
    assert_eq!(redir_url.get_full_url(), full_url);
    assert_eq!(redir_url.get_state(), "");
}

#[test]
fn stored_variant_build_does_not_store() {
    let mut redir_url = StoredRedirectUrl::new(test_config());
    let built = redir_url.build_full_url();
    assert!(built.starts_with("https://accounts.google.com/o/oauth2/v2/auth?scope="));
    assert_eq!(redir_url.get_full_url(), "");
}

#[test]
fn parse_token_fragments_reads_hash() {
    let token = parse_token_fragments(Some("access_token=4/P7q7W91&token_type=Bearer")).unwrap();
    assert_eq!(token.access_token, "4/P7q7W91");
    assert_eq!(token.token_type, "Bearer");
    assert_eq!(token.state, "");
}

#[test]
fn parse_token_fragments_without_hash_is_empty() {
    let token = parse_token_fragments(None).unwrap();
    assert_eq!(token.access_token, "");
    assert_eq!(token.scope, "");
}

#[test]
fn parse_token_fragments_rejects_unknown_key() {
    let err = parse_token_fragments(Some("access_token=x&surprise=y")).unwrap_err();
    assert_eq!(err.message(), "unrecognized token fragment key");
}
