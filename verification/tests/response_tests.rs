use youtube_client::client::ClientError;
use youtube_client::response::decode_video_list_response;
use youtube_client::response::decode_video_response;

#[test]
fn error_body_decodes_to_domain_error_for_video() {
    let body = "{\"error\":{\"code\":403,\"message\":\"forbidden\"}}";
    let err = decode_video_response(body).unwrap_err();
    match err {
        ClientError::Youtube(e) => {
            assert_eq!(e.code(), 403);
            assert_eq!(e.message(), "forbidden");
        }
        other => panic!("expected a domain error, got {:?}", other),
    }
}

#[test]
fn error_body_decodes_to_domain_error_for_list() {
    let body = "{\"error\":{\"code\":403,\"message\":\"forbidden\"}}";
    let err = decode_video_list_response(body).unwrap_err();
    assert!(matches!(err, ClientError::Youtube(ref e) if e.code() == 403));
}

#[test]
fn error_takes_precedence_over_success_shape() {
    let body = "{\"kind\":\"youtube#video\",\"etag\":\"e\",\"id\":\"x\",\"error\":{\"code\":401,\"message\":\"auth\"}}";
    let err = decode_video_response(body).unwrap_err();
    assert!(matches!(err, ClientError::Youtube(ref e) if e.code() == 401));
}

#[test]
fn success_body_decodes_to_video() {
    let body = "{\"kind\":\"youtube#video\",\"etag\":\"tag\",\"id\":\"E6UTz_Doic8\"}";
    let video = decode_video_response(body).unwrap();
    assert_eq!(video.kind, "youtube#video");
    assert_eq!(video.etag, "tag");
    assert_eq!(video.id, "E6UTz_Doic8");
    assert!(video.snippet.is_none());
}

#[test]
fn success_body_decodes_snippet() {
    let body = "{\"kind\":\"youtube#video\",\"etag\":\"tag\",\"id\":\"v1\",\"snippet\":{\"publishedAt\":\"2020-01-01T00:00:00Z\",\"channelId\":\"c1\",\"title\":\"a title\",\"description\":\"words\",\"channelTitle\":\"a channel\",\"tags\":[\"one\",\"two\"],\"categoryId\":\"10\",\"liveBroadcastContent\":\"none\",\"localized\":{\"title\":\"a title\",\"description\":\"words\"}}}";
    let video = decode_video_response(body).unwrap();
    let snippet = video.snippet.unwrap();
    assert_eq!(snippet.published_at, "2020-01-01T00:00:00Z");
    assert_eq!(snippet.channel_id, "c1");
    assert_eq!(snippet.title, "a title");
    assert_eq!(snippet.channel_title, "a channel");
    assert_eq!(snippet.tags, Some(vec!["one".to_string(), "two".to_string()]));
    assert_eq!(snippet.category_id, "10");
    assert_eq!(snippet.live_broadcast_content, Some("none".to_string()));
    assert_eq!(snippet.default_language, None);
    assert_eq!(snippet.localized.title, "a title");
    assert_eq!(snippet.default_audio_language, None);
}

#[test]
fn success_body_decodes_to_list() {
    let body = "{\"kind\":\"youtube#videoListResponse\",\"etag\":\"le\",\"nextPageToken\":\"NEXT\",\"pageInfo\":{\"totalResults\":2,\"resultsPerPage\":5},\"items\":[{\"kind\":\"youtube#video\",\"etag\":\"e1\",\"id\":\"v1\"},{\"kind\":\"youtube#video\",\"etag\":\"e2\",\"id\":\"v2\"}]}";
    let list = decode_video_list_response(body).unwrap();
    assert_eq!(list.kind, "youtube#videoListResponse");
    assert_eq!(list.etag, "le");
    assert_eq!(list.next_page_token, "NEXT");
    assert_eq!(list.prev_page_token, "");
    assert_eq!(list.page_info.total_results, 2);
    assert_eq!(list.page_info.results_per_page, 5);
    assert_eq!(list.items.len(), 2);
    assert_eq!(list.items[0].id, "v1");
    assert_eq!(list.items[1].id, "v2");
}

#[test]
fn unparseable_body_is_a_decode_error() {
    let err = decode_video_response("this is not json").unwrap_err();
    assert!(matches!(err, ClientError::Decode(_)));
}

#[test]
fn non_object_body_is_a_decode_error() {
    let err = decode_video_response("[1,2,3]").unwrap_err();
    assert!(matches!(err, ClientError::Decode(_)));
}

#[test]
fn wrong_shape_is_a_decode_error() {
    let err = decode_video_response("{\"kind\":5}").unwrap_err();
    assert!(matches!(err, ClientError::Decode(_)));
    let err = decode_video_list_response("{\"kind\":\"k\",\"etag\":\"e\"}").unwrap_err();
    assert!(matches!(err, ClientError::Decode(_)));
}

#[test]
fn malformed_error_object_is_a_decode_error() {
    let body = "{\"error\":{\"code\":\"not a number\",\"message\":\"m\"}}";
    let err = decode_video_response(body).unwrap_err();
    assert!(matches!(err, ClientError::Decode(_)));
    let body = "{\"error\":{\"code\":123456789,\"message\":\"m\"}}";
    let err = decode_video_response(body).unwrap_err();
    assert!(matches!(err, ClientError::Decode(_)));
}

#[test]
fn null_snippet_reads_as_absent() {
    let body = "{\"kind\":\"youtube#video\",\"etag\":\"tag\",\"id\":\"v\",\"snippet\":null}";
    let video = decode_video_response(body).unwrap();
    assert!(video.snippet.is_none());
}
