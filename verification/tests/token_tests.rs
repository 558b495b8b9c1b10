use youtube_client::error::InputError;
use youtube_client::extract_query_parameters::FragmentMap;
use youtube_client::token::extract_query_fragments;
use youtube_client::token::AccessTokenResponse;

#[test]
fn test_extract_state() {
    let token = AccessTokenResponse {
        state: "testState".to_string(),
        access_token: "testAccessToken".to_string(),
        token_type: "testTokenType".to_string(),
        expires_in: "testExpiresIn".to_string(),
        scope: "testScope".to_string(),
    };
    let url = "https://oauth2.example.com/#state=test&access_token=4/P7q7W91&token_type=Bearer&expires_in=3600&scope=test";
    extract_query_fragments(url.to_string()).unwrap();
    assert_eq!(token.state, "testState")
}

#[test]
fn test_extract_access_token() {
    let token = AccessTokenResponse {
        state: "testState".to_string(),
        access_token: "testAccessToken".to_string(),
        token_type: "testTokenType".to_string(),
        expires_in: "testExpiresIn".to_string(),
        scope: "testScope".to_string(),
    };
    let url = "https://oauth2.example.com/#state=test&access_token=4/P7q7W91&token_type=Bearer&expires_in=3600&scope=test";
    extract_query_fragments(url.to_string()).unwrap();
    assert_eq!(token.access_token, "testAccessToken")
}

#[test]
fn test_extract_token_type() {
    let token = AccessTokenResponse {
        state: "testState".to_string(),
        access_token: "testAccessToken".to_string(),
        token_type: "testTokenType".to_string(),
        expires_in: "testExpiresIn".to_string(),
        scope: Default::default(),
    };
    let url = "https://oauth2.example.com/#state=test&access_token=4/P7q7W91&token_type=Bearer&expires_in=3600&scope=test";
    extract_query_fragments(url.to_string()).unwrap();
    assert_eq!(token.token_type, "testTokenType")
}

#[test]
fn test_extract_expires_in() {
    let token = AccessTokenResponse {
        state: "testState".to_string(),
        access_token: "testAccessToken".to_string(),
        token_type: "testTokenType".to_string(),
        expires_in: "testExpiresIn".to_string(),
        scope: "testScope".to_string(),
    };
    let url = "https://oauth2.example.com/#state=test&access_token=4/P7q7W91&token_type=Bearer&expires_in=3600&scope=test";
    extract_query_fragments(url.to_string()).unwrap();
    assert_eq!(token.expires_in, "testExpiresIn")
}

#[test]
fn test_extract_scope() {
    let token = AccessTokenResponse {
        state: "testState".to_string(),
        access_token: "testAccessToken".to_string(),
        token_type: "testTokenType".to_string(),
        expires_in: "testExpiresIn".to_string(),
        scope: "testScope".to_string(),
    };
    let url = "https://oauth2.example.com/#state=test&access_token=4/P7q7W91&token_type=Bearer&expires_in=3600&scope=test";
    extract_query_fragments(url.to_string()).unwrap();
    assert_eq!(token.scope, "testScope")
}

#[test]
fn parse_returns_pairs_in_order() {
    let map = extract_query_fragments("k1=v1&k2=v2&k3=v3".to_string()).unwrap();
    let pairs: Vec<(String, String)> = map.pairs;
    assert_eq!(
        pairs,
        vec![
            ("k1".to_string(), "v1".to_string()),
            ("k2".to_string(), "v2".to_string()),
            ("k3".to_string(), "v3".to_string()),
        ]
    );
}

#[test]
fn parse_empty_fragment_is_empty_map() {
    let map = extract_query_fragments("".to_string()).unwrap();
    assert_eq!(map.pairs.len(), 0);
}

#[test]
fn parse_duplicate_key_keeps_position_takes_last_value() {
    let map = extract_query_fragments("a=1&b=2&a=3".to_string()).unwrap();
    assert_eq!(
        map.pairs,
        vec![("a".to_string(), "3".to_string()), ("b".to_string(), "2".to_string())]
    );
}

#[test]
fn parse_pair_without_separator_is_missing_value() {
    let err = extract_query_fragments("a".to_string()).unwrap_err();
    assert_eq!(err, InputError::MissingValue);
    assert_eq!(err.message(), "missing value in fragment pair");
}

#[test]
fn parse_pair_without_value_is_missing_value() {
    let err = extract_query_fragments("a=".to_string()).unwrap_err();
    assert_eq!(err, InputError::MissingValue);
}

#[test]
fn parse_pair_without_key_is_missing_key() {
    let err = extract_query_fragments("=b".to_string()).unwrap_err();
    assert_eq!(err, InputError::MissingKey);
    assert_eq!(err.message(), "missing key in fragment pair");
}

#[test]
fn parse_aborts_on_one_bad_pair() {
    let err = extract_query_fragments("a=1&broken&b=2".to_string()).unwrap_err();
    assert_eq!(err, InputError::MissingValue);
}

#[test]
fn from_fragment_fills_every_field() {
    let mut map = FragmentMap::new();
    map.insert("access_token".to_string(), "4/P7q7W91".to_string());
    map.insert("token_type".to_string(), "Bearer".to_string());
    map.insert("expires_in".to_string(), "3600".to_string());
    map.insert("scope".to_string(), "s".to_string());
    map.insert("state".to_string(), "st".to_string());
    let token = AccessTokenResponse::from_fragment(&map).unwrap();
    assert_eq!(token.access_token, "4/P7q7W91");
    assert_eq!(token.token_type, "Bearer");
    assert_eq!(token.expires_in, "3600");
    assert_eq!(token.scope, "s");
    assert_eq!(token.state, "st");
}

#[test]
fn from_fragment_rejects_unknown_key() {
    let mut map = FragmentMap::new();
    map.insert("unknown".to_string(), "x".to_string());
    let err = AccessTokenResponse::from_fragment(&map).unwrap_err();
    assert_eq!(err, InputError::UnrecognizedTokenKey);
    assert_eq!(err.message(), "unrecognized token fragment key");
}

#[test]
fn from_fragment_leaves_missing_fields_empty() {
    let mut map = FragmentMap::new();
    map.insert("access_token".to_string(), "t".to_string());
    let token = AccessTokenResponse::from_fragment(&map).unwrap();
    assert_eq!(token.access_token, "t");
    assert_eq!(token.state, "");
    assert_eq!(token.token_type, "");
    assert_eq!(token.expires_in, "");
    assert_eq!(token.scope, "");
}

#[test]
fn get_token_parses_and_extracts() {
    let token = AccessTokenResponse::get_token(
        "state=st&access_token=4/P7q7W91&token_type=Bearer&expires_in=3600&scope=s".to_string(),
    )
    .unwrap();
    assert_eq!(token.state, "st");
    assert_eq!(token.access_token, "4/P7q7W91");
    assert_eq!(token.token_type, "Bearer");
    assert_eq!(token.expires_in, "3600");
    assert_eq!(token.scope, "s");
}

#[test]
fn get_token_propagates_parse_errors() {
    let err = AccessTokenResponse::get_token("state".to_string()).unwrap_err();
    assert_eq!(err, InputError::MissingValue);
}
