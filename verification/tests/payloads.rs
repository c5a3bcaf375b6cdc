use account_linking::errors::LinkError;
use account_linking::json::get_json_str;
use account_linking::linking::parse_profile_response;
use account_linking::linking::parse_token_response;
use account_linking::provider::build_authorize_url;
use account_linking::provider::token_request_params;
use account_linking::provider::Provider;
use account_linking::provider::ProviderConfig;
use account_linking::provider::UrlPiece;

fn reddit_config() -> ProviderConfig {
    ProviderConfig {
        provider: Provider::Reddit,
        client_id: "RCID".to_string(),
        authorize_layout: vec![
            UrlPiece::Literal("https://www.reddit.com/api/v1/authorize?client_id=".to_string()),
            UrlPiece::ClientId,
            UrlPiece::Literal("&response_type=code&state=".to_string()),
            UrlPiece::StateNonce,
            UrlPiece::Literal("&redirect_uri=".to_string()),
            UrlPiece::RedirectUri,
            UrlPiece::Literal("&duration=permanent&scope=identity,read".to_string()),
        ],
        token_endpoint: "https://www.reddit.com/api/v1/access_token".to_string(),
        profile_endpoint: "https://oauth.reddit.com/api/v1/me".to_string(),
        code_verifier: None,
        profile_id_field: "id".to_string(),
        profile_name_field: "name".to_string(),
    }
}

fn twitter_config() -> ProviderConfig {
    ProviderConfig {
        provider: Provider::Twitter,
        client_id: "TCID".to_string(),
        authorize_layout: vec![
            UrlPiece::Literal(
                "https://twitter.com/i/oauth2/authorize?response_type=code&client_id="
                    .to_string(),
            ),
            UrlPiece::ClientId,
            UrlPiece::Literal("&redirect_uri=".to_string()),
            UrlPiece::RedirectUri,
            UrlPiece::Literal("&scope=tweet.read%20users.read&state=".to_string()),
            UrlPiece::StateNonce,
        ],
        token_endpoint: "https://api.twitter.com/2/oauth2/token".to_string(),
        profile_endpoint: "https://api.twitter.com/2/users/me".to_string(),
        code_verifier: Some("VERIFIER".to_string()),
        profile_id_field: "id".to_string(),
        profile_name_field: "name".to_string(),
    }
}

#[test]
fn token_response_yields_both_tokens() {
    let body = "{\"access_token\":\"AT\",\"refresh_token\":\"RT\",\"scope\":\"identity\"}"
        .to_string();
    let tokens = parse_token_response(&body).unwrap();
    assert_eq!(tokens.access_token, "AT");
    assert_eq!(tokens.refresh_token, "RT");
    assert_eq!(tokens.raw_payload, body);
}

#[test]
fn token_response_without_refresh_token_names_the_field() {
    let body = "{\"access_token\":\"AT\"}".to_string();
    let r = parse_token_response(&body);
    assert_eq!(
        r.err(),
        Some(LinkError::FieldMissing("refresh_token".to_string()))
    );
}

#[test]
fn unparseable_token_response_is_an_upstream_error() {
    let body = "no json here".to_string();
    let r = parse_token_response(&body);
    assert_eq!(r.err(), Some(LinkError::UpstreamError));
}

#[test]
fn non_string_field_is_an_upstream_error() {
    let body = "{\"access_token\":17,\"refresh_token\":\"RT\"}".to_string();
    let r = parse_token_response(&body);
    assert_eq!(r.err(), Some(LinkError::UpstreamError));
    assert_eq!(
        get_json_str(&"access_token".to_string(), &body),
        Err(LinkError::UpstreamError)
    );
}

#[test]
fn get_json_str_reads_a_top_level_string() {
    let body = "{\"display_name\":\"Alice\",\"nested\":{\"display_name\":\"Bob\"}}".to_string();
    assert_eq!(
        get_json_str(&"display_name".to_string(), &body),
        Ok("Alice".to_string())
    );
    assert_eq!(
        get_json_str(&"missing".to_string(), &body),
        Err(LinkError::FieldMissing("missing".to_string()))
    );
}

#[test]
fn profile_response_maps_provider_field_names() {
    let cfg = reddit_config();
    let body = "{\"id\":\"rd42\",\"name\":\"alice_r\"}".to_string();
    let profile = parse_profile_response(&cfg, &body).unwrap();
    assert_eq!(profile.provider_user_id, "rd42");
    assert_eq!(profile.display_name, "alice_r");
}

#[test]
fn profile_response_without_name_names_the_field() {
    let cfg = reddit_config();
    let body = "{\"id\":\"rd42\"}".to_string();
    let r = parse_profile_response(&cfg, &body);
    assert_eq!(r.err(), Some(LinkError::FieldMissing("name".to_string())));
}

#[test]
fn authorize_url_follows_the_provider_layout() {
    let cfg = reddit_config();
    let url = build_authorize_url(&cfg, &"S".to_string(), &"http://cb".to_string());
    assert_eq!(
        url,
        "https://www.reddit.com/api/v1/authorize?client_id=RCID&response_type=code&state=S&redirect_uri=http://cb&duration=permanent&scope=identity,read"
    );
}

#[test]
fn exchange_form_lists_the_grant_parameters() {
    let cfg = reddit_config();
    let params = token_request_params(&cfg, &"C".to_string(), &"http://cb".to_string());
    assert_eq!(
        params,
        vec![
            ("grant_type".to_string(), "authorization_code".to_string()),
            ("code".to_string(), "C".to_string()),
            ("redirect_uri".to_string(), "http://cb".to_string()),
        ]
    );
}

#[test]
fn exchange_form_adds_the_code_verifier_where_required() {
    let cfg = twitter_config();
    let params = token_request_params(&cfg, &"C".to_string(), &"http://cb".to_string());
    assert_eq!(params.len(), 4);
    assert_eq!(
        params[3],
        ("code_verifier".to_string(), "VERIFIER".to_string())
    );
}
