use account_linking::errors::LinkError;
use account_linking::linking::handle_callback;
use account_linking::linking::issue_connect_url;
use account_linking::linking::issue_connect_url_with_state;
use account_linking::linking::record_profile;
use account_linking::linking::ProviderProfile;
use account_linking::linking::ProviderTokenSet;
use account_linking::provider::Provider;
use account_linking::provider::ProviderConfig;
use account_linking::provider::UrlPiece;
use account_linking::store::delete_user_by_id;
use account_linking::store::get_user_by_id;
use account_linking::store::Store;

fn spotify_config() -> ProviderConfig {
    ProviderConfig {
        provider: Provider::Spotify,
        client_id: "CID".to_string(),
        authorize_layout: vec![
            UrlPiece::Literal(
                "https://accounts.spotify.com/authorize?response_type=code&state=".to_string(),
            ),
            UrlPiece::StateNonce,
            UrlPiece::Literal("&client_id=".to_string()),
            UrlPiece::ClientId,
            UrlPiece::Literal("&redirect_uri=".to_string()),
            UrlPiece::RedirectUri,
        ],
        token_endpoint: "https://accounts.spotify.com/api/token".to_string(),
        profile_endpoint: "https://api.spotify.com/v1/me".to_string(),
        code_verifier: None,
        profile_id_field: "id".to_string(),
        profile_name_field: "display_name".to_string(),
    }
}

fn store_with_user(id: &str) -> Store {
    let mut store = Store::new();
    store.set_field(&id.to_string(), "id".to_string(), id.to_string());
    store.set_field(
        &id.to_string(),
        "username".to_string(),
        "alice".to_string(),
    );
    store
}

fn token_set(access: &str, refresh: &str) -> ProviderTokenSet {
    ProviderTokenSet {
        access_token: access.to_string(),
        refresh_token: refresh.to_string(),
        raw_payload: "{}".to_string(),
    }
}

fn field(store: &Store, id: &str, name: &str) -> Option<String> {
    store
        .get_field(&id.to_string(), &name.to_string())
        .cloned()
}

#[test]
fn issue_url_embeds_state_and_stores_it() {
    let cfg = spotify_config();
    let mut store = store_with_user("u1");
    let url = issue_connect_url_with_state(
        &mut store,
        &cfg,
        &"u1".to_string(),
        &"http://cb".to_string(),
        "S".to_string(),
    )
    .unwrap();
    assert_eq!(
        url,
        "https://accounts.spotify.com/authorize?response_type=code&state=S&client_id=CID&redirect_uri=http://cb"
    );
    assert_eq!(field(&store, "u1", "spotify_state"), Some("S".to_string()));
}

#[test]
fn issue_url_for_missing_user_is_not_found() {
    let cfg = spotify_config();
    let mut store = Store::new();
    let r = issue_connect_url(&mut store, &cfg, &"ghost".to_string(), &"http://cb".to_string());
    assert_eq!(r, Err(LinkError::NotFound));
    assert!(get_user_by_id(&store, &"ghost".to_string()).is_none());
}

#[test]
fn issued_nonce_is_alphanumeric_of_fixed_length() {
    let cfg = spotify_config();
    let mut store = store_with_user("u1");
    let url = issue_connect_url(&mut store, &cfg, &"u1".to_string(), &"http://cb".to_string())
        .unwrap();
    let nonce = field(&store, "u1", "spotify_state").unwrap();
    assert_eq!(nonce.len(), 64);
    assert!(nonce.chars().all(|c| c.is_ascii_alphanumeric()));
    assert!(url.contains(&format!("&state={}&", nonce)));
}

#[test]
fn successful_callback_links_the_account() {
    let cfg = spotify_config();
    let mut store = store_with_user("u1");
    issue_connect_url_with_state(
        &mut store,
        &cfg,
        &"u1".to_string(),
        &"http://cb".to_string(),
        "S".to_string(),
    )
    .unwrap();

    let granted = handle_callback(
        &mut store,
        &cfg,
        &"u1".to_string(),
        &"S".to_string(),
        Ok(token_set("AT", "RT")),
    );
    assert_eq!(granted, Ok("AT".to_string()));

    let done = record_profile(
        &mut store,
        &cfg,
        &"u1".to_string(),
        Ok(ProviderProfile {
            provider_user_id: "sp123".to_string(),
            display_name: "Alice".to_string(),
        }),
    );
    assert_eq!(done, Ok(()));

    assert_eq!(field(&store, "u1", "spotify_state"), None);
    assert_eq!(
        field(&store, "u1", "spotify_access_token"),
        Some("AT".to_string())
    );
    assert_eq!(
        field(&store, "u1", "spotify_refresh_token"),
        Some("RT".to_string())
    );
    assert_eq!(field(&store, "u1", "spotify_id"), Some("sp123".to_string()));
    assert_eq!(
        field(&store, "u1", "spotify_name"),
        Some("Alice".to_string())
    );
}

#[test]
fn wrong_state_is_rejected_and_writes_nothing() {
    let cfg = spotify_config();
    let mut store = store_with_user("u1");
    issue_connect_url_with_state(
        &mut store,
        &cfg,
        &"u1".to_string(),
        &"http://cb".to_string(),
        "S".to_string(),
    )
    .unwrap();

    let r = handle_callback(
        &mut store,
        &cfg,
        &"u1".to_string(),
        &"WRONG".to_string(),
        Ok(token_set("AT", "RT")),
    );
    assert_eq!(r, Err(LinkError::InvalidState));
    assert_eq!(field(&store, "u1", "spotify_access_token"), None);
    assert_eq!(field(&store, "u1", "spotify_state"), Some("S".to_string()));
}

#[test]
fn callback_without_pending_attempt_is_rejected() {
    let cfg = spotify_config();
    let mut store = store_with_user("u1");
    let r = handle_callback(
        &mut store,
        &cfg,
        &"u1".to_string(),
        &"S".to_string(),
        Ok(token_set("AT", "RT")),
    );
    assert_eq!(r, Err(LinkError::InvalidState));
    assert_eq!(field(&store, "u1", "spotify_access_token"), None);
}

#[test]
fn reissuing_invalidates_the_first_nonce() {
    let cfg = spotify_config();
    let mut store = store_with_user("u1");
    let uid = "u1".to_string();
    let cb = "http://cb".to_string();
    issue_connect_url_with_state(&mut store, &cfg, &uid, &cb, "FIRST".to_string()).unwrap();
    issue_connect_url_with_state(&mut store, &cfg, &uid, &cb, "SECOND".to_string()).unwrap();

    let stale = handle_callback(
        &mut store,
        &cfg,
        &uid,
        &"FIRST".to_string(),
        Ok(token_set("AT", "RT")),
    );
    assert_eq!(stale, Err(LinkError::InvalidState));

    let fresh = handle_callback(
        &mut store,
        &cfg,
        &uid,
        &"SECOND".to_string(),
        Ok(token_set("AT", "RT")),
    );
    assert_eq!(fresh, Ok("AT".to_string()));
}

#[test]
fn callback_for_missing_user_is_not_found() {
    let cfg = spotify_config();
    let mut store = Store::new();
    let r = handle_callback(
        &mut store,
        &cfg,
        &"ghost".to_string(),
        &"S".to_string(),
        Ok(token_set("AT", "RT")),
    );
    assert_eq!(r, Err(LinkError::NotFound));
}

#[test]
fn failed_exchange_leaves_the_attempt_pending() {
    let cfg = spotify_config();
    let mut store = store_with_user("u1");
    issue_connect_url_with_state(
        &mut store,
        &cfg,
        &"u1".to_string(),
        &"http://cb".to_string(),
        "S".to_string(),
    )
    .unwrap();
    let r = handle_callback(
        &mut store,
        &cfg,
        &"u1".to_string(),
        &"S".to_string(),
        Err(LinkError::UpstreamError),
    );
    assert_eq!(r, Err(LinkError::UpstreamError));
    assert_eq!(field(&store, "u1", "spotify_state"), Some("S".to_string()));
    assert_eq!(field(&store, "u1", "spotify_access_token"), None);
}

#[test]
fn failed_profile_fetch_keeps_the_tokens() {
    let cfg = spotify_config();
    let mut store = store_with_user("u1");
    issue_connect_url_with_state(
        &mut store,
        &cfg,
        &"u1".to_string(),
        &"http://cb".to_string(),
        "S".to_string(),
    )
    .unwrap();
    handle_callback(
        &mut store,
        &cfg,
        &"u1".to_string(),
        &"S".to_string(),
        Ok(token_set("AT", "RT")),
    )
    .unwrap();
    let r = record_profile(
        &mut store,
        &cfg,
        &"u1".to_string(),
        Err(LinkError::UpstreamError),
    );
    assert_eq!(r, Err(LinkError::UpstreamError));
    assert_eq!(
        field(&store, "u1", "spotify_access_token"),
        Some("AT".to_string())
    );
    assert_eq!(field(&store, "u1", "spotify_id"), None);
}

#[test]
fn delete_route_only_echoes_the_id() {
    let store = store_with_user("u1");
    assert_eq!(delete_user_by_id(&"u1".to_string()), "id: u1");
    assert!(get_user_by_id(&store, &"u1".to_string()).is_some());
}
