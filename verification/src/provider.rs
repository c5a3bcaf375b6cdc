use vstd::prelude::*;
use vstd::string::StringExecFns;

verus! {

// One linking state machine serves every provider; what differs between
// providers is carried here: the record field names, the endpoints, and
// the provider-specific parts of the authorization request.

#[derive(Clone, Copy, Debug, PartialEq, Eq, Structural)]
pub enum Provider {
    Spotify,
    Reddit,
    Twitter,
}

/// The record field that holds the pending state nonce.
pub open spec fn state_field(p: Provider) -> Seq<char> {
    match p {
        Provider::Spotify => "spotify_state"@,
        Provider::Reddit => "reddit_state"@,
        Provider::Twitter => "twitter_state"@,
    }
}

/// The record field that holds the provider access token.
pub open spec fn access_token_field(p: Provider) -> Seq<char> {
    match p {
        Provider::Spotify => "spotify_access_token"@,
        Provider::Reddit => "reddit_access_token"@,
        Provider::Twitter => "twitter_access_token"@,
    }
}

/// The record field that holds the provider refresh token.
pub open spec fn refresh_token_field(p: Provider) -> Seq<char> {
    match p {
        Provider::Spotify => "spotify_refresh_token"@,
        Provider::Reddit => "reddit_refresh_token"@,
        Provider::Twitter => "twitter_refresh_token"@,
    }
}

/// The record field that holds the provider's user id once linked.
pub open spec fn linked_id_field(p: Provider) -> Seq<char> {
    match p {
        Provider::Spotify => "spotify_id"@,
        Provider::Reddit => "reddit_id"@,
        Provider::Twitter => "twitter_id"@,
    }
}

/// The record field that holds the provider display name once linked.
pub open spec fn linked_name_field(p: Provider) -> Seq<char> {
    match p {
        Provider::Spotify => "spotify_name"@,
        Provider::Reddit => "reddit_name"@,
        Provider::Twitter => "twitter_name"@,
    }
}

/// The five per-provider record fields are pairwise distinct.
pub proof fn lemma_provider_fields_distinct(p: Provider)
    ensures
        state_field(p) != access_token_field(p),
        state_field(p) != refresh_token_field(p),
        state_field(p) != linked_id_field(p),
        state_field(p) != linked_name_field(p),
        access_token_field(p) != refresh_token_field(p),
        access_token_field(p) != linked_id_field(p),
        access_token_field(p) != linked_name_field(p),
        refresh_token_field(p) != linked_id_field(p),
        refresh_token_field(p) != linked_name_field(p),
        linked_id_field(p) != linked_name_field(p),
{
    reveal_strlit("spotify_state");
    reveal_strlit("spotify_access_token");
    reveal_strlit("spotify_refresh_token");
    reveal_strlit("spotify_id");
    reveal_strlit("spotify_name");
    reveal_strlit("reddit_state");
    reveal_strlit("reddit_access_token");
    reveal_strlit("reddit_refresh_token");
    reveal_strlit("reddit_id");
    reveal_strlit("reddit_name");
    reveal_strlit("twitter_state");
    reveal_strlit("twitter_access_token");
    reveal_strlit("twitter_refresh_token");
    reveal_strlit("twitter_id");
    reveal_strlit("twitter_name");
    match p {
        Provider::Spotify => {
            assert(state_field(p).len() == 13);
            assert(access_token_field(p).len() == 20);
            assert(refresh_token_field(p).len() == 21);
            assert(linked_id_field(p).len() == 10);
            assert(linked_name_field(p).len() == 12);
        }
        Provider::Reddit => {
            assert(state_field(p).len() == 12);
            assert(access_token_field(p).len() == 19);
            assert(refresh_token_field(p).len() == 20);
            assert(linked_id_field(p).len() == 9);
            assert(linked_name_field(p).len() == 11);
        }
        Provider::Twitter => {
            assert(state_field(p).len() == 13);
            assert(access_token_field(p).len() == 20);
            assert(refresh_token_field(p).len() == 21);
            assert(linked_id_field(p).len() == 10);
            assert(linked_name_field(p).len() == 12);
        }
    }
}

pub fn state_field_name(p: Provider) -> (r: String)
    ensures
        r@ == state_field(p),
{
    match p {
        Provider::Spotify => "spotify_state".to_owned(),
        Provider::Reddit => "reddit_state".to_owned(),
        Provider::Twitter => "twitter_state".to_owned(),
    }
}

pub fn access_token_field_name(p: Provider) -> (r: String)
    ensures
        r@ == access_token_field(p),
{
    match p {
        Provider::Spotify => "spotify_access_token".to_owned(),
        Provider::Reddit => "reddit_access_token".to_owned(),
        Provider::Twitter => "twitter_access_token".to_owned(),
    }
}

pub fn refresh_token_field_name(p: Provider) -> (r: String)
    ensures
        r@ == refresh_token_field(p),
{
    match p {
        Provider::Spotify => "spotify_refresh_token".to_owned(),
        Provider::Reddit => "reddit_refresh_token".to_owned(),
        Provider::Twitter => "twitter_refresh_token".to_owned(),
    }
}

pub fn linked_id_field_name(p: Provider) -> (r: String)
    ensures
        r@ == linked_id_field(p),
{
    match p {
        Provider::Spotify => "spotify_id".to_owned(),
        Provider::Reddit => "reddit_id".to_owned(),
        Provider::Twitter => "twitter_id".to_owned(),
    }
}

pub fn linked_name_field_name(p: Provider) -> (r: String)
    ensures
        r@ == linked_name_field(p),
{
    match p {
        Provider::Spotify => "spotify_name".to_owned(),
        Provider::Reddit => "reddit_name".to_owned(),
        Provider::Twitter => "twitter_name".to_owned(),
    }
}

/// One piece of a provider's authorize URL: a literal run of the URL's
/// text, or one of the three values interpolated into it. Providers
/// order the query parameters differently, so the layout is data.
pub enum UrlPiece {
    Literal(String),
    ClientId,
    StateNonce,
    RedirectUri,
}

/// Everything provider-specific that the linking flows need, supplied by
/// the caller from its configuration; the library owns none of it.
pub struct ProviderConfig {
    pub provider: Provider,
    pub client_id: String,
    /// The authorize URL's pieces, in the provider's own order: the
    /// consent endpoint and fixed query text as literals, with the client
    /// id, state nonce and redirect URI interpolated where the provider's
    /// route puts them.
    pub authorize_layout: Vec<UrlPiece>,
    /// The endpoint the authorization code is exchanged at.
    pub token_endpoint: String,
    /// The endpoint the linked profile is read from.
    pub profile_endpoint: String,
    /// The PKCE code verifier, for providers that require one.
    pub code_verifier: Option<String>,
    /// The profile payload field that holds the provider user id.
    pub profile_id_field: String,
    /// The profile payload field that holds the display name.
    pub profile_name_field: String,
}

/// The text one piece contributes to the URL.
pub open spec fn piece_text(
    piece: UrlPiece,
    client_id: Seq<char>,
    state: Seq<char>,
    redirect_uri: Seq<char>,
) -> Seq<char> {
    match piece {
        UrlPiece::Literal(l) => l@,
        UrlPiece::ClientId => client_id,
        UrlPiece::StateNonce => state,
        UrlPiece::RedirectUri => redirect_uri,
    }
}

/// The concatenation of the pieces' texts, in order.
pub open spec fn url_text(
    pieces: Seq<UrlPiece>,
    client_id: Seq<char>,
    state: Seq<char>,
    redirect_uri: Seq<char>,
) -> Seq<char>
    decreases pieces.len(),
{
    if pieces.len() == 0 {
        Seq::empty()
    } else {
        url_text(pieces.drop_last(), client_id, state, redirect_uri) + piece_text(
            pieces.last(),
            client_id,
            state,
            redirect_uri,
        )
    }
}

/// The authorize URL that a connect request answers with: the provider's
/// layout with the client id, the state nonce and the redirect URI
/// interpolated, byte for byte.
pub open spec fn authorize_url(cfg: ProviderConfig, state: Seq<char>, redirect_uri: Seq<char>) -> Seq<char> {
    url_text(cfg.authorize_layout@, cfg.client_id@, state, redirect_uri)
}

pub fn build_authorize_url(cfg: &ProviderConfig, state: &String, redirect_uri: &String) -> (r:
    String)
    ensures
        r@ == authorize_url(*cfg, state@, redirect_uri@),
{
    let ghost pieces = cfg.authorize_layout@;
    let mut url = String::new();
    let n = cfg.authorize_layout.len();
    let mut i: usize = 0;
    while i < n
        invariant
            i <= n,
            n == pieces.len(),
            pieces == cfg.authorize_layout@,
            url@ == url_text(pieces.take(i as int), cfg.client_id@, state@, redirect_uri@),
        decreases n - i,
    {
        match &cfg.authorize_layout[i] {
            UrlPiece::Literal(l) => url.append(l.as_str()),
            UrlPiece::ClientId => url.append(cfg.client_id.as_str()),
            UrlPiece::StateNonce => url.append(state.as_str()),
            UrlPiece::RedirectUri => url.append(redirect_uri.as_str()),
        }
        proof {
            assert(pieces.take(i as int + 1).drop_last() =~= pieces.take(i as int));
            assert(pieces.take(i as int + 1).last() == pieces[i as int]);
        }
        i = i + 1;
    }
    proof {
        assert(pieces.take(n as int) =~= pieces);
    }
    url
}

/// The form body of the authorization-code exchange, as name/value pairs:
/// the grant type, the code and the redirect URI, plus the PKCE verifier
/// where the provider requires one.
pub open spec fn token_request_view(cfg: ProviderConfig, code: Seq<char>, redirect_uri: Seq<char>) -> Seq<(Seq<char>, Seq<char>)> {
    let base = seq![
        ("grant_type"@, "authorization_code"@),
        ("code"@, code),
        ("redirect_uri"@, redirect_uri),
    ];
    match cfg.code_verifier {
        Some(v) => base.push(("code_verifier"@, v@)),
        None => base,
    }
}

pub fn token_request_params(cfg: &ProviderConfig, code: &String, redirect_uri: &String) -> (r: Vec<
    (String, String),
>)
    ensures
        r@.map_values(|p: (String, String)| (p.0@, p.1@)) == token_request_view(
            *cfg,
            code@,
            redirect_uri@,
        ),
{
    let mut params: Vec<(String, String)> = Vec::new();
    params.push(("grant_type".to_owned(), "authorization_code".to_owned()));
    params.push(("code".to_owned(), code.clone()));
    params.push(("redirect_uri".to_owned(), redirect_uri.clone()));
    match &cfg.code_verifier {
        Some(v) => {
            params.push(("code_verifier".to_owned(), v.clone()));
        }
        None => {}
    }
    proof {
        assert(params@.map_values(|p: (String, String)| (p.0@, p.1@)) =~= token_request_view(
            *cfg,
            code@,
            redirect_uri@,
        ));
    }
    params
}

} // verus!
