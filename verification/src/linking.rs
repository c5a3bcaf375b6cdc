use vstd::prelude::*;
use crate::errors::LinkError;
use crate::json::get_json_str;
use crate::json::json_field_present;
use crate::json::json_parses;
use crate::json::json_str_field;
use crate::nonce::all_nonce_chars;
use crate::nonce::generate_random_string;
use crate::provider::Provider;
use crate::provider::ProviderConfig;
use crate::provider::access_token_field;
use crate::provider::access_token_field_name;
use crate::provider::authorize_url;
use crate::provider::build_authorize_url;
use crate::provider::lemma_provider_fields_distinct;
use crate::provider::linked_id_field;
use crate::provider::linked_id_field_name;
use crate::provider::linked_name_field;
use crate::provider::linked_name_field_name;
use crate::provider::refresh_token_field;
use crate::provider::refresh_token_field_name;
use crate::provider::state_field;
use crate::provider::state_field_name;
use crate::store::Store;

verus! {

// The linking orchestrator: one state machine per (user, provider) pair,
// unlinked until a connect URL is issued, pending while a state nonce is
// stored, linked once a callback with the matching nonce has deposited the
// provider's tokens and profile. The code exchange and the profile fetch
// are network calls; the caller performs them and hands their outcomes in,
// and every decision and every store write is made here.

/// The length of the state nonce embedded in a connect URL.
pub const STATE_NONCE_LENGTH: usize = 64;

/// What the authorization-code exchange answers with; `raw_payload` keeps
/// the body the tokens were read from.
pub struct ProviderTokenSet {
    pub access_token: String,
    pub refresh_token: String,
    pub raw_payload: String,
}

/// The provider's view of the linked account.
pub struct ProviderProfile {
    pub provider_user_id: String,
    pub display_name: String,
}

/// A pending attempt whose stored nonce equals `state`.
pub open spec fn state_matches(
    rec: Map<Seq<char>, Seq<char>>,
    p: Provider,
    state: Seq<char>,
) -> bool {
    rec.dom().contains(state_field(p)) && rec[state_field(p)] == state
}

/// The record after a matching callback consumed the nonce and deposited
/// the two tokens.
pub open spec fn tokens_recorded(
    rec: Map<Seq<char>, Seq<char>>,
    p: Provider,
    access: Seq<char>,
    refresh: Seq<char>,
) -> Map<Seq<char>, Seq<char>> {
    rec.remove(state_field(p)).insert(access_token_field(p), access).insert(
        refresh_token_field(p),
        refresh,
    )
}

/// The record after the provider profile was deposited.
pub open spec fn profile_recorded(
    rec: Map<Seq<char>, Seq<char>>,
    p: Provider,
    provider_user_id: Seq<char>,
    display_name: Seq<char>,
) -> Map<Seq<char>, Seq<char>> {
    rec.insert(linked_id_field(p), provider_user_id).insert(linked_name_field(p), display_name)
}

/// Issue a connect URL carrying the given state nonce: overwrite the
/// pending nonce for this (user, provider) pair — invalidating any earlier
/// attempt — and answer with the authorize URL that embeds it. A user
/// absent from the store is refused with no write.
pub fn issue_connect_url_with_state(
    store: &mut Store,
    cfg: &ProviderConfig,
    user_id: &String,
    redirect_uri: &String,
    state: String,
) -> (r: Result<String, LinkError>)
    requires
        old(store).wf(),
    ensures
        final(store).wf(),
        final(store).usernames_view() == old(store).usernames_view(),
        !old(store).has_user(user_id@) ==> r == Err::<String, LinkError>(LinkError::NotFound)
            && final(store).users_view() == old(store).users_view(),
        old(store).has_user(user_id@) ==> (r matches Ok(url) && url@ == authorize_url(
            *cfg,
            state@,
            redirect_uri@,
        ) && final(store).users_view() == old(store).users_view().insert(
            user_id@,
            old(store).record_view(user_id@).insert(state_field(cfg.provider), state@),
        )),
{
    if !store.user_exists(user_id) {
        return Err(LinkError::NotFound);
    }
    let url = build_authorize_url(cfg, &state, redirect_uri);
    let field = state_field_name(cfg.provider);
    store.set_field(user_id, field, state);
    Ok(url)
}

/// Issue a connect URL with a freshly drawn state nonce. The nonce is the
/// one stored under the provider's state field of the user's record:
/// alphanumeric, of the fixed length, and embedded in the returned URL.
pub fn issue_connect_url(
    store: &mut Store,
    cfg: &ProviderConfig,
    user_id: &String,
    redirect_uri: &String,
) -> (r: Result<String, LinkError>)
    requires
        old(store).wf(),
    ensures
        final(store).wf(),
        final(store).usernames_view() == old(store).usernames_view(),
        !old(store).has_user(user_id@) ==> r == Err::<String, LinkError>(LinkError::NotFound)
            && final(store).users_view() == old(store).users_view(),
        old(store).has_user(user_id@) ==> ({
            let nonce = final(store).record_view(user_id@)[state_field(cfg.provider)];
            &&& (r matches Ok(url) && url@ == authorize_url(*cfg, nonce, redirect_uri@))
            &&& nonce.len() == STATE_NONCE_LENGTH
            &&& all_nonce_chars(nonce)
            &&& final(store).users_view() == old(store).users_view().insert(
                user_id@,
                old(store).record_view(user_id@).insert(state_field(cfg.provider), nonce),
            )
        }),
{
    let nonce = generate_random_string(STATE_NONCE_LENGTH);
    issue_connect_url_with_state(store, cfg, user_id, redirect_uri, nonce)
}

/// Settle a provider callback: given the outcome of the caller's
/// code-for-token exchange, verify the anti-forgery state nonce against
/// the stored one and, only on a match, consume the nonce and deposit the
/// two tokens. On a mismatched or missing nonce the exchanged tokens are
/// discarded. On success the access token is answered back for the
/// profile fetch that follows. No error path writes anything.
pub fn handle_callback(
    store: &mut Store,
    cfg: &ProviderConfig,
    user_id: &String,
    state: &String,
    exchange: Result<ProviderTokenSet, LinkError>,
) -> (r: Result<String, LinkError>)
    requires
        old(store).wf(),
    ensures
        final(store).wf(),
        final(store).usernames_view() == old(store).usernames_view(),
        r is Err ==> final(store).users_view() == old(store).users_view(),
        !old(store).has_user(user_id@) ==> r == Err::<String, LinkError>(LinkError::NotFound),
        old(store).has_user(user_id@) ==> (exchange matches Err(e) ==> r == Err::<
            String,
            LinkError,
        >(e)),
        old(store).has_user(user_id@) && exchange is Ok && !state_matches(
            old(store).record_view(user_id@),
            cfg.provider,
            state@,
        ) ==> r == Err::<String, LinkError>(LinkError::InvalidState),
        old(store).has_user(user_id@) && state_matches(
            old(store).record_view(user_id@),
            cfg.provider,
            state@,
        ) ==> (exchange matches Ok(t) ==> (r == Ok::<String, LinkError>(t.access_token)
            && final(store).users_view() == old(store).users_view().insert(
            user_id@,
            tokens_recorded(
                old(store).record_view(user_id@),
                cfg.provider,
                t.access_token@,
                t.refresh_token@,
            ),
        ))),
{
    let ghost uv0 = store.users_view();
    let ghost rec0 = store.record_view(user_id@);
    if !store.user_exists(user_id) {
        return Err(LinkError::NotFound);
    }
    let tokens = match exchange {
        Ok(t) => t,
        Err(e) => {
            return Err(e);
        }
    };
    let field = state_field_name(cfg.provider);
    let matched = match store.get_field(user_id, &field) {
        Some(stored) => stored.eq(state),
        None => false,
    };
    if !matched {
        return Err(LinkError::InvalidState);
    }
    store.delete_field(user_id, &field);
    let access_field = access_token_field_name(cfg.provider);
    let refresh_field = refresh_token_field_name(cfg.provider);
    let answered = tokens.access_token.clone();
    let ghost at = tokens.access_token@;
    let ghost rt = tokens.refresh_token@;
    store.set_field(user_id, access_field, tokens.access_token);
    store.set_field(user_id, refresh_field, tokens.refresh_token);
    proof {
        assert(store.users_view() =~= uv0.insert(
            user_id@,
            tokens_recorded(rec0, cfg.provider, at, rt),
        )) by {
            assert(uv0.insert(user_id@, rec0.remove(state_field(cfg.provider))).dom().contains(
                user_id@,
            ));
        }
    }
    Ok(answered)
}

/// Deposit the provider profile that the caller fetched with the access
/// token: the final step of a callback. A fetch failure leaves the
/// already-deposited tokens as they are — the link is then tokens-only and
/// the error is answered back; nothing is rolled back.
pub fn record_profile(
    store: &mut Store,
    cfg: &ProviderConfig,
    user_id: &String,
    profile: Result<ProviderProfile, LinkError>,
) -> (r: Result<(), LinkError>)
    requires
        old(store).wf(),
    ensures
        final(store).wf(),
        final(store).usernames_view() == old(store).usernames_view(),
        r is Err ==> final(store).users_view() == old(store).users_view(),
        !old(store).has_user(user_id@) ==> r == Err::<(), LinkError>(LinkError::NotFound),
        old(store).has_user(user_id@) ==> (profile matches Err(e) ==> r == Err::<(), LinkError>(
            e,
        )),
        old(store).has_user(user_id@) ==> (profile matches Ok(p) ==> (r is Ok
            && final(store).users_view() == old(store).users_view().insert(
            user_id@,
            profile_recorded(
                old(store).record_view(user_id@),
                cfg.provider,
                p.provider_user_id@,
                p.display_name@,
            ),
        ))),
{
    let ghost uv0 = store.users_view();
    let ghost rec0 = store.record_view(user_id@);
    if !store.user_exists(user_id) {
        return Err(LinkError::NotFound);
    }
    let p = match profile {
        Ok(p) => p,
        Err(e) => {
            return Err(e);
        }
    };
    let id_field = linked_id_field_name(cfg.provider);
    let name_field = linked_name_field_name(cfg.provider);
    let ghost pid = p.provider_user_id@;
    let ghost pname = p.display_name@;
    store.set_field(user_id, id_field, p.provider_user_id);
    store.set_field(user_id, name_field, p.display_name);
    proof {
        assert(store.users_view() =~= uv0.insert(
            user_id@,
            profile_recorded(rec0, cfg.provider, pid, pname),
        )) by {
            assert(uv0.insert(user_id@, rec0.insert(linked_id_field(cfg.provider), pid))
                .dom().contains(user_id@));
        }
    }
    Ok(())
}

/// Read the token set out of the exchange payload; the two token strings
/// are required, and an unparseable payload is an upstream failure.
pub fn parse_token_response(body: &String) -> (r: Result<ProviderTokenSet, LinkError>)
    ensures
        r is Ok <==> json_str_field(body@, "access_token"@) is Some && json_str_field(
            body@,
            "refresh_token"@,
        ) is Some,
        r matches Ok(t) ==> json_str_field(body@, "access_token"@) == Some(t.access_token@)
            && json_str_field(body@, "refresh_token"@) == Some(t.refresh_token@)
            && t.raw_payload@ == body@,
        r matches Err(e) ==> match e {
            LinkError::UpstreamError => !json_parses(body@) || (json_field_present(
                body@,
                "access_token"@,
            ) && json_str_field(body@, "access_token"@) is None) || (json_field_present(
                body@,
                "refresh_token"@,
            ) && json_str_field(body@, "refresh_token"@) is None),
            LinkError::FieldMissing(f) => json_parses(body@) && !json_field_present(body@, f@)
                && json_str_field(body@, f@) is None && (f@ == "access_token"@ || f@
                == "refresh_token"@),
            _ => false,
        },
{
    let access_token = match get_json_str(&"access_token".to_owned(), body) {
        Ok(v) => v,
        Err(e) => {
            return Err(e);
        }
    };
    let refresh_token = match get_json_str(&"refresh_token".to_owned(), body) {
        Ok(v) => v,
        Err(e) => {
            return Err(e);
        }
    };
    Ok(ProviderTokenSet { access_token, refresh_token, raw_payload: body.clone() })
}

/// Read the canonical profile out of the profile payload, mapping the
/// provider-specific field names to the canonical shape; each of the two
/// fields is required, and an unparseable payload is an upstream failure.
pub fn parse_profile_response(cfg: &ProviderConfig, body: &String) -> (r: Result<
    ProviderProfile,
    LinkError,
>)
    ensures
        r is Ok <==> json_str_field(body@, cfg.profile_id_field@) is Some && json_str_field(
            body@,
            cfg.profile_name_field@,
        ) is Some,
        r matches Ok(p) ==> json_str_field(body@, cfg.profile_id_field@) == Some(
            p.provider_user_id@,
        ) && json_str_field(body@, cfg.profile_name_field@) == Some(p.display_name@),
        r matches Err(e) ==> match e {
            LinkError::UpstreamError => !json_parses(body@) || (json_field_present(
                body@,
                cfg.profile_id_field@,
            ) && json_str_field(body@, cfg.profile_id_field@) is None) || (json_field_present(
                body@,
                cfg.profile_name_field@,
            ) && json_str_field(body@, cfg.profile_name_field@) is None),
            LinkError::FieldMissing(f) => json_parses(body@) && !json_field_present(body@, f@)
                && json_str_field(body@, f@) is None && (f@ == cfg.profile_id_field@ || f@
                == cfg.profile_name_field@),
            _ => false,
        },
{
    let provider_user_id = match get_json_str(&cfg.profile_id_field, body) {
        Ok(v) => v,
        Err(e) => {
            return Err(e);
        }
    };
    let display_name = match get_json_str(&cfg.profile_name_field, body) {
        Ok(v) => v,
        Err(e) => {
            return Err(e);
        }
    };
    Ok(ProviderProfile { provider_user_id, display_name })
}

/// A completed callback leaves no state nonce behind and leaves the two
/// token fields and the two profile fields present: the pair is linked
/// and the consumed nonce cannot match again.
pub proof fn lemma_completed_link_fields(
    rec: Map<Seq<char>, Seq<char>>,
    p: Provider,
    access: Seq<char>,
    refresh: Seq<char>,
    provider_user_id: Seq<char>,
    display_name: Seq<char>,
)
    ensures
        ({
            let done = profile_recorded(
                tokens_recorded(rec, p, access, refresh),
                p,
                provider_user_id,
                display_name,
            );
            &&& !done.dom().contains(state_field(p))
            &&& done.dom().contains(access_token_field(p))
            &&& done.dom().contains(refresh_token_field(p))
            &&& done.dom().contains(linked_id_field(p))
            &&& done.dom().contains(linked_name_field(p))
            &&& forall|s: Seq<char>| !state_matches(done, p, s)
        }),
{
    lemma_provider_fields_distinct(p);
}

/// Issuing a second connect URL overwrites the pending nonce, so a
/// callback that still carries the first nonce no longer matches.
pub proof fn lemma_reissue_invalidates(
    rec: Map<Seq<char>, Seq<char>>,
    p: Provider,
    first: Seq<char>,
    second: Seq<char>,
)
    requires
        first != second,
    ensures
        !state_matches(rec.insert(state_field(p), second), p, first),
{
}

} // verus!
