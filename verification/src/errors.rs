use vstd::prelude::*;

verus! {

/// The recoverable per-request failures of the account and linking flows.
/// None of these aborts a flow beyond its own request.
#[derive(Debug, PartialEq, Eq)]
pub enum LinkError {
    /// The user record (or the username at login) does not exist.
    NotFound,
    /// The callback's anti-forgery state nonce is missing or does not match.
    InvalidState,
    /// A third-party call failed: transport, non-success status, a
    /// payload that does not parse, or a payload field of the wrong type.
    UpstreamError,
    /// An expected field is absent from an upstream payload; carries the
    /// field's name.
    FieldMissing(String),
    /// The username is already registered.
    AlreadyExists,
    /// The password hash does not match the stored one.
    IncorrectPassword,
}

} // verus!
