use vstd::prelude::*;
use crate::errors::LinkError;

verus! {

// The provider payloads are JSON; the library reads only top-level string
// fields from them. Parsing is delegated to serde_json behind three named
// results: which texts parse, which top-level fields are present, and
// what string such a field holds. Presence and string value are named
// apart so that an absent field (the catchable case) and a present field
// of the wrong type (an upstream fault) stay distinguishable.

/// Whether the text is a well-formed JSON document. Named, not restated:
/// the trusted wrappers below are the only source of its values.
pub uninterp spec fn json_parses(body: Seq<char>) -> bool;

/// Whether the JSON document `body` has the top-level field `field`,
/// whatever that field holds; false when the body does not parse.
pub uninterp spec fn json_field_present(body: Seq<char>, field: Seq<char>) -> bool;

/// The string held by the top-level field `field` of the JSON document
/// `body`: a value exactly when the body parses, the field is present at
/// the top level, and it holds a string.
pub uninterp spec fn json_str_field(body: Seq<char>, field: Seq<char>) -> Option<Seq<char>>;

/// Relies on serde_json::from_str: whether the body is valid JSON.
#[verifier::external_body]
fn parse_check(body: &str) -> (r: bool)
    ensures
        r == json_parses(body@),
{
    serde_json::from_str::<serde_json::Value>(body).is_ok()
}

/// Relies on serde_json::from_str and Value::get: whether the document
/// has the top-level field at all; false for an unparseable body.
#[verifier::external_body]
fn check_field_present(body: &str, field: &str) -> (r: bool)
    ensures
        r == json_field_present(body@, field@),
        !json_parses(body@) ==> !r,
{
    match serde_json::from_str::<serde_json::Value>(body) {
        Ok(doc) => doc.get(field).is_some(),
        Err(_) => false,
    }
}

/// Relies on serde_json::from_str, Value::get and Value::as_str: the
/// string value of a top-level field, a function of the body text alone;
/// nothing comes back when the body does not parse, the field is absent,
/// or the field does not hold a string.
#[verifier::external_body]
fn extract_str_field(body: &str, field: &str) -> (r: Option<String>)
    ensures
        r matches Some(v) ==> json_str_field(body@, field@) == Some(v@),
        r is Some ==> json_field_present(body@, field@),
        r is None ==> json_str_field(body@, field@) is None,
        !json_parses(body@) ==> r is None,
    {
    match serde_json::from_str::<serde_json::Value>(body) {
        Ok(doc) => match doc.get(field) {
            Some(value) => value.as_str().map(|s| s.to_string()),
            None => None,
        },
        Err(_) => None,
    }
}

/// Extract a required string field from an upstream JSON payload. An
/// absent field is the catchable `FieldMissing`; a body that does not
/// parse, and a field that is present but does not hold a string, are
/// both upstream failures.
pub fn get_json_str(field: &String, body: &String) -> (r: Result<String, LinkError>)
    ensures
        r is Ok <==> json_str_field(body@, field@) is Some,
        r matches Ok(v) ==> json_str_field(body@, field@) == Some(v@),
        r matches Err(e) ==> json_str_field(body@, field@) is None && match e {
            LinkError::UpstreamError => !json_parses(body@) || json_field_present(body@, field@),
            LinkError::FieldMissing(f) => json_parses(body@) && !json_field_present(body@, field@)
                && f@ == field@,
            _ => false,
        },
        json_parses(body@) && !json_field_present(body@, field@) ==> (r matches Err(e) && (
        e matches LinkError::FieldMissing(f) && f@ == field@)),
{
    match extract_str_field(body.as_str(), field.as_str()) {
        Some(v) => Ok(v),
        None => {
            if !parse_check(body.as_str()) {
                Err(LinkError::UpstreamError)
            } else if check_field_present(body.as_str(), field.as_str()) {
                Err(LinkError::UpstreamError)
            } else {
                Err(LinkError::FieldMissing(field.clone()))
            }
        }
    }
}

} // verus!
