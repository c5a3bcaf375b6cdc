use vstd::prelude::*;
use vstd::string::StringExecFns;
use rand::Rng;

verus! {

// The anti-forgery state nonce: an opaque random token bound to one
// linking attempt. Only the draw of a single character is trusted; the
// assembly of the token is verified.

/// An alphanumeric ASCII character: 0-9, A-Z or a-z.
pub open spec fn is_nonce_char(c: char) -> bool {
    (48 <= c as u32 && c as u32 <= 57) || (65 <= c as u32 && c as u32 <= 90) || (97 <= c as u32
        && c as u32 <= 122)
}

/// Every character of the sequence is alphanumeric.
pub open spec fn all_nonce_chars(s: Seq<char>) -> bool {
    forall|i: int| 0 <= i < s.len() ==> is_nonce_char(#[trigger] s[i])
}

/// Relies on rand's Alphanumeric distribution: a sample is one of the 62
/// ASCII characters 0-9, A-Z, a-z, drawn from the thread-local generator.
/// Nothing is assumed about which one comes back.
#[verifier::external_body]
fn sample_nonce_char() -> (r: String)
    ensures
        r@.len() == 1,
        is_nonce_char(r@[0]),
{
    let b: u8 = rand::thread_rng().sample(rand::distributions::Alphanumeric);
    String::from(b as char)
}

/// Draw a random state nonce: exactly `length` alphanumeric characters.
pub fn generate_random_string(length: usize) -> (r: String)
    ensures
        r@.len() == length as nat,
        all_nonce_chars(r@),
{
    let mut s = String::new();
    let mut i: usize = 0;
    while i < length
        invariant
            i <= length,
            s@.len() == i as nat,
            all_nonce_chars(s@),
        decreases length - i,
    {
        let ghost s0 = s@;
        let c = sample_nonce_char();
        s.append(c.as_str());
        proof {
            assert forall|j: int| 0 <= j < s@.len() implies is_nonce_char(#[trigger] s@[j]) by {
                if j < s0.len() {
                    assert(s@[j] == s0[j]);
                } else {
                    assert(s@[j] == c@[0]);
                }
            }
        }
        i = i + 1;
    }
    s
}

} // verus!
