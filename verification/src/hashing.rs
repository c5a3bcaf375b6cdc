use vstd::prelude::*;
use sha2::Digest;

verus! {

// Password hashing: single-round unsalted SHA-256 in lowercase hex, the
// scheme the stored records expect. It is a weak scheme; replacing it with
// a salted memory-hard one needs a migration of stored hashes.

/// The SHA-256 digest of a text's bytes. Named, not restated: the trusted
/// wrapper below is the only source of its values.
pub uninterp spec fn sha256_of(s: Seq<char>) -> Seq<u8>;

/// One lowercase hexadecimal digit.
pub open spec fn hex_digit(n: u8) -> char
    recommends
        n < 16,
{
    if n < 10 {
        (((n + 48) as u8) as char)
    } else {
        (((n + 87) as u8) as char)
    }
}

/// Lowercase hex encoding: two digits per byte, high nibble first.
pub open spec fn hex_of(bytes: Seq<u8>) -> Seq<char> {
    Seq::new(
        2 * bytes.len(),
        |i: int|
            if i % 2 == 0 {
                hex_digit((bytes[i / 2] / 16) as u8)
            } else {
                hex_digit((bytes[i / 2] % 16) as u8)
            },
    )
}

/// The stored form of a password: lowercase hex of its SHA-256 digest.
pub open spec fn password_hash_of(password: Seq<char>) -> Seq<char> {
    hex_of(sha256_of(password))
}

/// Relies on sha2's Sha256: the digest is 32 bytes and depends on the
/// input alone.
#[verifier::external_body]
fn sha256_digest(data: &str) -> (r: Vec<u8>)
    ensures
        r@ == sha256_of(data@),
        r@.len() == 32,
{
    let mut hasher = sha2::Sha256::new();
    hasher.update(data.as_bytes());
    hasher.finalize().to_vec()
}

/// The one-character text of a nibble's lowercase hex digit.
fn hex_digit_str(n: u8) -> (r: &'static str)
    requires
        n < 16,
    ensures
        r@.len() == 1,
        r@[0] == hex_digit(n),
{
    proof {
        reveal_strlit("0");
        reveal_strlit("1");
        reveal_strlit("2");
        reveal_strlit("3");
        reveal_strlit("4");
        reveal_strlit("5");
        reveal_strlit("6");
        reveal_strlit("7");
        reveal_strlit("8");
        reveal_strlit("9");
        reveal_strlit("a");
        reveal_strlit("b");
        reveal_strlit("c");
        reveal_strlit("d");
        reveal_strlit("e");
        reveal_strlit("f");
    }
    if n == 0 {
        "0"
    } else if n == 1 {
        "1"
    } else if n == 2 {
        "2"
    } else if n == 3 {
        "3"
    } else if n == 4 {
        "4"
    } else if n == 5 {
        "5"
    } else if n == 6 {
        "6"
    } else if n == 7 {
        "7"
    } else if n == 8 {
        "8"
    } else if n == 9 {
        "9"
    } else if n == 10 {
        "a"
    } else if n == 11 {
        "b"
    } else if n == 12 {
        "c"
    } else if n == 13 {
        "d"
    } else if n == 14 {
        "e"
    } else {
        "f"
    }
}

/// Hex-encode bytes: two lowercase digits per byte, high nibble first.
fn hex_encode(bytes: &Vec<u8>) -> (r: String)
    ensures
        r@ == hex_of(bytes@),
{
    let mut out = String::new();
    let mut i: usize = 0;
    while i < bytes.len()
        invariant
            i <= bytes@.len(),
            out@ == hex_of(bytes@.take(i as int)),
        decreases bytes@.len() - i,
    {
        let b = bytes[i];
        out.append(hex_digit_str(b / 16));
        out.append(hex_digit_str(b % 16));
        proof {
            let taken = bytes@.take(i as int + 1);
            assert forall|j: int| 0 <= j < 2 * taken.len() implies out@[j] == hex_of(taken)[j] by {
                if j < 2 * i {
                    assert(bytes@.take(i as int)[j / 2] == taken[j / 2]);
                }
            }
            assert(out@ =~= hex_of(taken));
        }
        i = i + 1;
    }
    proof {
        assert(bytes@.take(bytes@.len() as int) =~= bytes@);
    }
    out
}

/// Hash a password for storage or comparison.
pub fn hash_password(password: &String) -> (r: String)
    ensures
        r@ == password_hash_of(password@),
{
    let digest = sha256_digest(password.as_str());
    hex_encode(&digest)
}

} // verus!
