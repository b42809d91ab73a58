use sha2::Digest;
use vstd::prelude::*;

use crate::text::push_char;

verus! {

/// The SHA-256 digest of `data`, as the `sha2` crate computes it.
pub uninterp spec fn sha256_digest(data: Seq<u8>) -> Seq<u8>;

/// Calls `sha2::Sha256::digest`: the result is the digest of `data`, and a SHA-256 digest
/// is 32 bytes long (the output type is `GenericArray<u8, U32>`).
#[verifier::external_body]
fn sha256(data: &[u8]) -> (d: Vec<u8>)
    ensures
        d@ == sha256_digest(data@),
        d@.len() == 32,
{
    sha2::Sha256::digest(data).to_vec()
}

/// The lower-case hexadecimal digit of `n` (`0 <= n < 16`).
pub open spec fn hex_digit(n: int) -> char {
    if n < 10 {
        (48 + n) as char
    } else {
        (87 + n) as char
    }
}

/// A lower-case hexadecimal digit.
pub open spec fn is_lower_hex(c: char) -> bool {
    ('0' <= c && c <= '9') || ('a' <= c && c <= 'f')
}

/// Two lower-case hexadecimal digits per byte, high nibble first.
pub open spec fn hex_lower(b: Seq<u8>) -> Seq<char> {
    Seq::new(
        2 * b.len(),
        |i: int|
            if i % 2 == 0 {
                hex_digit(b[i / 2] as int / 16)
            } else {
                hex_digit(b[i / 2] as int % 16)
            },
    )
}

fn hex_char(n: u8) -> (c: char)
    requires
        n < 16,
    ensures
        c == hex_digit(n as int),
        is_lower_hex(c),
{
    if n < 10 {
        ((48 + n) as u8) as char
    } else {
        ((87 + n) as u8) as char
    }
}

/// `bytes` in lower-case hexadecimal, as `format!("{:x}", ..)` writes a digest.
pub fn to_hex_lower(bytes: &[u8]) -> (r: String)
    ensures
        r@ == hex_lower(bytes@),
{
    let mut r = String::new();
    for i in 0..bytes.len()
        invariant
            r@.len() == 2 * i,
            forall|j: int| 0 <= j < 2 * i ==> r@[j] == hex_lower(bytes@)[j],
    {
        let byte: u8 = bytes[i];
        push_char(&mut r, hex_char(byte / 16));
        push_char(&mut r, hex_char(byte % 16));
        assert forall|j: int| 0 <= j < 2 * (i + 1) implies r@[j] == hex_lower(bytes@)[j] by {
            if j >= 2 * i {
                assert(j / 2 == i);
            }
        }
    }
    assert(r@ =~= hex_lower(bytes@));
    r
}

/// The id under which a session is stored: the SHA-256 digest of the token that the
/// session cookie carries, in lower-case hexadecimal.
pub open spec fn spec_session_id(token: Seq<char>) -> Seq<char> {
    hex_lower(sha256_digest(vstd::utf8::encode_utf8(token)))
}

/// The stored id of the session whose cookie carries `token`.
pub fn session_id(token: &str) -> (id: String)
    ensures
        id@ == spec_session_id(token@),
        id@.len() == 64,
        forall|i: int| 0 <= i < 64 ==> is_lower_hex(#[trigger] id@[i]),
{
    let d = sha256(token.as_bytes());
    let id = to_hex_lower(d.as_slice());
    assert forall|i: int| 0 <= i < 64 implies is_lower_hex(#[trigger] id@[i]) by {
        assert(id@[i] == hex_lower(d@)[i]);
    }
    id
}

/// A session token: 64 lower-case hexadecimal digits.
pub open spec fn is_session_token(t: Seq<char>) -> bool {
    t.len() == 64 && forall|i: int| 0 <= i < 64 ==> is_lower_hex(#[trigger] t[i])
}

/// A UUID in its hyphenated lower-case text form: 36 characters, hyphens at 8, 13, 18
/// and 23, lower-case hexadecimal digits elsewhere.
pub open spec fn is_uuid_text(s: Seq<char>) -> bool {
    &&& s.len() == 36
    &&& forall|i: int|
        0 <= i < 36 ==> if i == 8 || i == 13 || i == 18 || i == 23 {
            #[trigger] s[i] == '-'
        } else {
            is_lower_hex(s[i])
        }
}

/// Calls `uuid::Uuid::new_v4()` and writes it in the `simple` form: 32 lower-case
/// hexadecimal digits (its `LowerHex` formatting). The value is random.
#[verifier::external_body]
fn random_uuid_simple() -> (s: String)
    ensures
        s@.len() == 32,
        forall|i: int| 0 <= i < 32 ==> is_lower_hex(#[trigger] s@[i]),
{
    uuid::Uuid::new_v4().simple().to_string()
}

/// Calls `uuid::Uuid::new_v4()` and writes it with `to_string`, in the hyphenated
/// lower-case form. The value is random.
#[verifier::external_body]
pub(crate) fn random_uuid() -> (s: String)
    ensures
        is_uuid_text(s@),
{
    uuid::Uuid::new_v4().to_string()
}

/// A fresh random session token: two random UUIDs in their simple form, one after the
/// other.
pub fn new_session_token() -> (t: String)
    ensures
        is_session_token(t@),
{
    let mut t = random_uuid_simple();
    let u = random_uuid_simple();
    let ghost first = t@;
    t.append(u.as_str());
    assert forall|i: int| 0 <= i < 64 implies is_lower_hex(#[trigger] t@[i]) by {
        if i < 32 {
            assert(t@[i] == first[i]);
        } else {
            assert(t@[i] == u@[i - 32]);
        }
    }
    t
}

/// The hexadecimal text of bytes reads back as the bytes: two lower-case hexadecimal
/// digits per byte, the high nibble first.
pub proof fn hex_reads_back(b: Seq<u8>)
    ensures
        hex_lower(b).len() == 2 * b.len(),
        forall|i: int| 0 <= i < 2 * b.len() ==> is_lower_hex(#[trigger] hex_lower(b)[i]),
        forall|i: int|
            0 <= i < b.len() ==> {
                let hi = hex_lower(b)[2 * i] as int;
                let lo = hex_lower(b)[2 * i + 1] as int;
                (if hi < 58 {
                    hi - 48
                } else {
                    hi - 87
                }) * 16 + (if lo < 58 {
                    lo - 48
                } else {
                    lo - 87
                }) == #[trigger] b[i]
            },
{
    assert forall|n: int| 0 <= n < 16 implies #[trigger] hex_digit(n) as int == (if n < 10 {
        48 + n
    } else {
        87 + n
    }) && is_lower_hex(hex_digit(n)) by {}
    assert forall|i: int| 0 <= i < 2 * b.len() implies is_lower_hex(#[trigger] hex_lower(b)[i]) by {
        if i % 2 == 0 {
            assert(hex_lower(b)[i] == hex_digit(b[i / 2] as int / 16));
        } else {
            assert(hex_lower(b)[i] == hex_digit(b[i / 2] as int % 16));
        }
    }
    assert forall|i: int| 0 <= i < b.len() implies {
        let hi = hex_lower(b)[2 * i] as int;
        let lo = hex_lower(b)[2 * i + 1] as int;
        (if hi < 58 {
            hi - 48
        } else {
            hi - 87
        }) * 16 + (if lo < 58 {
            lo - 48
        } else {
            lo - 87
        }) == #[trigger] b[i]
    } by {
        assert((2 * i) / 2 == i);
        assert((2 * i + 1) / 2 == i);
        assert((2 * i) % 2 == 0);
        assert((2 * i + 1) % 2 == 1);
        assert(hex_lower(b)[2 * i] == hex_digit(b[i] as int / 16));
        assert(hex_lower(b)[2 * i + 1] == hex_digit(b[i] as int % 16));
        assert(b[i] as int == (b[i] as int / 16) * 16 + b[i] as int % 16);
    }
}

} // verus!
