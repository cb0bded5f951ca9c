//! Upper-case hexadecimal key tokens.

use vstd::prelude::*;
use vstd::string::StringSliceAdditionalSpecFns;

verus! {

/// The digit that stands for a value below sixteen.
pub open spec fn hex_digit(nibble: int) -> char {
    seq!['0', '1', '2', '3', '4', '5', '6', '7', '8', '9', 'A', 'B', 'C', 'D', 'E', 'F'][nibble]
}

/// The token of a key: two digits per byte, the high half first.
pub open spec fn hex_upper(bytes: Seq<u8>) -> Seq<char> {
    Seq::new(
        2 * bytes.len(),
        |i: int|
            if i % 2 == 0 {
                hex_digit(bytes[i / 2] as int / 16)
            } else {
                hex_digit(bytes[i / 2] as int % 16)
            },
    )
}

/// Whether a text is the token of some key.
pub open spec fn is_hex_upper(text: Seq<char>) -> bool {
    exists|bytes: Seq<u8>| #[trigger] hex_upper(bytes) == text
}

/// Calls `data_encoding::HEXUPPER.encode`. Trusted: the text it returns is
/// the one that `hex_upper` describes.
#[verifier::external_body]
fn hexupper_encode(bytes: &[u8]) -> (text: String)
    ensures
        text@ == hex_upper(bytes@),
{
    data_encoding::HEXUPPER.encode(bytes)
}

/// Calls `data_encoding::HEXUPPER.decode`. Trusted: it accepts exactly the
/// texts that `hex_upper` can produce and returns bytes that encode to the
/// text it was given.
#[verifier::external_body]
fn hexupper_decode(text: &str) -> (bytes: Option<Vec<u8>>)
    ensures
        match bytes {
            Some(b) => hex_upper(b@) == text@,
            None => !is_hex_upper(text@),
        },
{
    data_encoding::HEXUPPER.decode(text.as_bytes()).ok()
}

/// Distinct values below sixteen have distinct digits.
pub proof fn hex_digit_injective(a: int, b: int)
    requires
        0 <= a < 16,
        0 <= b < 16,
        hex_digit(a) == hex_digit(b),
    ensures
        a == b,
{
}

/// Two keys with the same token are the same key.
pub proof fn hex_upper_injective(a: Seq<u8>, b: Seq<u8>)
    requires
        hex_upper(a) == hex_upper(b),
    ensures
        a == b,
{
    assert(hex_upper(a).len() == 2 * a.len());
    assert(hex_upper(b).len() == 2 * b.len());
    assert(a.len() == b.len());
    assert forall|i: int| 0 <= i < a.len() implies a[i] == b[i] by {
        let x: int = a[i] as int;
        let y: int = b[i] as int;
        assert(hex_upper(a)[2 * i] == hex_digit(x / 16));
        assert(hex_upper(b)[2 * i] == hex_digit(y / 16));
        assert(hex_upper(a)[2 * i + 1] == hex_digit(x % 16));
        assert(hex_upper(b)[2 * i + 1] == hex_digit(y % 16));
        hex_digit_injective(x / 16, y / 16);
        hex_digit_injective(x % 16, y % 16);
    }
    assert(a =~= b);
}

/// The token under which a key is observed.
pub fn encode_key(key: &[u8]) -> (token: String)
    ensures
        token@ == hex_upper(key@),
        token@.len() == 2 * key@.len(),
{
    hexupper_encode(key)
}

/// The form in which a client id stands in the topic of its notifications:
/// the token of its bytes.
pub fn encode_client_id(client_id: &str) -> (token: String)
    ensures
        token@ == hex_upper(client_id.spec_bytes()),
{
    hexupper_encode(client_id.as_bytes())
}

/// The key that a token stands for, if it is a token at all.
pub fn decode_key_token(token: &str) -> (key: Option<Vec<u8>>)
    ensures
        key.is_some() == is_hex_upper(token@),
        key.is_some() ==> hex_upper(key.unwrap()@) == token@,
{
    hexupper_decode(token)
}

/// Decoding the token of a key gives the key back: the token of a key is
/// always accepted, and whatever decodes from it is the key.
pub proof fn decode_inverts_encode(key: Seq<u8>, decoded: Seq<u8>)
    ensures
        is_hex_upper(hex_upper(key)),
        hex_upper(decoded) == hex_upper(key) ==> decoded == key,
{
    if hex_upper(decoded) == hex_upper(key) {
        hex_upper_injective(decoded, key);
    }
}

} // verus!
