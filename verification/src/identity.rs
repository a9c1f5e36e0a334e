//! The identity under which a caller's results are cached: the lower-case
//! hexadecimal encoding of the credential's UTF-8 bytes.

use vstd::prelude::*;
use vstd::utf8::*;

verus! {

/// The lower-case hexadecimal digit for a value below sixteen.
pub open spec fn hex_digit(n: u8) -> char {
    if n == 0 {
        '0'
    } else if n == 1 {
        '1'
    } else if n == 2 {
        '2'
    } else if n == 3 {
        '3'
    } else if n == 4 {
        '4'
    } else if n == 5 {
        '5'
    } else if n == 6 {
        '6'
    } else if n == 7 {
        '7'
    } else if n == 8 {
        '8'
    } else if n == 9 {
        '9'
    } else if n == 10 {
        'a'
    } else if n == 11 {
        'b'
    } else if n == 12 {
        'c'
    } else if n == 13 {
        'd'
    } else if n == 14 {
        'e'
    } else {
        'f'
    }
}

/// The digit at position `i` of the encoding of `bytes`: the high half of
/// byte `i / 2` at even positions, its low half at odd ones.
pub open spec fn hex_at(bytes: Seq<u8>, i: int) -> char {
    if i % 2 == 0 {
        hex_digit(bytes[i / 2] / 16)
    } else {
        hex_digit(bytes[i / 2] % 16)
    }
}

/// Two lower-case hexadecimal digits per byte, high half first.
pub open spec fn hex_encode(bytes: Seq<u8>) -> Seq<char> {
    Seq::new(2 * bytes.len(), |i: int| hex_at(bytes, i))
}

/// The identity that belongs to a credential.
pub open spec fn identity_of(credential: Seq<char>) -> Seq<char> {
    hex_encode(encode_utf8(credential))
}

/// Whether a credential is short enough for its identity to be held in
/// memory: the identity has twice as many characters as the credential has
/// bytes, and no string is longer than `isize::MAX` bytes.
pub open spec fn encodable(credential: Seq<char>) -> bool {
    2 * encode_utf8(credential).len() <= isize::MAX
}

/// Whether a character is one of `0`-`9`, `a`-`f`.
pub open spec fn is_lower_hex(c: char) -> bool {
    exists|n: u8| n < 16 && c == #[trigger] hex_digit(n)
}

/// Calls `faster_hex::hex_string`, which writes each byte of its input as two
/// lower-case hexadecimal digits, the high half first, with nothing before,
/// between or after them. It panics where the digits would take more than
/// `isize::MAX` bytes, so such inputs are left out.
#[verifier::external_body]
fn hex_string(bytes: &[u8]) -> (digits: String)
    requires
        2 * bytes@.len() <= isize::MAX,
    ensures
        digits@ == hex_encode(bytes@),
{
    faster_hex::hex_string(bytes)
}

/// Whether a credential is short enough to have an identity.
pub fn is_encodable(api_key: &str) -> (r: bool)
    ensures
        r == encodable(api_key@),
{
    api_key.as_bytes().len() <= (isize::MAX as usize) / 2
}

/// Derives the identity of a credential.
pub fn client_identity(api_key: &str) -> (id: String)
    requires
        encodable(api_key@),
    ensures
        id@ == identity_of(api_key@),
{
    hex_string(api_key.as_bytes())
}

/// Distinct half-bytes have distinct digits.
pub proof fn hex_digit_injective(m: u8, n: u8)
    requires
        m < 16,
        n < 16,
        hex_digit(m) == hex_digit(n),
    ensures
        m == n,
{
}

/// The encoding of a byte string determines the byte string.
pub proof fn hex_encode_injective(a: Seq<u8>, b: Seq<u8>)
    requires
        hex_encode(a) == hex_encode(b),
    ensures
        a == b,
{
    assert(hex_encode(a).len() == 2 * a.len());
    assert(hex_encode(b).len() == 2 * b.len());
    assert(a.len() == b.len());
    assert forall|i: int| 0 <= i < a.len() implies a[i] == b[i] by {
        let x: u8 = a[i];
        let y: u8 = b[i];
        assert(hex_encode(a)[2 * i] == hex_at(a, 2 * i));
        assert(hex_encode(b)[2 * i] == hex_at(b, 2 * i));
        assert(hex_encode(a)[2 * i + 1] == hex_at(a, 2 * i + 1));
        assert(hex_encode(b)[2 * i + 1] == hex_at(b, 2 * i + 1));
        assert((2 * i) / 2 == i && (2 * i) % 2 == 0);
        assert((2 * i + 1) / 2 == i && (2 * i + 1) % 2 == 1);
        hex_digit_injective(x / 16, y / 16);
        hex_digit_injective(x % 16, y % 16);
        assert(x == y) by (bit_vector)
            requires
                x / 16 == y / 16,
                x % 16 == y % 16,
        ;
    }
    assert(a =~= b);
}

/// Every identity has two characters per byte of the credential, each of them
/// a lower-case hexadecimal digit.
pub proof fn identity_shape(credential: Seq<char>)
    ensures
        identity_of(credential).len() == 2 * encode_utf8(credential).len(),
        forall|i: int|
            0 <= i < identity_of(credential).len() ==> is_lower_hex(
                #[trigger] identity_of(credential)[i],
            ),
{
    let bytes = encode_utf8(credential);
    assert forall|i: int| 0 <= i < identity_of(credential).len() implies is_lower_hex(
        #[trigger] identity_of(credential)[i],
    ) by {
        let half: u8 = if i % 2 == 0 {
            bytes[i / 2] / 16
        } else {
            bytes[i / 2] % 16
        };
        assert(half < 16);
        assert(identity_of(credential)[i] == hex_digit(half));
    }
}

/// The identity is a function of the credential alone, and two credentials
/// share an identity only if they are the same credential.
pub proof fn identity_determines_credential(a: Seq<char>, b: Seq<char>)
    ensures
        a == b ==> identity_of(a) == identity_of(b),
        identity_of(a) == identity_of(b) ==> a == b,
{
    if identity_of(a) == identity_of(b) {
        hex_encode_injective(encode_utf8(a), encode_utf8(b));
        encode_utf8_decode_utf8(a);
        encode_utf8_decode_utf8(b);
    }
}

} // verus!
