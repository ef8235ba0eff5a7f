//! Hexadecimal encoding and decoding, as signature headers carry digests.

use vstd::prelude::*;

verus! {

/// True of a byte that is an ASCII hexadecimal digit, of either case.
pub open spec fn is_hex_digit(b: u8) -> bool {
    (48 <= b && b <= 57) || (97 <= b && b <= 102) || (65 <= b && b <= 70)
}

/// The numeric value of an ASCII hexadecimal digit.
pub open spec fn hex_val(b: u8) -> u8 {
    if 48 <= b && b <= 57 {
        (b - 48) as u8
    } else if 97 <= b && b <= 102 {
        (b - 87) as u8
    } else {
        (b - 55) as u8
    }
}

/// A byte string is valid hex when its length is even and every byte is a
/// hexadecimal digit.
pub open spec fn hex_valid(s: Seq<u8>) -> bool {
    s.len() % 2 == 0 && (forall|i: int| 0 <= i < s.len() ==> is_hex_digit(#[trigger] s[i]))
}

/// The bytes a valid hex string decodes to: each digit pair becomes one byte,
/// high digit first.
pub open spec fn hex_decoded(s: Seq<u8>) -> Seq<u8>
    decreases s.len(),
{
    if s.len() < 2 {
        Seq::empty()
    } else {
        seq![(hex_val(s[0]) * 16 + hex_val(s[1])) as u8] + hex_decoded(s.skip(2))
    }
}

/// Relies on hex::decode: it succeeds exactly on even-length strings of
/// hexadecimal digits of either case, and turns each digit pair into one
/// byte, high digit first.
#[verifier::external_body]
pub(crate) fn hex_decode(data: &[u8]) -> (r: Option<Vec<u8>>)
    ensures
        r is Some <==> hex_valid(data@),
        r is Some ==> r.unwrap()@ == hex_decoded(data@),
{
    hex::decode(data).ok()
}

/// The lowercase hexadecimal digit for a value below sixteen.
pub open spec fn hex_digit_lower(v: u8) -> u8 {
    if v < 10 {
        (48 + v) as u8
    } else {
        (87 + v) as u8
    }
}

/// The lowercase hexadecimal encoding of a byte string.
pub open spec fn hex_of(b: Seq<u8>) -> Seq<u8>
    decreases b.len(),
{
    if b.len() == 0 {
        Seq::empty()
    } else {
        seq![
            hex_digit_lower((b[0] / 16) as u8),
            hex_digit_lower((b[0] % 16) as u8),
        ] + hex_of(b.skip(1))
    }
}

/// Law: the lowercase encoding of any byte string is valid hex of twice its
/// length, and decoding gives the byte string back.
pub proof fn lemma_hex_round_trip(b: Seq<u8>)
    ensures
        hex_of(b).len() == 2 * b.len(),
        hex_valid(hex_of(b)),
        hex_decoded(hex_of(b)) == b,
    decreases b.len(),
{
    if b.len() == 0 {
        assert(hex_decoded(hex_of(b)) =~= b);
    } else {
        let x = b[0];
        let d0 = hex_digit_lower((x / 16) as u8);
        let d1 = hex_digit_lower((x % 16) as u8);
        lemma_hex_round_trip(b.skip(1));
        vstd::arithmetic::div_mod::lemma_fundamental_div_mod(x as int, 16);
        assert(hex_val(d0) * 16 + hex_val(d1) == x);
        assert(forall|i: int| 0 <= i < hex_of(b).len() ==> is_hex_digit(#[trigger] hex_of(b)[i]))
            by {
            assert(forall|i: int| 2 <= i < hex_of(b).len() ==> hex_of(b)[i] == #[trigger] hex_of(
                b.skip(1),
            )[i - 2]);
        }
        assert(hex_of(b).skip(2) =~= hex_of(b.skip(1)));
        assert(hex_decoded(hex_of(b)) =~= b);
    }
}

} // verus!
