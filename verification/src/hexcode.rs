//! Hexadecimal encoding and decoding of byte strings, used to carry the
//! challenge HMAC tag inside a certificate key id.
//!
//! The encoding itself is done by the `hex` crate; its behaviour is stated
//! exactly over the spec functions below, and the round-trip law is proved
//! from those statements.

use vstd::prelude::*;

verus! {

/// The lowercase hex digit for a nibble value.
pub open spec fn spec_hex_digit(n: u8) -> u8 {
    if n < 10 {
        (n + 48) as u8
    } else {
        (n - 10 + 97) as u8
    }
}

/// Lowercase hex encoding: two digits for each byte, high nibble first.
pub open spec fn spec_hex_encode(s: Seq<u8>) -> Seq<u8>
    decreases s.len(),
{
    if s.len() == 0 {
        Seq::empty()
    } else {
        spec_hex_encode(s.drop_last()) + seq![
            spec_hex_digit(s.last() / 16),
            spec_hex_digit(s.last() % 16),
        ]
    }
}

/// An ASCII hex digit, either case.
pub open spec fn spec_is_hex_digit(b: u8) -> bool {
    (48 <= b <= 57) || (97 <= b <= 102) || (65 <= b <= 70)
}

/// The nibble value of a hex digit.
pub open spec fn spec_hex_val(b: u8) -> u8 {
    if 48 <= b <= 57 {
        (b - 48) as u8
    } else if 97 <= b <= 102 {
        (b - 87) as u8
    } else if 65 <= b <= 70 {
        (b - 55) as u8
    } else {
        0
    }
}

/// What `hex::decode` accepts: an even number of hex digits.
pub open spec fn spec_valid_hex(s: Seq<u8>) -> bool {
    s.len() % 2 == 0 && forall|i: int| 0 <= i < s.len() ==> spec_is_hex_digit(#[trigger] s[i])
}

/// The bytes denoted by a hex string, two digits to a byte.
pub open spec fn spec_hex_decode(s: Seq<u8>) -> Seq<u8>
    decreases s.len(),
{
    if s.len() < 2 {
        Seq::empty()
    } else {
        spec_hex_decode(s.subrange(0, s.len() - 2)) + seq![
            (spec_hex_val(s[s.len() - 2]) * 16 + spec_hex_val(s[s.len() - 1])) as u8,
        ]
    }
}

/// Relies on `hex::encode`: each input byte becomes exactly two lowercase
/// hex digits, high nibble first.
#[verifier::external_body]
pub(crate) fn hex_encode(data: &Vec<u8>) -> (r: Vec<u8>)
    ensures
        r@ == spec_hex_encode(data@),
{
    hex::encode(data).into_bytes()
}

#[verifier::external_type_specification]
#[verifier::external_body]
pub struct ExFromHexError(hex::FromHexError);

/// Relies on `hex::decode`: succeeds exactly on even-length strings of hex
/// digits (either case), pairing digits into bytes.
#[verifier::external_body]
pub(crate) fn hex_decode(data: &Vec<u8>) -> (r: Result<Vec<u8>, hex::FromHexError>)
    ensures
        r is Ok <==> spec_valid_hex(data@),
        r matches Ok(v) ==> v@ == spec_hex_decode(data@),
{
    hex::decode(data)
}

/// Encoding always yields a valid hex string, and decoding it restores
/// the bytes that were encoded.
pub proof fn lemma_hex_round_trip(s: Seq<u8>)
    ensures
        spec_valid_hex(spec_hex_encode(s)),
        spec_hex_decode(spec_hex_encode(s)) == s,
        spec_hex_encode(s).len() == 2 * s.len(),
    decreases s.len(),
{
    if s.len() == 0 {
        assert(spec_hex_decode(spec_hex_encode(s)) =~= s);
    } else {
        lemma_hex_round_trip(s.drop_last());
        let e = spec_hex_encode(s);
        let prev = spec_hex_encode(s.drop_last());
        let b = s.last();
        let hi = spec_hex_digit(b / 16);
        let lo = spec_hex_digit(b % 16);
        assert(e =~= prev + seq![hi, lo]);
        assert(spec_is_hex_digit(hi));
        assert(spec_is_hex_digit(lo));
        assert forall|i: int| 0 <= i < e.len() implies spec_is_hex_digit(#[trigger] e[i]) by {
            if i < prev.len() {
                assert(e[i] == prev[i]);
            }
        }
        assert(e.subrange(0, e.len() - 2) =~= prev);
        assert(spec_hex_val(hi) == b / 16);
        assert(spec_hex_val(lo) == b % 16);
        assert(b / 16 * 16 + b % 16 == b) by (nonlinear_arith);
        assert(spec_hex_decode(e) =~= s.drop_last() + seq![b]);
        assert(s.drop_last() + seq![b] =~= s);
    }
}

} // verus!
