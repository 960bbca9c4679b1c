//! Hexadecimal rendering of byte sequences.
//!
//! The specs here pin down what the hex accessors of a hash result return:
//! two digits per byte, most significant digit first, no separators. The
//! executable encoders are the `hex` crate's, behind trusted wrappers whose
//! contracts state exactly that.

use vstd::prelude::*;

verus! {

/// The uppercase hex digit for a value below sixteen.
pub open spec fn hex_digit_upper(v: nat) -> char {
    if v == 0 {
        '0'
    } else if v == 1 {
        '1'
    } else if v == 2 {
        '2'
    } else if v == 3 {
        '3'
    } else if v == 4 {
        '4'
    } else if v == 5 {
        '5'
    } else if v == 6 {
        '6'
    } else if v == 7 {
        '7'
    } else if v == 8 {
        '8'
    } else if v == 9 {
        '9'
    } else if v == 10 {
        'A'
    } else if v == 11 {
        'B'
    } else if v == 12 {
        'C'
    } else if v == 13 {
        'D'
    } else if v == 14 {
        'E'
    } else {
        'F'
    }
}

/// The lowercase hex digit for a value below sixteen.
pub open spec fn hex_digit_lower(v: nat) -> char {
    if v < 10 {
        hex_digit_upper(v)
    } else if v == 10 {
        'a'
    } else if v == 11 {
        'b'
    } else if v == 12 {
        'c'
    } else if v == 13 {
        'd'
    } else if v == 14 {
        'e'
    } else {
        'f'
    }
}

/// Uppercase hex of a byte sequence: two digits per byte, high digit first.
pub open spec fn hex_upper_of(bytes: Seq<u8>) -> Seq<char>
    decreases bytes.len(),
{
    if bytes.len() == 0 {
        Seq::empty()
    } else {
        seq![
            hex_digit_upper((bytes.first() / 16) as nat),
            hex_digit_upper((bytes.first() % 16) as nat),
        ] + hex_upper_of(bytes.drop_first())
    }
}

/// Lowercase hex of a byte sequence: the same digits as [`hex_upper_of`],
/// letters in lowercase.
pub open spec fn hex_lower_of(bytes: Seq<u8>) -> Seq<char>
    decreases bytes.len(),
{
    if bytes.len() == 0 {
        Seq::empty()
    } else {
        seq![
            hex_digit_lower((bytes.first() / 16) as nat),
            hex_digit_lower((bytes.first() % 16) as nat),
        ] + hex_lower_of(bytes.drop_first())
    }
}

/// The value of one hex digit character, either case; sixteen if the
/// character is no hex digit.
pub open spec fn hex_digit_val(c: char) -> nat {
    if c == '0' {
        0
    } else if c == '1' {
        1
    } else if c == '2' {
        2
    } else if c == '3' {
        3
    } else if c == '4' {
        4
    } else if c == '5' {
        5
    } else if c == '6' {
        6
    } else if c == '7' {
        7
    } else if c == '8' {
        8
    } else if c == '9' {
        9
    } else if c == 'A' || c == 'a' {
        10
    } else if c == 'B' || c == 'b' {
        11
    } else if c == 'C' || c == 'c' {
        12
    } else if c == 'D' || c == 'd' {
        13
    } else if c == 'E' || c == 'e' {
        14
    } else if c == 'F' || c == 'f' {
        15
    } else {
        16
    }
}

/// Decode hex digit characters back into bytes, one byte per pair of digits.
pub open spec fn hex_decode_chars(s: Seq<char>) -> Seq<u8>
    decreases s.len(),
{
    if s.len() < 2 {
        Seq::empty()
    } else {
        seq![(hex_digit_val(s[0]) * 16 + hex_digit_val(s[1])) as u8] + hex_decode_chars(s.skip(2))
    }
}

/// Hex rendering round-trip: decoding the hex of a byte sequence, in either
/// case, gives the byte sequence back.
pub proof fn lemma_hex_round_trip(bytes: Seq<u8>)
    ensures
        hex_decode_chars(hex_upper_of(bytes)) == bytes,
        hex_decode_chars(hex_lower_of(bytes)) == bytes,
    decreases bytes.len(),
{
    if bytes.len() == 0 {
        assert(hex_decode_chars(hex_upper_of(bytes)) =~= bytes);
        assert(hex_decode_chars(hex_lower_of(bytes)) =~= bytes);
    } else {
        let b = bytes.first();
        lemma_hex_round_trip(bytes.drop_first());
        assert(hex_digit_val(hex_digit_upper((b / 16) as nat)) == b / 16);
        assert(hex_digit_val(hex_digit_upper((b % 16) as nat)) == b % 16);
        assert(hex_digit_val(hex_digit_lower((b / 16) as nat)) == b / 16);
        assert(hex_digit_val(hex_digit_lower((b % 16) as nat)) == b % 16);
        assert(((b / 16) * 16 + b % 16) as u8 == b);
        assert(hex_upper_of(bytes).skip(2) =~= hex_upper_of(bytes.drop_first()));
        assert(hex_lower_of(bytes).skip(2) =~= hex_lower_of(bytes.drop_first()));
        assert(hex_decode_chars(hex_upper_of(bytes)) =~= bytes);
        assert(hex_decode_chars(hex_lower_of(bytes)) =~= bytes);
    }
}

/// Two hex characters per byte, in either case.
pub proof fn lemma_hex_len(bytes: Seq<u8>)
    ensures
        hex_upper_of(bytes).len() == 2 * bytes.len(),
        hex_lower_of(bytes).len() == 2 * bytes.len(),
    decreases bytes.len(),
{
    if bytes.len() > 0 {
        lemma_hex_len(bytes.drop_first());
    }
}

/// The two renderings carry the same digits: at every position the
/// lowercase character stands for the same value as the uppercase one.
pub proof fn lemma_hex_cases_agree(bytes: Seq<u8>)
    ensures
        hex_lower_of(bytes).len() == hex_upper_of(bytes).len(),
        forall|i: int|
            0 <= i < hex_upper_of(bytes).len() ==> hex_digit_val(
                #[trigger] hex_lower_of(bytes)[i],
            ) == hex_digit_val(hex_upper_of(bytes)[i]),
    decreases bytes.len(),
{
    lemma_hex_len(bytes);
    if bytes.len() > 0 {
        lemma_hex_cases_agree(bytes.drop_first());
        lemma_hex_len(bytes.drop_first());
        let u = hex_upper_of(bytes);
        let l = hex_lower_of(bytes);
        let b = bytes.first();
        assert(b / 16 < 16);
        assert(hex_digit_val(l[0]) == hex_digit_val(u[0]));
        assert(hex_digit_val(l[1]) == hex_digit_val(u[1]));
        assert forall|i: int| 2 <= i < u.len() implies hex_digit_val(l[i]) == hex_digit_val(
            u[i],
        ) by {
            assert(u[i] == hex_upper_of(bytes.drop_first())[i - 2]);
            assert(l[i] == hex_lower_of(bytes.drop_first())[i - 2]);
        }
    }
}

/// Relies on `hex::encode_upper`: encodes bytes as a string of uppercase hex
/// digits, two per byte, most significant digit first, with no separators.
#[verifier::external_body]
pub(crate) fn hex_encode_upper(bytes: &[u8]) -> (r: String)
    ensures
        r@ == hex_upper_of(bytes@),
{
    hex::encode_upper(bytes)
}

/// Relies on `hex::encode`: encodes bytes as a string of lowercase hex
/// digits, two per byte, most significant digit first, with no separators.
#[verifier::external_body]
pub(crate) fn hex_encode_lower(bytes: &[u8]) -> (r: String)
    ensures
        r@ == hex_lower_of(bytes@),
{
    hex::encode(bytes)
}

} // verus!
