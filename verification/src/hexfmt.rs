use vstd::prelude::*;

verus! {

/// The sixteen lowercase hex digits, in value order.
pub open spec fn hex_digits() -> Seq<char> {
    seq!['0', '1', '2', '3', '4', '5', '6', '7', '8', '9', 'a', 'b', 'c', 'd', 'e', 'f']
}

/// The lowercase hex text of a byte sequence: two digits per byte, high
/// nibble first.
pub open spec fn hex_encoding(b: Seq<u8>) -> Seq<char>
    decreases b.len(),
{
    if b.len() == 0 {
        Seq::empty()
    } else {
        seq![hex_digits()[(b[0] / 16) as int], hex_digits()[(b[0] % 16) as int]] + hex_encoding(
            b.drop_first(),
        )
    }
}

/// A digit of either case.
pub open spec fn is_hex_digit(c: char) -> bool {
    ||| (48 <= c as u32 && c as u32 <= 57)
    ||| (97 <= c as u32 && c as u32 <= 102)
    ||| (65 <= c as u32 && c as u32 <= 70)
}

/// The value of one hex digit.
pub open spec fn hex_digit_val(c: char) -> u8 {
    if 48 <= c as u32 && c as u32 <= 57 {
        (c as u32 - 48) as u8
    } else if 97 <= c as u32 && c as u32 <= 102 {
        (c as u32 - 87) as u8
    } else {
        (c as u32 - 55) as u8
    }
}

/// Text that decodes as hex: an even number of characters, every one a
/// digit of either case.
pub open spec fn is_hex_seq(s: Seq<char>) -> bool {
    s.len() % 2 == 0 && forall|i: int| 0 <= i < s.len() ==> is_hex_digit(#[trigger] s[i])
}

/// The bytes a hex text stands for, two digits per byte.
pub open spec fn hex_decoded(s: Seq<char>) -> Seq<u8>
    decreases s.len(),
{
    if s.len() < 2 {
        Seq::empty()
    } else {
        seq![((hex_digit_val(s[0]) * 16 + hex_digit_val(s[1])) as u8)] + hex_decoded(s.skip(2))
    }
}

/// Each nibble maps to a digit that maps back to it.
proof fn lemma_hex_digit(v: u8)
    requires
        v < 16,
    ensures
        is_hex_digit(hex_digits()[v as int]),
        hex_digit_val(hex_digits()[v as int]) == v,
{
}

/// Decoding inverts encoding: the hex text of any byte sequence is
/// well-formed hex, twice as long, and decodes to the bytes it came from.
pub proof fn lemma_hex_round_trip(b: Seq<u8>)
    ensures
        hex_encoding(b).len() == 2 * b.len(),
        is_hex_seq(hex_encoding(b)),
        hex_decoded(hex_encoding(b)) == b,
    decreases b.len(),
{
    if b.len() == 0 {
        assert(hex_decoded(hex_encoding(b)) =~= b);
    } else {
        let s = hex_encoding(b);
        let rest = hex_encoding(b.drop_first());
        lemma_hex_round_trip(b.drop_first());
        lemma_hex_digit(b[0] / 16);
        lemma_hex_digit(b[0] % 16);
        assert(s.skip(2) =~= rest);
        assert forall|i: int| 0 <= i < s.len() implies is_hex_digit(s[i]) by {
            if i >= 2 {
                assert(s[i] == rest[i - 2]);
            }
        }
        assert(hex_decoded(s)[0] == b[0]);
        assert(hex_decoded(s) =~= b);
    }
}

/// Relies on hex::encode: lowercase output, two digits per byte, high
/// nibble first.
#[verifier::external_body]
pub(crate) fn hex_encode(b: &[u8]) -> (r: String)
    ensures
        r@ == hex_encoding(b@),
{
    hex::encode(b)
}

/// Relies on hex::decode: succeeds exactly on an even number of hex
/// digits of either case, and pairs them into bytes, high nibble first.
#[verifier::external_body]
pub(crate) fn hex_decode(s: &str) -> (r: Option<Vec<u8>>)
    ensures
        r is Some <==> is_hex_seq(s@),
        r matches Some(b) ==> b@ == hex_decoded(s@),
{
    hex::decode(s).ok()
}

} // verus!
