//! Hexadecimal text of byte strings, through the `hex` crate.
use vstd::prelude::*;

verus! {

/// The lower-case hexadecimal digits, by value.
pub open spec fn lower_hex_digits() -> Seq<char> {
    seq!['0', '1', '2', '3', '4', '5', '6', '7', '8', '9', 'a', 'b', 'c', 'd', 'e', 'f']
}

/// Two lower-case hexadecimal digits per byte, high nibble first.
pub open spec fn lower_hex(data: Seq<u8>) -> Seq<char>
    decreases data.len(),
{
    if data.len() == 0 {
        Seq::empty()
    } else {
        lower_hex(data.drop_last()) + seq![
            lower_hex_digits()[(data.last() / 16) as int],
            lower_hex_digits()[(data.last() % 16) as int],
        ]
    }
}

/// The value of a hexadecimal digit of either case.
pub open spec fn hex_value(c: char) -> Option<u8> {
    if '0' <= c && c <= '9' {
        Some((c as int - '0' as int) as u8)
    } else if 'a' <= c && c <= 'f' {
        Some((c as int - 'a' as int + 10) as u8)
    } else if 'A' <= c && c <= 'F' {
        Some((c as int - 'A' as int + 10) as u8)
    } else {
        None
    }
}

/// The bytes a string of hexadecimal digits spells, two digits per byte;
/// `None` when its length is odd or a character is no hexadecimal digit.
pub open spec fn hex_decoded(s: Seq<char>) -> Option<Seq<u8>>
    decreases s.len(),
{
    if s.len() == 0 {
        Some(Seq::empty())
    } else if s.len() == 1 {
        None
    } else {
        match (hex_decoded(s.drop_last().drop_last()), hex_value(s[s.len() - 2]), hex_value(
            s.last(),
        )) {
            (Some(front), Some(hi), Some(lo)) => Some(front.push((hi * 16 + lo) as u8)),
            _ => None,
        }
    }
}

/// `hex::encode`: lower-case hexadecimal text of the bytes.
#[verifier::external_body]
pub(crate) fn hex_encode(data: &[u8]) -> (r: String)
    ensures
        r@ == lower_hex(data@),
{
    hex::encode(data)
}

/// `hex::decode`, with its error dropped: `None` on odd length or a non-hexadecimal character.
#[verifier::external_body]
pub(crate) fn hex_decode(s: &str) -> (r: Option<Vec<u8>>)
    ensures
        r is Some == hex_decoded(s@) is Some,
        r is Some ==> r->0@ == hex_decoded(s@)->0,
{
    match hex::decode(s) {
        Ok(bytes) => Some(bytes),
        Err(_) => None,
    }
}

/// Decoding the hexadecimal text of bytes gives the bytes back.
pub proof fn lemma_hex_round_trip(data: Seq<u8>)
    ensures
        hex_decoded(lower_hex(data)) == Some(data),
    decreases data.len(),
{
    if data.len() > 0 {
        let front = data.drop_last();
        let text = lower_hex(data);
        lemma_hex_round_trip(front);
        assert(text.drop_last().drop_last() =~= lower_hex(front));
        let b = data.last();
        let hi = b / 16;
        let lo = b % 16;
        assert(hex_value(lower_hex_digits()[hi as int]) == Some(hi));
        assert(hex_value(lower_hex_digits()[lo as int]) == Some(lo));
        assert(front.push((hi * 16 + lo) as u8) =~= data);
    }
}

} // verus!
