//! The entity tag of stored bytes: their MD5 digest in lower-case hexadecimal, in double quotes.
use vstd::prelude::*;

use crate::hexcode::hex_encode;
use crate::hexcode::lower_hex;

verus! {

/// `s` between double quotes.
pub open spec fn quoted(s: Seq<char>) -> Seq<char> {
    seq!['"'] + s + seq!['"']
}

/// The entity tag of bytes whose MD5 digest is `md5`.
pub open spec fn md5_e_tag(md5: Seq<u8>) -> Seq<char> {
    quoted(lower_hex(md5))
}

/// Puts `s` between double quotes.
pub fn quote(s: &str) -> (r: String)
    ensures
        r@ == quoted(s@),
{
    let q = "\"";
    proof {
        reveal_strlit("\"");
    }
    let mut r = q.to_owned();
    r.append(s);
    r.append(q);
    r
}

/// Formats the entity tag of bytes whose MD5 digest is `md5`.
pub fn e_tag_of_md5(md5: &[u8]) -> (r: String)
    ensures
        r@ == md5_e_tag(md5@),
{
    let hex = hex_encode(md5);
    quote(hex.as_str())
}

} // verus!
