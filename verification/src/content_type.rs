//! The media type of a stored object: sniffed from its first bytes with
//! `infer`, else guessed from its key's extension with `mime_guess`.
use vstd::prelude::*;

verus! {

/// The media type `infer` reads from the leading bytes, if it knows them.
pub uninterp spec fn inferred_mime(bytes: Seq<u8>) -> Option<Seq<char>>;

/// The first media type `mime_guess` guesses from a path's extension, if any.
pub uninterp spec fn guessed_mime(path: Seq<char>) -> Option<Seq<char>>;

/// The text of an optional string.
pub open spec fn opt_string_view(s: Option<String>) -> Option<Seq<char>> {
    match s {
        Some(s) => Some(s@),
        None => None,
    }
}

/// `infer::get`, keeping the media type of what it recognises.
#[verifier::external_body]
fn infer_mime_type(bytes: &[u8]) -> (r: Option<String>)
    ensures
        opt_string_view(r) == inferred_mime(bytes@),
{
    match infer::get(bytes) {
        Some(kind) => Some(kind.mime_type().to_owned()),
        None => None,
    }
}

/// `mime_guess::from_path(..).first()`, written out as text.
#[verifier::external_body]
fn guess_mime_from_path(path: &str) -> (r: Option<String>)
    ensures
        opt_string_view(r) == guessed_mime(path@),
{
    match mime_guess::from_path(path).first() {
        Some(mime) => Some(mime.to_string()),
        None => None,
    }
}

/// The media type of an object: what its leading bytes show, else what its key's extension suggests.
pub open spec fn spec_mime(path: Seq<char>, bytes: Seq<u8>) -> Option<Seq<char>> {
    match inferred_mime(bytes) {
        Some(m) => Some(m),
        None => guessed_mime(path),
    }
}

/// Finds the media type of an object from its key and its leading bytes; the
/// bytes win over the extension.
pub fn get_mime(path: &str, bytes: &[u8]) -> (r: Option<String>)
    ensures
        opt_string_view(r) == spec_mime(path@, bytes@),
{
    match infer_mime_type(bytes) {
        Some(m) => Some(m),
        None => guess_mime_from_path(path),
    }
}

/// The media type recorded for an object being written: the one the request
/// gives, else the one found from its key and its leading bytes.
pub fn object_mime(given: Option<String>, path: &str, leading: &[u8]) -> (r: Option<String>)
    ensures
        opt_string_view(r) == match given {
            Some(m) => Some(m@),
            None => spec_mime(path@, leading@),
        },
{
    match given {
        Some(m) => Some(m),
        None => get_mime(path, leading),
    }
}

} // verus!
