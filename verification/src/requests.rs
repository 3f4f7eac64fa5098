//! Checks on request input: the expected bucket owner, tag sets and the part
//! list that completes a multipart upload.
use vstd::prelude::*;

use std::collections::HashSet;

use crate::checksum::md5_absorbed;
use crate::checksum::md5_finalize;
use crate::checksum::md5_of;
use crate::checksum::Md5Hasher;
use crate::entity::quoting::md5_e_tag;
use crate::errors::AppError;
use crate::hexcode::hex_decode;
use crate::hexcode::hex_decoded;
use crate::hexcode::lemma_hex_round_trip;
use crate::listing::views;
use crate::text::str_chars;

verus! {

broadcast use vstd::std_specs::hash::group_hash_axioms;

/// The most tags a bucket may carry.
pub const MAX_BUCKET_TAGS: usize = 50;

/// The most tags an object or an upload may carry.
pub const MAX_OBJECT_TAGS: usize = 10;

/// A request that names the bucket owner it expects is refused unless the owner is that one.
pub fn validate_owner(expected: &Option<String>, owner: &String) -> (r: Result<(), AppError>)
    ensures
        r == (if expected is Some && expected->0@ != owner@ {
            Err::<(), AppError>(AppError::AccessDenied)
        } else {
            Ok(())
        }),
{
    match expected {
        Some(left) => {
            if *left != *owner {
                Err(AppError::AccessDenied)
            } else {
                Ok(())
            }
        },
        None => Ok(()),
    }
}

/// No two entries are equal.
pub open spec fn all_distinct(s: Seq<Seq<char>>) -> bool {
    forall|i: int, j: int| 0 <= i < j < s.len() ==> s[i] != s[j]
}

/// A tag set is accepted when it has at most `max` tags and no key twice.
pub open spec fn tags_acceptable(keys: Seq<Seq<char>>, max: nat) -> bool {
    keys.len() <= max && all_distinct(keys)
}

/// Refuses a tag set with more than `max` tags or a key given twice.
pub fn validate_tag_keys(keys: &Vec<String>, max: usize) -> (r: Result<(), AppError>)
    ensures
        r == (if tags_acceptable(views(keys@), max as nat) {
            Ok::<(), AppError>(())
        } else {
            Err(AppError::InvalidTag)
        }),
        r is Ok ==> keys.len() <= max,
        r is Ok ==> forall|i: int, j: int| 0 <= i < j < keys.len() ==> keys@[i]@ != keys@[j]@,
        keys.len() <= max && (forall|i: int, j: int| 0 <= i < j < keys.len() ==> keys@[i]@ != keys@[j]@)
            ==> r is Ok,
{
    if keys.len() > max {
        return Err(AppError::InvalidTag);
    }
    let mut i: usize = 0;
    while i < keys.len()
        invariant
            i <= keys.len(),
            forall|a: int, b: int| 0 <= a < b < keys.len() && a < i ==> keys@[a]@ != keys@[b]@,
        decreases keys.len() - i,
    {
        let mut j: usize = i + 1;
        while j < keys.len()
            invariant
                i < keys.len(),
                i < j <= keys.len(),
                forall|a: int, b: int| 0 <= a < b < keys.len() && a < i ==> keys@[a]@ != keys@[b]@,
                forall|b: int| i < b < j ==> keys@[i as int]@ != keys@[b]@,
            decreases keys.len() - j,
        {
            if keys[i] == keys[j] {
                assert(views(keys@)[i as int] == views(keys@)[j as int]);
                return Err(AppError::InvalidTag);
            }
            j = j + 1;
        }
        i = i + 1;
    }
    Ok(())
}

/// A tag set is refused when any key, at any two positions, is given twice,
/// or when it has more than `max` tags; one with at most `max` tags, no two
/// of whose keys are equal, is accepted.
pub proof fn lemma_tag_sets(keys: Seq<Seq<char>>, max: nat, i: int, j: int)
    ensures
        0 <= i < j < keys.len() && keys[i] == keys[j] ==> !tags_acceptable(keys, max),
        keys.len() > max ==> !tags_acceptable(keys, max),
        keys.len() <= max && (forall|a: int, b: int| 0 <= a < b < keys.len() ==> keys[a] != keys[b])
            ==> tags_acceptable(keys, max),
{
}

/// A part named in the request that completes a multipart upload.
#[derive(Debug, Clone, PartialEq, Eq)]
pub struct CompletedPart {
    pub part_number: Option<u16>,
    pub e_tag: Option<String>,
}

/// What the stored parts are matched against: the part number and, when an
/// entity tag was given, the MD5 digest it spells.
#[derive(Debug, Clone, PartialEq, Eq)]
pub struct PartFilter {
    pub number: u16,
    pub md5: Option<Vec<u8>>,
}

/// An entity tag without its surrounding quotes: a leading quote is dropped,
/// then a trailing one; when there is no trailing quote the tag stays as given.
pub open spec fn strip_quotes(s: Seq<char>) -> Seq<char> {
    let a = if s.len() > 0 && s[0] == '"' {
        s.drop_first()
    } else {
        s
    };
    if a.len() > 0 && a.last() == '"' {
        a.drop_last()
    } else {
        s
    }
}

/// The MD5 digest an entity tag spells: sixteen bytes in hexadecimal, quotes stripped.
pub open spec fn e_tag_md5(e_tag: Seq<char>) -> Option<Seq<u8>> {
    match hex_decoded(strip_quotes(e_tag)) {
        Some(b) => if b.len() == 16 {
            Some(b)
        } else {
            None
        },
        None => None,
    }
}

/// Strips the quotes around an entity tag as `strip_quotes` says.
pub fn strip_e_tag_quotes(e_tag: &str) -> (r: String)
    ensures
        r@ == strip_quotes(e_tag@),
{
    let chars = str_chars(e_tag);
    let n = chars.len();
    let (from, a_len) = if n > 0 && chars[0] == '"' {
        (1usize, n - 1)
    } else {
        (0usize, n)
    };
    proof {
        let a = if e_tag@.len() > 0 && e_tag@[0] == '"' {
            e_tag@.drop_first()
        } else {
            e_tag@
        };
        assert(a =~= e_tag@.subrange(from as int, n as int));
    }
    if a_len > 0 && chars[from + a_len - 1] == '"' {
        let r = e_tag.substring_char(from, from + a_len - 1);
        assert(r@ =~= e_tag@.subrange(from as int, n as int).drop_last());
        r.to_owned()
    } else {
        e_tag.to_owned()
    }
}

/// The MD5 digest an entity tag of a part spells, if it spells one.
pub fn parse_e_tag_md5(e_tag: &str) -> (r: Option<Vec<u8>>)
    ensures
        r is Some == e_tag_md5(e_tag@) is Some,
        r is Some ==> r->0@ == e_tag_md5(e_tag@)->0,
{
    let stripped = strip_e_tag_quotes(e_tag);
    match hex_decode(stripped.as_str()) {
        Some(bytes) => {
            if bytes.len() == 16 {
                Some(bytes)
            } else {
                None
            }
        },
        None => None,
    }
}

/// The part list of a completion request is accepted when every part has a
/// number, no number comes twice and every entity tag given spells an MD5 digest.
pub open spec fn parts_acceptable(parts: Seq<CompletedPart>) -> bool {
    &&& forall|i: int| 0 <= i < parts.len() ==> (#[trigger] parts[i]).part_number is Some
    &&& forall|i: int, j: int|
        0 <= i < j < parts.len() ==> (#[trigger] parts[i]).part_number != (#[trigger] parts[j]).part_number
    &&& forall|i: int|
        0 <= i < parts.len() ==> ((#[trigger] parts[i]).e_tag is Some ==> e_tag_md5(
            parts[i].e_tag->0@,
        ) is Some)
}

/// The filter owed for an accepted part.
pub open spec fn filter_of(f: PartFilter, p: CompletedPart) -> bool {
    &&& Some(f.number) == p.part_number
    &&& f.md5 is Some == p.e_tag is Some
    &&& f.md5 is Some ==> f.md5->0@ == e_tag_md5(p.e_tag->0@)->0
}

/// Reads the part list of a request that completes a multipart upload into
/// the filters its stored parts must meet; a part without a number, a number
/// given twice or an entity tag that spells no MD5 digest is an internal error.
pub fn parse_completed_parts(parts: &Vec<CompletedPart>) -> (r: Result<Vec<PartFilter>, AppError>)
    ensures
        r is Ok == parts_acceptable(parts@),
        r is Err ==> r == Err::<Vec<PartFilter>, AppError>(AppError::InternalError),
        r matches Ok(filters) ==> filters@.len() == parts.len() && forall|i: int|
            0 <= i < parts.len() ==> filter_of(#[trigger] filters@[i], parts@[i]),
{
    let mut numbers: HashSet<u16> = HashSet::new();
    let mut filters: Vec<PartFilter> = Vec::new();
    let mut i: usize = 0;
    while i < parts.len()
        invariant
            i <= parts.len(),
            filters@.len() == i,
            forall|k: int| 0 <= k < i ==> filter_of(#[trigger] filters@[k], parts@[k]),
            parts_acceptable(parts@.take(i as int)),
            forall|n: u16| numbers@.contains(n) <==> exists|k: int| 0 <= k < i && parts@[k].part_number == Some(n),
        decreases parts.len() - i,
    {
        let part = &parts[i];
        let number = match part.part_number {
            Some(n) => n,
            None => {
                assert(!parts_acceptable(parts@)) by {
                    assert(parts@[i as int].part_number is None);
                }
                return Err(AppError::InternalError);
            },
        };
        if !numbers.insert(number) {
            assert(!parts_acceptable(parts@)) by {
                let k = choose|k: int| 0 <= k < i && parts@[k].part_number == Some(number);
                assert(parts@[k].part_number == parts@[i as int].part_number);
            }
            return Err(AppError::InternalError);
        }
        let md5 = match &part.e_tag {
            Some(e_tag) => {
                match parse_e_tag_md5(e_tag.as_str()) {
                    Some(md5) => Some(md5),
                    None => {
                        assert(!parts_acceptable(parts@)) by {
                            assert(parts@[i as int].e_tag is Some);
                        }
                        return Err(AppError::InternalError);
                    },
                }
            },
            None => None,
        };
        filters.push(PartFilter { number, md5 });
        proof {
            let t = parts@.take(i + 1);
            assert(t.drop_last() =~= parts@.take(i as int));
            assert forall|a: int, b: int| 0 <= a < b < t.len() implies (#[trigger] t[a]).part_number
                != (#[trigger] t[b]).part_number by {
                if b == i {
                    if t[a].part_number == t[b].part_number {
                        assert(numbers@.contains(number));
                    }
                } else {
                    assert(parts@.take(i as int)[a] == t[a]);
                    assert(parts@.take(i as int)[b] == t[b]);
                }
            }
            assert forall|a: int| 0 <= a < t.len() implies (#[trigger] t[a]).part_number is Some by {
                if a < i {
                    assert(parts@.take(i as int)[a] == t[a]);
                }
            }
            assert forall|a: int| 0 <= a < t.len() implies ((#[trigger] t[a]).e_tag is Some ==> e_tag_md5(
                t[a].e_tag->0@,
            ) is Some) by {
                if a < i {
                    assert(parts@.take(i as int)[a] == t[a]);
                }
            }
        }
        i = i + 1;
    }
    assert(parts@.take(parts.len() as int) =~= parts@);
    Ok(filters)
}

/// The entity tag a part is handed out with spells its MD5 digest: completing
/// an upload with the entity tags its parts were answered with names those parts.
pub proof fn lemma_part_e_tag_round_trip(md5: Seq<u8>)
    requires
        md5.len() == 16,
    ensures
        e_tag_md5(md5_e_tag(md5)) == Some(md5),
{
    let hex = crate::hexcode::lower_hex(md5);
    let t = md5_e_tag(md5);
    assert(t[0] == '"');
    assert(t.drop_first() =~= hex + seq!['"']);
    assert((hex + seq!['"']).drop_last() =~= hex);
    lemma_hex_round_trip(md5);
}

/// A request that uses a feature the server does not implement is answered
/// with `NotImplemented`; `present` tells, per such feature, whether it was used.
pub fn reject_unsupported(present: &Vec<bool>) -> (r: Result<(), AppError>)
    ensures
        r == (if exists|i: int| 0 <= i < present.len() && present@[i] {
            Err::<(), AppError>(AppError::NotImplemented)
        } else {
            Ok(())
        }),
{
    let mut i: usize = 0;
    while i < present.len()
        invariant
            i <= present.len(),
            forall|k: int| 0 <= k < i ==> !present@[k],
        decreases present.len() - i,
    {
        if present[i] {
            return Err(AppError::NotImplemented);
        }
        i = i + 1;
    }
    Ok(())
}

/// Whether two byte strings are equal.
pub fn bytes_equal(a: &[u8], b: &[u8]) -> (r: bool)
    ensures
        r == (a@ == b@),
{
    if a.len() != b.len() {
        return false;
    }
    let mut i: usize = 0;
    while i < a.len()
        invariant
            i <= a.len(),
            a.len() == b.len(),
            a@.take(i as int) == b@.take(i as int),
        decreases a.len() - i,
    {
        if a[i] != b[i] {
            assert(a@[i as int] != b@[i as int]);
            return false;
        }
        assert(a@.take(i + 1) =~= a@.take(i as int).push(a@[i as int]));
        assert(b@.take(i + 1) =~= b@.take(i as int).push(b@[i as int]));
        i = i + 1;
    }
    assert(a@.take(a.len() as int) =~= a@);
    assert(b@.take(b.len() as int) =~= b@);
    true
}

/// Once a body with a `Content-MD5` header has gone through the hasher, a
/// digest other than the one the header gives is answered with `BadDigest`.
pub fn check_content_md5(expected: &[u8], body: Md5Hasher) -> (r: Result<(), AppError>)
    ensures
        r == (if md5_of(md5_absorbed(body)) == expected@ {
            Ok::<(), AppError>(())
        } else {
            Err(AppError::BadDigest)
        }),
{
    let digest = md5_finalize(body);
    if bytes_equal(expected, digest.as_slice()) {
        Ok(())
    } else {
        Err(AppError::BadDigest)
    }
}

} // verus!
