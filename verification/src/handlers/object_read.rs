//! `GetObject` and `HeadObject`: the checks on the request, the lookups, the
//! byte range and the headers of the answer.
use vstd::prelude::*;

use crate::entity::bucket;
use crate::entity::object;
use crate::entity::quoting::md5_e_tag;
use crate::entity::version;
use crate::entity::version_part;
use crate::errors::AppError;
use crate::reads::content_length;
use crate::reads::content_range;
use crate::reads::delete_marker_reply;
use crate::reads::ByteRange;
use crate::reads::ContentRange;
use crate::reads::DeleteMarkerReply;
use crate::requests::reject_unsupported;
use crate::requests::validate_owner;
use crate::versioning::version_lookup;
use crate::versioning::VersionLookup;

verus! {

/// One range of a `Range: bytes=` header.
#[derive(Debug, Clone, Copy, PartialEq, Eq)]
pub enum RangeSpec {
    /// `first-last`.
    FromTo(u64, u64),
    /// `first-`.
    From(u64),
    /// `-length`: the last `length` bytes.
    Suffix(u64),
}

/// What a `GetObject` or `HeadObject` request carries that the server reads.
#[derive(Debug, Clone)]
pub struct ObjectReadRequest {
    /// For each header the server does not implement (conditional requests,
    /// checksum mode, requester pays, customer keys), whether it was sent.
    pub unsupported: Vec<bool>,
    /// The ranges of the `Range` header, when one was sent.
    pub ranges: Option<Vec<RangeSpec>>,
    pub expected_bucket_owner: Option<String>,
    pub version_id: Option<u128>,
    pub part_number: Option<u16>,
}

/// The checks made before any lookup: an unimplemented header or a range
/// header with other than one range is `NotImplemented`, then the expected
/// owner; what passes names the version to look up.
pub open spec fn spec_read_precheck(req: ObjectReadRequest, owner: Seq<char>) -> Result<VersionLookup, AppError> {
    if (exists|i: int| 0 <= i < req.unsupported@.len() && req.unsupported@[i]) || (req.ranges matches Some(
        rs,
    ) && rs@.len() != 1) {
        Err(AppError::NotImplemented)
    } else if req.expected_bucket_owner matches Some(e) && e@ != owner {
        Err(AppError::AccessDenied)
    } else {
        Ok(
            match req.version_id {
                None => VersionLookup::Latest,
                Some(0) => VersionLookup::Null,
                Some(id) => VersionLookup::Exact(id),
            },
        )
    }
}

/// Checks a read request before the lookups.
pub fn read_precheck(req: &ObjectReadRequest, owner: &String) -> (r: Result<VersionLookup, AppError>)
    ensures
        r == spec_read_precheck(*req, owner@),
{
    let count_bad = match &req.ranges {
        Some(rs) => rs.len() != 1,
        None => false,
    };
    match reject_unsupported(&req.unsupported) {
        Err(e) => {
            return Err(e);
        },
        Ok(()) => {},
    }
    if count_bad {
        return Err(AppError::NotImplemented);
    }
    match validate_owner(&req.expected_bucket_owner, owner) {
        Err(e) => {
            return Err(e);
        },
        Ok(()) => {},
    }
    Ok(version_lookup(req.version_id))
}

/// The checks of a read pass: no unimplemented header, at most one range,
/// and the expected owner, if any, is the owner.
pub open spec fn read_checks_pass(req: ObjectReadRequest, owner: Seq<char>) -> bool {
    &&& forall|i: int| 0 <= i < req.unsupported@.len() ==> !req.unsupported@[i]
    &&& req.ranges matches Some(rs) ==> rs@.len() == 1
    &&& req.expected_bucket_owner matches Some(e) ==> e@ == owner
}

/// A read whose checks pass reads the version its id names: no id the
/// latest, the nil id the null version, any other id exactly that version;
/// two such reads that differ in their version ids read different versions.
/// A read whose checks fail reads nothing.
pub proof fn lemma_read_names_version(req: ObjectReadRequest, other: ObjectReadRequest, owner: Seq<char>, id: u128)
    ensures
        read_checks_pass(req, owner) && req.version_id is None ==> spec_read_precheck(req, owner) == Ok::<
            VersionLookup,
            AppError,
        >(VersionLookup::Latest),
        read_checks_pass(req, owner) && req.version_id == Some(0u128) ==> spec_read_precheck(req, owner)
            == Ok::<VersionLookup, AppError>(VersionLookup::Null),
        read_checks_pass(req, owner) && req.version_id == Some(id) && id != 0 ==> spec_read_precheck(
            req,
            owner,
        ) == Ok::<VersionLookup, AppError>(VersionLookup::Exact(id)),
        read_checks_pass(req, owner) && read_checks_pass(other, owner) && spec_read_precheck(req, owner)
            == spec_read_precheck(other, owner) ==> req.version_id == other.version_id,
        !read_checks_pass(req, owner) ==> spec_read_precheck(req, owner) is Err,
{
    if !read_checks_pass(req, owner) {
        if !(forall|i: int| 0 <= i < req.unsupported@.len() ==> !req.unsupported@[i]) {
            let i = choose|i: int| 0 <= i < req.unsupported@.len() && req.unsupported@[i];
            assert(exists|i: int| 0 <= i < req.unsupported@.len() && req.unsupported@[i]);
        }
    }
}

/// The bytes a range takes of `size` bytes (RFC 9110, section 14.1.2): a
/// range that starts at or past the end, an empty suffix or a range whose
/// last byte comes before its first is not satisfiable.
pub open spec fn spec_validate_range(spec: RangeSpec, size: u64) -> Option<ByteRange> {
    match spec {
        RangeSpec::FromTo(first, last) => if first <= last && first < size {
            Some(ByteRange { first, last: if last < size { last } else { (size - 1) as u64 } })
        } else {
            None
        },
        RangeSpec::From(first) => if first < size {
            Some(ByteRange { first, last: (size - 1) as u64 })
        } else {
            None
        },
        RangeSpec::Suffix(len) => if len > 0 && size > 0 {
            Some(
                ByteRange {
                    first: if len < size { (size - len) as u64 } else { 0 },
                    last: (size - 1) as u64,
                },
            )
        } else {
            None
        },
    }
}

/// What a `first-last` range resolves to, for every size: it is satisfiable
/// exactly when it starts inside the object and does not end before it
/// starts (so a single byte, `first == last`, is), and it then takes from
/// `first` to `last`, cut at the end of the object.
pub proof fn lemma_first_last_range(first: u64, last: u64, size: u64)
    ensures
        spec_validate_range(RangeSpec::FromTo(first, last), size) is Some <==> first <= last && first < size,
        first <= last && last < size ==> spec_validate_range(RangeSpec::FromTo(first, last), size) == Some(
            ByteRange { first, last },
        ),
        first <= last && first < size && size <= last ==> spec_validate_range(
            RangeSpec::FromTo(first, last),
            size,
        ) == Some(ByteRange { first, last: (size - 1) as u64 }),
{
}

/// A `first-` range is satisfiable exactly when it starts inside the object,
/// and then takes from `first` to the end.
pub proof fn lemma_open_range(first: u64, size: u64)
    ensures
        spec_validate_range(RangeSpec::From(first), size) is Some <==> first < size,
        first < size ==> spec_validate_range(RangeSpec::From(first), size) == Some(
            ByteRange { first, last: (size - 1) as u64 },
        ),
{
}

/// A suffix range is satisfiable exactly when it and the object are not
/// empty, and then takes the object's last `len` bytes, or all of them when
/// the object is shorter.
pub proof fn lemma_suffix_range(len: u64, size: u64)
    ensures
        spec_validate_range(RangeSpec::Suffix(len), size) is Some <==> len > 0 && size > 0,
        len > 0 && size > 0 ==> spec_validate_range(RangeSpec::Suffix(len), size)->0.last == size - 1,
        len > 0 && size > 0 ==> spec_validate_range(RangeSpec::Suffix(len), size)->0.last
            - spec_validate_range(RangeSpec::Suffix(len), size)->0.first + 1 == (if len < size {
            len as int
        } else {
            size as int
        }),
{
}

/// Whatever is taken lies inside the object and is not empty.
pub proof fn lemma_range_inside(spec: RangeSpec, size: u64)
    ensures
        spec_validate_range(spec, size) matches Some(rg) ==> rg.first <= rg.last < size,
{
}

/// Resolves a range against the size; an unsatisfiable one is `InvalidRange`.
pub fn validate_range(spec: RangeSpec, size: u64) -> (r: Result<ByteRange, AppError>)
    ensures
        r == match spec_validate_range(spec, size) {
            Some(rg) => Ok::<ByteRange, AppError>(rg),
            None => Err(AppError::InvalidRange),
        },
        r matches Ok(rg) ==> rg.first <= rg.last < size,
{
    match spec {
        RangeSpec::FromTo(first, last) => if first <= last && first < size {
            Ok(ByteRange { first, last: if last < size { last } else { size - 1 } })
        } else {
            Err(AppError::InvalidRange)
        },
        RangeSpec::From(first) => if first < size {
            Ok(ByteRange { first, last: size - 1 })
        } else {
            Err(AppError::InvalidRange)
        },
        RangeSpec::Suffix(len) => if len > 0 && size > 0 {
            Ok(ByteRange { first: if len < size { size - len } else { 0 }, last: size - 1 })
        } else {
            Err(AppError::InvalidRange)
        },
    }
}

/// The version a lookup found: no object is `NoSuchKey`, an object without
/// the version asked for is `NoSuchVersion`.
pub open spec fn spec_found_version(found: Option<(object::Model, Option<version::Model>)>) -> Result<
    version::Model,
    AppError,
> {
    match found {
        None => Err(AppError::NoSuchKey),
        Some((_, None)) => Err(AppError::NoSuchVersion),
        Some((_, Some(v))) => Ok(v),
    }
}

/// Picks the version out of a lookup's result.
pub fn found_version(found: Option<(object::Model, Option<version::Model>)>) -> (r: Result<
    version::Model,
    AppError,
>)
    ensures
        r == spec_found_version(found),
{
    match found {
        None => Err(AppError::NoSuchKey),
        Some((_, None)) => Err(AppError::NoSuchVersion),
        Some((_, Some(v))) => Ok(v),
    }
}

/// The headers of a read that found bytes, and what to stream.
#[derive(Debug, Clone)]
pub struct ObjectHead {
    /// The stored id of the version whose bytes are read.
    pub version_row: u128,
    /// The stored id of the part read, when one part was asked for.
    pub part_row: Option<u128>,
    /// The range to stream, when one was asked for.
    pub range: Option<ByteRange>,
    pub content_length: u64,
    pub content_range: Option<ContentRange>,
    pub e_tag: String,
    pub last_modified: i64,
    pub mp_parts_count: Option<u16>,
    pub version_id: Option<u128>,
}

/// The answer to a read.
#[derive(Debug, Clone)]
pub enum ObjectReadAnswer {
    /// The version read is a delete marker.
    DeleteMarker(DeleteMarkerReply),
    /// The bytes' headers.
    Found(ObjectHead),
}

/// A stored version that is not a delete marker has a size and an entity tag or MD5.
pub open spec fn version_complete(v: version::Model) -> bool {
    v.parts_count is Some ==> v.size is Some && (v.e_tag is Some || v.md5 is Some)
}

/// The size, entity tag and last change of what a read answers with: the
/// part's when a part was asked for, else the version's.
pub open spec fn read_target(v: version::Model, part: Option<version_part::Model>, part_number: Option<u16>) -> (
    u64,
    Seq<char>,
    i64,
) {
    match (part_number, part) {
        (Some(_), Some(p)) => (p.size as u64, md5_e_tag(p.md5@), p.created_at),
        _ => (
            v.size->0 as u64,
            v.spec_e_tag(),
            match v.updated_at {
                Some(t) => t,
                None => v.created_at,
            },
        ),
    }
}

/// The error a read ends in after its checks passed, if any, in the order the
/// handler meets them: no bucket, no object, no version; then, past a delete
/// marker, a ranged read of one part, a part that is not there, a range that
/// cannot be satisfied.
pub open spec fn spec_read_error(
    req: ObjectReadRequest,
    bucket: Option<bucket::Model>,
    found: Option<(object::Model, Option<version::Model>)>,
    part: Option<version_part::Model>,
) -> Option<AppError> {
    if bucket is None {
        Some(AppError::NoSuchBucket)
    } else if spec_found_version(found) is Err {
        Some(spec_found_version(found)->Err_0)
    } else if spec_found_version(found)->Ok_0.parts_count is None {
        None
    } else if req.part_number is Some && req.ranges is Some {
        Some(AppError::InternalError)
    } else if req.part_number is Some && part is None {
        Some(AppError::InvalidPart)
    } else if req.ranges matches Some(rs) && spec_validate_range(
        rs@[0],
        read_target(spec_found_version(found)->Ok_0, part, req.part_number).0,
    ) is None {
        Some(AppError::InvalidRange)
    } else {
        None
    }
}

/// Answers a read from the request (checked by `read_precheck`), the bucket
/// found, the object and version found, and the part found when one was asked for.
pub fn read_answer(
    req: &ObjectReadRequest,
    bucket: Option<bucket::Model>,
    found: Option<(object::Model, Option<version::Model>)>,
    part: Option<version_part::Model>,
) -> (r: Result<ObjectReadAnswer, AppError>)
    requires
        req.ranges matches Some(rs) ==> rs@.len() == 1,
        found matches Some((_, Some(v))) ==> version_complete(v),
    ensures
        r is Err <==> spec_read_error(*req, bucket, found, part) is Some,
        r matches Err(e) ==> Some(e) == spec_read_error(*req, bucket, found, part),
        r matches Ok(ObjectReadAnswer::DeleteMarker(m)) ==> {
            &&& spec_found_version(found)->Ok_0.parts_count is None
            &&& m == delete_marker_reply_of(req.version_id is Some, spec_found_version(found)->Ok_0)
        },
        r matches Ok(ObjectReadAnswer::Found(h)) ==> {
            let v = spec_found_version(found)->Ok_0;
            let (size, e_tag, last_modified) = read_target(v, part, req.part_number);
            let range = match req.ranges {
                Some(rs) => spec_validate_range(rs@[0], size),
                None => None,
            };
            &&& v.parts_count is Some
            &&& h.version_row == v.id
            &&& h.part_row == (if req.part_number is Some { Some(part->0.id) } else { None })
            &&& h.range == range
            &&& h.content_length == match range {
                Some(rg) => (rg.last - rg.first + 1) as u64,
                None => size,
            }
            &&& h.content_range == match range {
                Some(rg) => Some(
                    ContentRange { first_byte: rg.first, last_byte: rg.last, complete_length: size },
                ),
                None => None,
            }
            &&& h.e_tag@ == e_tag
            &&& h.last_modified == last_modified
            &&& h.mp_parts_count == (if v.parts_count->0 as u16 != 0 {
                Some(v.parts_count->0 as u16)
            } else {
                None
            })
            &&& h.version_id == match bucket->0.versioning {
                Some(_) => Some(v.spec_id()),
                None => None,
            }
        },
{
    let bucket = match bucket {
        Some(b) => b,
        None => {
            return Err(AppError::NoSuchBucket);
        },
    };
    let version = match found_version(found) {
        Ok(v) => v,
        Err(e) => {
            return Err(e);
        },
    };
    if version.parts_count.is_none() {
        return Ok(
            ObjectReadAnswer::DeleteMarker(
                delete_marker_reply(req.version_id.is_some(), version.last_modified()),
            ),
        );
    }
    let (part_row, size, e_tag, last_modified) = match req.part_number {
        Some(_) => {
            if req.ranges.is_some() {
                return Err(AppError::InternalError);
            }
            match &part {
                Some(p) => (Some(p.id), p.size(), p.e_tag(), p.last_modified()),
                None => {
                    return Err(AppError::InvalidPart);
                },
            }
        },
        None => (None, version.size(), version.e_tag(), version.last_modified()),
    };
    let range = match &req.ranges {
        Some(rs) => match validate_range(rs[0], size) {
            Ok(rg) => Some(rg),
            Err(e) => {
                return Err(e);
            },
        },
        None => None,
    };
    let version_id = match bucket.versioning {
        Some(_) => Some(version.id()),
        None => None,
    };
    Ok(
        ObjectReadAnswer::Found(
            ObjectHead {
                version_row: version.id,
                part_row,
                range,
                content_length: content_length(size, range),
                content_range: content_range(size, range),
                e_tag,
                last_modified,
                mp_parts_count: version.mp_parts_count(),
                version_id,
            },
        ),
    )
}

/// The answer when the version read is a delete marker.
pub open spec fn delete_marker_reply_of(version_named: bool, v: version::Model) -> DeleteMarkerReply {
    DeleteMarkerReply {
        status: if version_named {
            405u16
        } else {
            404u16
        },
        last_modified: if version_named {
            Some(
                match v.updated_at {
                    Some(t) => t,
                    None => v.created_at,
                },
            )
        } else {
            None
        },
        delete_marker: true,
    }
}

} // verus!
