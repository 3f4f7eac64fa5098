//! `CompleteMultipartUpload`: the checks, the part list, the lookups, what the
//! new version records, and the answer once it is written.
use vstd::prelude::*;

use crate::entity::bucket;
use crate::entity::upload;
use crate::entity::upload_part;
use crate::entity::version;
use crate::errors::AppError;
use crate::multipart::combine_upload_parts;
use crate::multipart::combined_matches;
use crate::multipart::crcs_well_sized;
use crate::multipart::layout_of;
use crate::multipart::total_size;
use crate::multipart::CombinedParts;
use crate::multipart::PartLayout;
use crate::requests::filter_of;
use crate::requests::parse_completed_parts;
use crate::requests::parts_acceptable;
use crate::requests::reject_unsupported;
use crate::requests::validate_owner;
use crate::requests::CompletedPart;
use crate::requests::PartFilter;
use crate::versioning::reported_version_id;
use crate::handlers::listings::spec_request_precheck;

verus! {

broadcast use vstd::std_specs::vec::axiom_spec_into_iter;

/// What a `CompleteMultipartUpload` request carries that the server reads.
#[derive(Debug, Clone)]
pub struct CompleteRequest {
    /// For each header the server does not implement (conditions, checksums,
    /// object size, requester pays, customer keys), whether it was sent.
    pub unsupported: Vec<bool>,
    pub expected_bucket_owner: Option<String>,
    pub parts: Vec<CompletedPart>,
}

/// The checks before the lookups: an unimplemented header is
/// `NotImplemented`, then the expected owner, then the part list.
pub fn complete_precheck(req: &CompleteRequest, owner: &String) -> (r: Result<Vec<PartFilter>, AppError>)
    ensures
        spec_request_precheck(req.unsupported@, req.expected_bucket_owner, owner@) matches Err(e) ==> r
            == Err::<Vec<PartFilter>, AppError>(e),
        spec_request_precheck(req.unsupported@, req.expected_bucket_owner, owner@) is Ok ==> {
            &&& r is Ok == parts_acceptable(req.parts@)
            &&& r is Err ==> r == Err::<Vec<PartFilter>, AppError>(AppError::InternalError)
            &&& r matches Ok(filters) ==> filters@.len() == req.parts.len() && forall|i: int|
                0 <= i < req.parts.len() ==> filter_of(#[trigger] filters@[i], req.parts@[i])
        },
{
    match reject_unsupported(&req.unsupported) {
        Err(e) => {
            return Err(e);
        },
        Ok(()) => {},
    }
    match validate_owner(&req.expected_bucket_owner, owner) {
        Err(e) => {
            return Err(e);
        },
        Ok(()) => {},
    }
    parse_completed_parts(&req.parts)
}

/// Every stored part matched a filter.
pub open spec fn all_found(matched: Seq<Option<upload_part::Model>>) -> bool {
    forall|i: int| 0 <= i < matched.len() ==> (#[trigger] matched[i]) is Some
}

/// The parts matched, in order.
pub open spec fn found_parts(matched: Seq<Option<upload_part::Model>>) -> Seq<upload_part::Model> {
    matched.map_values(|p: Option<upload_part::Model>| p->0)
}

/// What completing writes: the new version of `key` in the bucket, written
/// with the bucket's versioning (off when never set), and its parts laid out.
#[derive(Debug)]
pub struct CompletePlan {
    pub bucket_id: u128,
    pub upload_id: u128,
    pub key: String,
    pub versioning: bool,
    pub mime: Option<String>,
    pub combined: CombinedParts,
    pub layout: Vec<PartLayout>,
}

/// Decides what completing writes, from the bucket and upload found and the
/// stored part each filter matched: no bucket is `NoSuchBucket`, no upload
/// `NoSuchUpload`, a filter no stored part meets `InvalidPart`.
pub fn complete_plan(
    found: Option<(bucket::Model, Option<upload::Model>)>,
    matched: Vec<Option<upload_part::Model>>,
) -> (r: Result<CompletePlan, AppError>)
    requires
        matched.len() <= u16::MAX,
        all_found(matched@) ==> total_size(found_parts(matched@)) <= u64::MAX && crcs_well_sized(
            found_parts(matched@),
        ),
    ensures
        found is None ==> r == Err::<CompletePlan, AppError>(AppError::NoSuchBucket),
        found matches Some((_, None)) ==> r == Err::<CompletePlan, AppError>(AppError::NoSuchUpload),
        found matches Some((_, Some(_))) ==> (r is Ok <==> all_found(matched@)),
        found matches Some((_, Some(_))) && !all_found(matched@) ==> r == Err::<CompletePlan, AppError>(
            AppError::InvalidPart,
        ),
        r matches Ok(plan) ==> found matches Some((b, Some(u))) && {
            let parts = found_parts(matched@);
            &&& plan.bucket_id == b.id
            &&& plan.upload_id == u.id
            &&& plan.key@ == u.key@
            &&& plan.versioning == (b.versioning == Some(true))
            &&& plan.mime.is_some() == u.mime.is_some()
            &&& plan.mime is Some ==> plan.mime->0@ == u.mime->0@
            &&& combined_matches(plan.combined, parts)
            &&& plan.layout@.len() == parts.len()
            &&& forall|i: int|
                0 <= i < parts.len() ==> {
                    let (number, start, end) = layout_of(parts, i);
                    &&& (#[trigger] plan.layout@[i]).number == number
                    &&& plan.layout@[i].start == start
                    &&& plan.layout@[i].end == end
                }
        },
{
    let (bucket, upload) = match found {
        None => {
            return Err(AppError::NoSuchBucket);
        },
        Some((b, None)) => {
            return Err(AppError::NoSuchUpload);
        },
        Some((b, Some(u))) => (b, u),
    };
    let ghost all = matched@;
    let mut parts: Vec<upload_part::Model> = Vec::new();
    for p in it: matched.into_iter()
        invariant
            it.seq() == all,
            found matches Some((_, Some(_))),
            parts@.len() == it.index(),
            forall|k: int| 0 <= k < it.index() ==> (#[trigger] all[k]) is Some && parts@[k] == all[k]->0,
    {
        match p {
            Some(part) => {
                parts.push(part);
            },
            None => {
                assert(!all_found(all));
                return Err(AppError::InvalidPart);
            },
        }
    }
    assert(parts@ =~= found_parts(all));
    assert(all_found(all));
    let (combined, layout) = combine_upload_parts(&parts);
    let versioning = match bucket.versioning {
        Some(v) => v,
        None => false,
    };
    let mime = match &upload.mime {
        Some(m) => Some(m.clone()),
        None => None,
    };
    Ok(
        CompletePlan {
            bucket_id: bucket.id,
            upload_id: upload.id,
            key: upload.key.clone(),
            versioning,
            mime,
            combined,
            layout,
        },
    )
}

/// What `CompleteMultipartUpload` answers once the version is written.
#[derive(Debug, Clone)]
pub struct CompleteAnswer {
    pub version_id: Option<u128>,
    pub bucket: String,
    pub e_tag: String,
    pub key: String,
}

/// Answers once the version is written and the upload removed: an upload that
/// was gone by then is `NoSuchUpload`; otherwise the bucket, key, the
/// version's entity tag, and its id when the bucket ever had versioning.
pub fn complete_answer(
    bucket: &bucket::Model,
    version: &version::Model,
    key: &String,
    upload_removed: bool,
) -> (r: Result<CompleteAnswer, AppError>)
    requires
        version.e_tag is Some || version.md5 is Some,
    ensures
        !upload_removed ==> r == Err::<CompleteAnswer, AppError>(AppError::NoSuchUpload),
        upload_removed ==> (r matches Ok(a) && {
            &&& a.version_id == match bucket.versioning {
                Some(_) => Some(version.spec_id()),
                None => None,
            }
            &&& a.bucket@ == bucket.name@
            &&& a.e_tag@ == version.spec_e_tag()
            &&& a.key@ == key@
        }),
{
    if !upload_removed {
        return Err(AppError::NoSuchUpload);
    }
    Ok(
        CompleteAnswer {
            version_id: reported_version_id(bucket.versioning, version),
            bucket: bucket.name.clone(),
            e_tag: version.e_tag(),
            key: key.clone(),
        },
    )
}

} // verus!
