//! Versioning decisions: the status a bucket reports and takes, which version
//! a request names, when a version row is written over, and what deleting an
//! object does.
use vstd::prelude::*;

use crate::entity::bucket;
use crate::entity::object;
use crate::entity::version;
use crate::errors::AppError;

verus! {

/// Whether versioning is on for a bucket, as S3 reports it.
#[derive(Debug, Clone, Copy, PartialEq, Eq)]
pub enum BucketVersioningStatus {
    Enabled,
    Suspended,
}

/// Whether deleting needs multi-factor authentication, as S3 reports it.
#[derive(Debug, Clone, Copy, PartialEq, Eq)]
pub enum MfaDeleteStatus {
    Enabled,
    Disabled,
}

/// The status reported for a stored versioning flag.
pub open spec fn status_of_flag(versioning: Option<bool>) -> Option<BucketVersioningStatus> {
    match versioning {
        Some(true) => Some(BucketVersioningStatus::Enabled),
        Some(false) => Some(BucketVersioningStatus::Suspended),
        None => None,
    }
}

/// The versioning flag stored for a requested status.
pub open spec fn flag_of_status(status: Option<BucketVersioningStatus>) -> Option<bool> {
    match status {
        Some(BucketVersioningStatus::Enabled) => Some(true),
        Some(BucketVersioningStatus::Suspended) => Some(false),
        None => None,
    }
}

/// The multi-factor delete status reported for a stored flag.
pub open spec fn mfa_status_of_flag(mfa_delete: Option<bool>) -> Option<MfaDeleteStatus> {
    match mfa_delete {
        Some(true) => Some(MfaDeleteStatus::Enabled),
        Some(false) => Some(MfaDeleteStatus::Disabled),
        None => None,
    }
}

/// The multi-factor delete flag stored for a requested status that is not enabled.
pub open spec fn mfa_flag_of(mfa_delete: Option<MfaDeleteStatus>) -> Option<bool> {
    match mfa_delete {
        Some(_) => Some(false),
        None => None,
    }
}

/// The versioning status of a bucket: none until versioning was ever set,
/// then enabled or suspended.
pub fn versioning_status(versioning: Option<bool>) -> (r: Option<BucketVersioningStatus>)
    ensures
        r == status_of_flag(versioning),
{
    match versioning {
        Some(v) => Some(
            if v {
                BucketVersioningStatus::Enabled
            } else {
                BucketVersioningStatus::Suspended
            },
        ),
        None => None,
    }
}

/// The multi-factor delete status of a bucket, when it was ever set.
pub fn mfa_delete_status(mfa_delete: Option<bool>) -> (r: Option<MfaDeleteStatus>)
    ensures
        r == mfa_status_of_flag(mfa_delete),
{
    match mfa_delete {
        Some(m) => Some(
            if m {
                MfaDeleteStatus::Enabled
            } else {
                MfaDeleteStatus::Disabled
            },
        ),
        None => None,
    }
}

/// The flags a `PutBucketVersioning` request stores: multi-factor delete
/// and versioning, each when given.
#[derive(Debug, Clone, Copy, PartialEq, Eq)]
pub struct VersioningUpdate {
    pub mfa_delete: Option<bool>,
    pub versioning: Option<bool>,
}

/// Reads a `PutBucketVersioning` request; turning multi-factor delete on is not implemented.
pub fn versioning_update(mfa_delete: Option<MfaDeleteStatus>, status: Option<
    BucketVersioningStatus,
>) -> (r: Result<VersioningUpdate, AppError>)
    ensures
        mfa_delete == Some(MfaDeleteStatus::Enabled) ==> r == Err::<VersioningUpdate, AppError>(
            AppError::NotImplemented,
        ),
        mfa_delete != Some(MfaDeleteStatus::Enabled) ==> r == Ok::<VersioningUpdate, AppError>(
            VersioningUpdate { mfa_delete: mfa_flag_of(mfa_delete), versioning: flag_of_status(status) },
        ),
{
    match mfa_delete {
        Some(MfaDeleteStatus::Enabled) => {
            return Err(AppError::NotImplemented);
        },
        _ => {},
    }
    let mfa = match mfa_delete {
        Some(m) => Some(
            match m {
                MfaDeleteStatus::Enabled => true,
                MfaDeleteStatus::Disabled => false,
            },
        ),
        None => None,
    };
    let versioning = match status {
        Some(s) => Some(
            match s {
                BucketVersioningStatus::Enabled => true,
                BucketVersioningStatus::Suspended => false,
            },
        ),
        None => None,
    };
    Ok(VersioningUpdate { mfa_delete: mfa, versioning })
}

/// What a bucket reports of its versioning after an accepted
/// `PutBucketVersioning` is what the request asked for.
pub proof fn lemma_versioning_round_trip(
    mfa_delete: Option<MfaDeleteStatus>,
    status: Option<BucketVersioningStatus>,
)
    requires
        mfa_delete != Some(MfaDeleteStatus::Enabled),
    ensures
        status_of_flag(flag_of_status(status)) == status,
        mfa_status_of_flag(mfa_flag_of(mfa_delete)) == mfa_delete,
{
}

/// The version a request names.
#[derive(Debug, Clone, Copy, PartialEq, Eq)]
pub enum VersionLookup {
    /// No version id was given: the latest version.
    Latest,
    /// The nil version id was given: the version written while versioning was off.
    Null,
    /// That version.
    Exact(u128),
}

/// The version a request's optional version id names; the nil id names the
/// version written while versioning was off.
pub fn version_lookup(version_id: Option<u128>) -> (r: VersionLookup)
    ensures
        r == match version_id {
            None => VersionLookup::Latest,
            Some(0) => VersionLookup::Null,
            Some(id) => VersionLookup::Exact(id),
        },
        r == version_lookup_of(version_id),
{
    match version_id {
        None => VersionLookup::Latest,
        Some(id) => {
            if id == 0 {
                VersionLookup::Null
            } else {
                VersionLookup::Exact(id)
            }
        },
    }
}

/// The version row a new write reuses: only when versioning is off for the
/// bucket and the latest version was itself written with versioning off.
pub open spec fn spec_reusable_version_id(versioning: bool, latest: version::Model) -> Option<u128> {
    if !versioning && !latest.versioning {
        Some(latest.id)
    } else {
        None
    }
}

/// The version row a new write of an object reuses, if any.
pub fn reusable_version_id(versioning: bool, latest: &version::Model) -> (r: Option<u128>)
    ensures
        r == spec_reusable_version_id(versioning, *latest),
        versioning ==> r is None,
        latest.versioning ==> r is None,
        !versioning && !latest.versioning ==> r == Some(latest.id),
{
    if !versioning && !latest.versioning {
        Some(latest.id)
    } else {
        None
    }
}

/// Deleting a version the object points to as its latest makes the object
/// point to the version before it.
pub fn deletes_latest(object: &object::Model, version: &version::Model) -> (r: bool)
    ensures
        r == (object.version_id == version.id),
{
    object.version_id == version.id
}

/// What a `DeleteObject` request does.
#[derive(Debug, Clone, Copy, PartialEq, Eq)]
pub enum DeleteAction {
    /// Delete that version (the nil id names the null version) of the object.
    DeleteVersion(u128),
    /// Put a delete marker on top of the object's versions.
    PlaceDeleteMarker { versioning: bool },
    /// Delete the object outright, checking the version id given, if any.
    DeleteObject { version_id: Option<u128> },
}

/// Chooses what a `DeleteObject` request does from its version id and the
/// bucket's versioning: a bucket that never had versioning loses the object.
pub fn delete_action(version_id: Option<u128>, bucket_versioning: Option<bool>) -> (r: DeleteAction)
    ensures
        r == match (version_id, bucket_versioning) {
            (Some(id), Some(_)) => DeleteAction::DeleteVersion(id),
            (None, Some(v)) => DeleteAction::PlaceDeleteMarker { versioning: v },
            (id, None) => DeleteAction::DeleteObject { version_id: id },
        },
{
    match (version_id, bucket_versioning) {
        (Some(id), Some(_)) => DeleteAction::DeleteVersion(id),
        (None, Some(v)) => DeleteAction::PlaceDeleteMarker { versioning: v },
        (id, None) => DeleteAction::DeleteObject { version_id: id },
    }
}

/// After an object was deleted outright, a version id that names neither the
/// null version nor the object's latest version is answered with `NoSuchVersion`.
pub fn check_deleted_version(version_id: Option<u128>, object: &object::Model) -> (r: Result<
    (),
    AppError,
>)
    ensures
        r == (if version_id matches Some(id) && id != 0 && id != object.version_id {
            Err::<(), AppError>(AppError::NoSuchVersion)
        } else {
            Ok(())
        }),
{
    match version_id {
        Some(id) => {
            if id != 0 && id != object.version_id {
                Err(AppError::NoSuchVersion)
            } else {
                Ok(())
            }
        },
        None => Ok(()),
    }
}

/// The answer to `DeleteObject`: whether a delete marker is involved and the version id reported.
#[derive(Debug, Clone, Copy, PartialEq, Eq)]
pub struct DeleteReply {
    pub delete_marker: bool,
    pub version_id: Option<u128>,
}

/// The answer when a version was deleted: whether that version was a delete marker.
pub fn reply_version_deleted(deleted: &version::Model) -> (r: DeleteReply)
    ensures
        r == (DeleteReply { delete_marker: deleted.is_delete_marker(), version_id: None }),
{
    DeleteReply { delete_marker: deleted.parts_count.is_none(), version_id: None }
}

/// The answer when a delete marker was placed: the marker's version id.
pub fn reply_marker_placed(marker: &version::Model) -> (r: DeleteReply)
    ensures
        r == (DeleteReply { delete_marker: true, version_id: Some(marker.spec_id()) }),
{
    DeleteReply { delete_marker: true, version_id: Some(marker.id()) }
}

/// The version id reported in a reply: present once the bucket ever had versioning.
pub fn reported_version_id(bucket_versioning: Option<bool>, version: &version::Model) -> (r: Option<
    u128,
>)
    ensures
        r == match bucket_versioning {
            Some(_) => Some(version.spec_id()),
            None => None::<u128>,
        },
{
    match bucket_versioning {
        Some(_) => Some(version.id()),
        None => None,
    }
}

/// The answer when the object was deleted outright (the bucket never had
/// versioning): no delete marker and no version id.
pub fn reply_object_deleted() -> (r: DeleteReply)
    ensures
        r == (DeleteReply { delete_marker: false, version_id: None }),
{
    DeleteReply { delete_marker: false, version_id: None }
}

/// Ends an outright delete from the object the deletion removed, if any: no
/// object is `NoSuchKey`; a version id that names neither the null version nor
/// the removed object's latest is `NoSuchVersion`; otherwise no delete marker
/// and no version id.
pub fn object_deleted_reply(version_id: Option<u128>, deleted: Option<object::Model>) -> (r: Result<
    DeleteReply,
    AppError,
>)
    ensures
        r == match deleted {
            None => Err(AppError::NoSuchKey),
            Some(o) => if version_id matches Some(id) && id != 0 && id != o.version_id {
                Err(AppError::NoSuchVersion)
            } else {
                Ok(DeleteReply { delete_marker: false, version_id: None })
            },
        },
{
    match deleted {
        None => Err(AppError::NoSuchKey),
        Some(o) => match check_deleted_version(version_id, &o) {
            Err(e) => Err(e),
            Ok(()) => Ok(reply_object_deleted()),
        },
    }
}

/// Ends the deletion of one version from what it removed: no object is
/// `NoSuchKey`, no such version `NoSuchVersion`; otherwise whether the version
/// removed was a delete marker, and no version id.
pub fn version_deleted_reply(removed: Option<(object::Model, Option<version::Model>)>) -> (r: Result<
    DeleteReply,
    AppError,
>)
    ensures
        r == match removed {
            None => Err(AppError::NoSuchKey),
            Some((_, None)) => Err(AppError::NoSuchVersion),
            Some((_, Some(v))) => Ok(DeleteReply { delete_marker: v.is_delete_marker(), version_id: None }),
        },
{
    match removed {
        None => Err(AppError::NoSuchKey),
        Some((_, None)) => Err(AppError::NoSuchVersion),
        Some((_, Some(v))) => Ok(reply_version_deleted(&v)),
    }
}

/// Ends the placing of a delete marker from the marker written: no object is
/// `NoSuchKey`; otherwise a delete marker and the marker's version id.
pub fn marker_placed_reply(placed: Option<(object::Model, version::Model)>) -> (r: Result<DeleteReply, AppError>)
    ensures
        r == match placed {
            None => Err(AppError::NoSuchKey),
            Some((_, m)) => Ok(DeleteReply { delete_marker: true, version_id: Some(m.spec_id()) }),
        },
{
    match placed {
        None => Err(AppError::NoSuchKey),
        Some((_, m)) => Ok(reply_marker_placed(&m)),
    }
}

/// The bucket after a versioning update is written: a flag the update gives
/// is set, one it leaves out keeps its stored value.
pub open spec fn spec_bucket_after(b: bucket::Model, u: VersioningUpdate) -> bucket::Model {
    bucket::Model {
        mfa_delete: match u.mfa_delete {
            Some(m) => Some(m),
            None => b.mfa_delete,
        },
        versioning: match u.versioning {
            Some(v) => Some(v),
            None => b.versioning,
        },
        ..b
    }
}

/// Applies a versioning update to a bucket, as the update writes it.
pub fn bucket_after_update(b: bucket::Model, u: VersioningUpdate) -> (r: bucket::Model)
    ensures
        r == spec_bucket_after(b, u),
{
    let mut b = b;
    match u.mfa_delete {
        Some(m) => {
            b.mfa_delete = Some(m);
        },
        None => {},
    }
    match u.versioning {
        Some(v) => {
            b.versioning = Some(v);
        },
        None => {},
    }
    b
}

/// What a bucket reports after an accepted `PutBucketVersioning`: the status
/// the request gave, else the one it had; and likewise for multi-factor delete.
pub proof fn lemma_versioning_update_reported(
    b: bucket::Model,
    mfa_delete: Option<MfaDeleteStatus>,
    status: Option<BucketVersioningStatus>,
)
    requires
        mfa_delete != Some(MfaDeleteStatus::Enabled),
    ensures
        ({
            let after = spec_bucket_after(
                b,
                VersioningUpdate { mfa_delete: mfa_flag_of(mfa_delete), versioning: flag_of_status(status) },
            );
            &&& status_of_flag(after.versioning) == match status {
                Some(s) => Some(s),
                None => status_of_flag(b.versioning),
            }
            &&& mfa_status_of_flag(after.mfa_delete) == match mfa_delete {
                Some(m) => Some(m),
                None => mfa_status_of_flag(b.mfa_delete),
            }
        }),
{
}

/// Answers `GetBucketVersioning` from the bucket found: no bucket is
/// `NoSuchBucket`; otherwise its multi-factor delete and versioning statuses.
pub fn bucket_versioning_answer(found: Option<bucket::Model>) -> (r: Result<
    (Option<MfaDeleteStatus>, Option<BucketVersioningStatus>),
    AppError,
>)
    ensures
        r == match found {
            None => Err(AppError::NoSuchBucket),
            Some(b) => Ok((mfa_status_of_flag(b.mfa_delete), status_of_flag(b.versioning))),
        },
{
    match found {
        None => Err(AppError::NoSuchBucket),
        Some(b) => Ok((mfa_delete_status(b.mfa_delete), versioning_status(b.versioning))),
    }
}

/// A write never overwrites a version row kept for versioning: while the
/// bucket has versioning on, or when the latest version was written with it
/// on, a new row is written. Only when both are off is the latest row, and
/// no other, written over.
pub proof fn lemma_reuse_only_without_versioning(versioning: bool, latest: version::Model)
    ensures
        versioning ==> spec_reusable_version_id(versioning, latest) is None,
        latest.versioning ==> spec_reusable_version_id(versioning, latest) is None,
        spec_reusable_version_id(versioning, latest) is Some <==> (!versioning && !latest.versioning),
        spec_reusable_version_id(versioning, latest) matches Some(id) ==> id == latest.id,
{
}

/// A request's version id names one version: no id the latest, the nil id
/// the null version, any other id exactly that version, so two different
/// ids never name the same version.
pub proof fn lemma_version_lookup_names(a: Option<u128>, b: Option<u128>, id: u128)
    ensures
        a is None ==> version_lookup_of(a) == VersionLookup::Latest,
        a == Some(0u128) ==> version_lookup_of(a) == VersionLookup::Null,
        a == Some(id) && id != 0 ==> version_lookup_of(a) == VersionLookup::Exact(id),
        version_lookup_of(a) == version_lookup_of(b) ==> a == b,
{
}

/// The version a request's optional version id names.
pub open spec fn version_lookup_of(version_id: Option<u128>) -> VersionLookup {
    match version_id {
        None => VersionLookup::Latest,
        Some(0) => VersionLookup::Null,
        Some(id) => VersionLookup::Exact(id),
    }
}

} // verus!
