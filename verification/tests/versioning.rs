use minil::entity::object;
use minil::entity::version;
use minil::errors::AppError;
use minil::versioning::check_deleted_version;
use minil::versioning::delete_action;
use minil::versioning::deletes_latest;
use minil::versioning::mfa_delete_status;
use minil::versioning::reply_marker_placed;
use minil::versioning::reply_version_deleted;
use minil::versioning::reported_version_id;
use minil::versioning::reusable_version_id;
use minil::versioning::version_lookup;
use minil::versioning::versioning_status;
use minil::versioning::versioning_update;
use minil::versioning::BucketVersioningStatus;
use minil::versioning::DeleteAction;
use minil::versioning::DeleteReply;
use minil::versioning::MfaDeleteStatus;
use minil::versioning::VersionLookup;
use minil::versioning::VersioningUpdate;

fn version(id: u128, versioning: bool, parts_count: Option<i16>) -> version::Model {
    version::Model {
        id,
        object_id: 1,
        versioning,
        parts_count,
        mime: None,
        size: parts_count.map(|_| 3),
        crc32: None,
        crc32_c: None,
        crc64_nvme: None,
        sha1: None,
        sha256: None,
        md5: None,
        e_tag: None,
        created_at: 100,
        updated_at: None,
    }
}

fn object(version_id: u128) -> object::Model {
    object::Model {
        id: 1,
        bucket_id: 1,
        key: "k".to_string(),
        version_id,
        created_at: 0,
        updated_at: None,
    }
}

#[test]
fn statuses_come_from_the_stored_flags() {
    assert_eq!(versioning_status(None), None);
    assert_eq!(versioning_status(Some(true)), Some(BucketVersioningStatus::Enabled));
    assert_eq!(versioning_status(Some(false)), Some(BucketVersioningStatus::Suspended));
    assert_eq!(mfa_delete_status(None), None);
    assert_eq!(mfa_delete_status(Some(true)), Some(MfaDeleteStatus::Enabled));
    assert_eq!(mfa_delete_status(Some(false)), Some(MfaDeleteStatus::Disabled));
}

#[test]
fn versioning_updates_round_trip() {
    for status in [None, Some(BucketVersioningStatus::Enabled), Some(BucketVersioningStatus::Suspended)] {
        for mfa in [None, Some(MfaDeleteStatus::Disabled)] {
            let update = versioning_update(mfa, status).unwrap();
            assert_eq!(versioning_status(update.versioning), status);
            assert_eq!(mfa_delete_status(update.mfa_delete), mfa);
        }
    }
    assert_eq!(
        versioning_update(None, Some(BucketVersioningStatus::Enabled)),
        Ok(VersioningUpdate { mfa_delete: None, versioning: Some(true) })
    );
    assert_eq!(
        versioning_update(Some(MfaDeleteStatus::Enabled), Some(BucketVersioningStatus::Enabled)),
        Err(AppError::NotImplemented)
    );
}

#[test]
fn version_ids_name_versions() {
    assert_eq!(version_lookup(None), VersionLookup::Latest);
    assert_eq!(version_lookup(Some(0)), VersionLookup::Null);
    assert_eq!(version_lookup(Some(42)), VersionLookup::Exact(42));
}

#[test]
fn only_unversioned_latest_rows_are_reused() {
    assert_eq!(reusable_version_id(false, &version(7, false, Some(1))), Some(7));
    assert_eq!(reusable_version_id(false, &version(7, true, Some(1))), None);
    assert_eq!(reusable_version_id(true, &version(7, false, Some(1))), None);
}

#[test]
fn delete_actions_follow_versioning() {
    assert_eq!(delete_action(Some(5), Some(true)), DeleteAction::DeleteVersion(5));
    assert_eq!(delete_action(Some(5), Some(false)), DeleteAction::DeleteVersion(5));
    assert_eq!(delete_action(None, Some(true)), DeleteAction::PlaceDeleteMarker { versioning: true });
    assert_eq!(delete_action(None, Some(false)), DeleteAction::PlaceDeleteMarker { versioning: false });
    assert_eq!(delete_action(Some(5), None), DeleteAction::DeleteObject { version_id: Some(5) });
    assert_eq!(delete_action(None, None), DeleteAction::DeleteObject { version_id: None });
}

#[test]
fn deleted_versions_are_checked_against_the_object() {
    let o = object(9);
    assert_eq!(check_deleted_version(None, &o), Ok(()));
    assert_eq!(check_deleted_version(Some(0), &o), Ok(()));
    assert_eq!(check_deleted_version(Some(9), &o), Ok(()));
    assert_eq!(check_deleted_version(Some(8), &o), Err(AppError::NoSuchVersion));
    assert!(deletes_latest(&o, &version(9, true, Some(1))));
    assert!(!deletes_latest(&o, &version(8, true, Some(1))));
}

#[test]
fn delete_replies_report_markers_and_ids() {
    assert_eq!(
        reply_version_deleted(&version(3, true, None)),
        DeleteReply { delete_marker: true, version_id: None }
    );
    assert_eq!(
        reply_version_deleted(&version(3, true, Some(1))),
        DeleteReply { delete_marker: false, version_id: None }
    );
    assert_eq!(
        reply_marker_placed(&version(3, true, None)),
        DeleteReply { delete_marker: true, version_id: Some(3) }
    );
    assert_eq!(
        reply_marker_placed(&version(3, false, None)),
        DeleteReply { delete_marker: true, version_id: Some(0) }
    );
    assert_eq!(reported_version_id(None, &version(3, true, Some(1))), None);
    assert_eq!(reported_version_id(Some(false), &version(3, true, Some(1))), Some(3));
    assert_eq!(reported_version_id(Some(true), &version(3, false, Some(1))), Some(0));
}
