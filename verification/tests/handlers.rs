use minil::entity::bucket;
use minil::entity::object;
use minil::entity::owner;
use minil::entity::upload;
use minil::entity::upload_part;
use minil::entity::version;
use minil::entity::version_part;
use minil::errors::AppError;
use minil::handlers::complete::complete_answer;
use minil::handlers::complete::complete_plan;
use minil::handlers::complete::complete_precheck;
use minil::handlers::complete::CompleteRequest;
use minil::handlers::listings::list_multipart_uploads_answer;
use minil::handlers::listings::list_object_versions_answer;
use minil::handlers::listings::list_objects_answer;
use minil::handlers::listings::list_objects_v2_answer;
use minil::handlers::listings::list_precheck;
use minil::handlers::listings::objects_v2_query;
use minil::handlers::listings::ListMultipartUploadsRequest;
use minil::handlers::listings::ListObjectVersionsRequest;
use minil::handlers::listings::ListObjectsRequest;
use minil::handlers::listings::ListObjectsV2Request;
use minil::handlers::object_read::read_answer;
use minil::handlers::object_read::read_precheck;
use minil::handlers::object_read::validate_range;
use minil::handlers::object_read::ObjectReadAnswer;
use minil::handlers::object_read::ObjectReadRequest;
use minil::handlers::object_read::RangeSpec;
use minil::ingest::part_extent;
use minil::ingest::whole_part_extent;
use minil::ingest::PartChecksums;
use minil::listing::EncodingType;
use minil::multipart::combine_upload_parts;
use minil::reads::ByteRange;
use minil::reads::ContentRange;
use minil::requests::CompletedPart;
use minil::versioning::VersionLookup;
use minil::handlers::listings::ListPartsRequest;
use minil::handlers::listings::list_buckets_answer;
use minil::handlers::listings::list_parts_answer;
use minil::versioning::BucketVersioningStatus;
use minil::versioning::DeleteReply;
use minil::versioning::MfaDeleteStatus;
use minil::versioning::bucket_after_update;
use minil::versioning::bucket_versioning_answer;
use minil::versioning::marker_placed_reply;
use minil::versioning::object_deleted_reply;
use minil::versioning::reply_object_deleted;
use minil::versioning::version_deleted_reply;
use minil::versioning::versioning_update;

fn owner() -> owner::Model {
    owner::Model { id: 1, name: "minil".to_string(), created_at: 0 }
}

fn bucket(versioning: Option<bool>) -> bucket::Model {
    bucket::Model {
        id: 2,
        owner_id: 1,
        name: "b".to_string(),
        mfa_delete: None,
        versioning,
        created_at: 0,
        updated_at: None,
    }
}

fn object(key: &str, version_id: u128) -> object::Model {
    object::Model { id: 3, bucket_id: 2, key: key.to_string(), version_id, created_at: 0, updated_at: None }
}

fn version(id: u128, parts_count: Option<i16>, size: i64) -> version::Model {
    version::Model {
        id,
        object_id: 3,
        versioning: true,
        parts_count,
        mime: None,
        size: parts_count.map(|_| size),
        crc32: None,
        crc32_c: None,
        crc64_nvme: None,
        sha1: None,
        sha256: None,
        md5: parts_count.map(|_| vec![0u8; 16]),
        e_tag: None,
        created_at: 10,
        updated_at: Some(20),
    }
}

fn read_request(ranges: Option<Vec<RangeSpec>>, part_number: Option<u16>) -> ObjectReadRequest {
    ObjectReadRequest {
        unsupported: vec![false; 4],
        ranges,
        expected_bucket_owner: None,
        version_id: None,
        part_number,
    }
}

#[test]
fn read_prechecks_come_in_order() {
    let o = "minil".to_string();
    let mut req = read_request(None, None);
    assert_eq!(read_precheck(&req, &o), Ok(VersionLookup::Latest));
    req.version_id = Some(0);
    assert_eq!(read_precheck(&req, &o), Ok(VersionLookup::Null));
    req.expected_bucket_owner = Some("other".to_string());
    assert_eq!(read_precheck(&req, &o), Err(AppError::AccessDenied));
    req.ranges = Some(vec![RangeSpec::From(0), RangeSpec::From(1)]);
    assert_eq!(read_precheck(&req, &o), Err(AppError::NotImplemented));
    req.ranges = None;
    req.unsupported[2] = true;
    assert_eq!(read_precheck(&req, &o), Err(AppError::NotImplemented));
}

#[test]
fn ranges_resolve_against_the_size() {
    assert_eq!(validate_range(RangeSpec::FromTo(2, 5), 10), Ok(ByteRange { first: 2, last: 5 }));
    assert_eq!(validate_range(RangeSpec::FromTo(2, 50), 10), Ok(ByteRange { first: 2, last: 9 }));
    assert_eq!(validate_range(RangeSpec::FromTo(10, 12), 10), Err(AppError::InvalidRange));
    assert_eq!(validate_range(RangeSpec::FromTo(5, 2), 10), Err(AppError::InvalidRange));
    assert_eq!(validate_range(RangeSpec::From(7), 10), Ok(ByteRange { first: 7, last: 9 }));
    assert_eq!(validate_range(RangeSpec::Suffix(3), 10), Ok(ByteRange { first: 7, last: 9 }));
    assert_eq!(validate_range(RangeSpec::Suffix(30), 10), Ok(ByteRange { first: 0, last: 9 }));
    assert_eq!(validate_range(RangeSpec::Suffix(0), 10), Err(AppError::InvalidRange));
    assert_eq!(validate_range(RangeSpec::From(0), 0), Err(AppError::InvalidRange));
}

#[test]
fn read_lookups_fail_in_order() {
    let req = read_request(None, None);
    let found = Some((object("k", 5), Some(version(5, Some(1), 10))));
    assert_eq!(read_answer(&req, None, found.clone(), None).err(), Some(AppError::NoSuchBucket));
    assert_eq!(read_answer(&req, Some(bucket(None)), None, None).err(), Some(AppError::NoSuchKey));
    assert_eq!(
        read_answer(&req, Some(bucket(None)), Some((object("k", 5), None)), None).err(),
        Some(AppError::NoSuchVersion)
    );
    let req = read_request(None, Some(2));
    assert_eq!(read_answer(&req, Some(bucket(None)), found.clone(), None).err(), Some(AppError::InvalidPart));
    let req = read_request(Some(vec![RangeSpec::From(0)]), Some(2));
    assert_eq!(read_answer(&req, Some(bucket(None)), found.clone(), None).err(), Some(AppError::InternalError));
    let req = read_request(Some(vec![RangeSpec::From(10)]), None);
    assert_eq!(read_answer(&req, Some(bucket(None)), found, None).err(), Some(AppError::InvalidRange));
}

#[test]
fn read_of_a_delete_marker() {
    let mut req = read_request(None, None);
    let found = Some((object("k", 5), Some(version(5, None, 0))));
    match read_answer(&req, Some(bucket(Some(true))), found.clone(), None).unwrap() {
        ObjectReadAnswer::DeleteMarker(m) => {
            assert_eq!((m.status, m.last_modified, m.delete_marker), (404, None, true));
        }
        _ => panic!("expected a delete marker"),
    }
    req.version_id = Some(5);
    match read_answer(&req, Some(bucket(Some(true))), found, None).unwrap() {
        ObjectReadAnswer::DeleteMarker(m) => assert_eq!((m.status, m.last_modified), (405, Some(20))),
        _ => panic!("expected a delete marker"),
    }
}

#[test]
fn ranged_read_headers() {
    let req = read_request(Some(vec![RangeSpec::FromTo(2, 4)]), None);
    let found = Some((object("k", 5), Some(version(5, Some(3), 10))));
    match read_answer(&req, Some(bucket(Some(false))), found, None).unwrap() {
        ObjectReadAnswer::Found(h) => {
            assert_eq!(h.version_row, 5);
            assert_eq!(h.part_row, None);
            assert_eq!(h.range, Some(ByteRange { first: 2, last: 4 }));
            assert_eq!(h.content_length, 3);
            assert_eq!(h.content_range, Some(ContentRange { first_byte: 2, last_byte: 4, complete_length: 10 }));
            assert_eq!(h.e_tag, "\"00000000000000000000000000000000\"");
            assert_eq!(h.last_modified, 20);
            assert_eq!(h.mp_parts_count, Some(3));
            assert_eq!(h.version_id, Some(5));
        }
        _ => panic!("expected bytes"),
    }
}

#[test]
fn part_read_uses_the_part() {
    let req = read_request(None, Some(1));
    let found = Some((object("k", 5), Some(version(5, Some(2), 10))));
    let part = version_part::Model {
        id: 9,
        version_id: 5,
        number: 1,
        start: 0,
        end: 3,
        size: 4,
        crc32: vec![],
        crc32_c: vec![],
        crc64_nvme: vec![],
        sha1: vec![],
        sha256: vec![],
        md5: vec![0xffu8; 16],
        created_at: 7,
    };
    match read_answer(&req, Some(bucket(None)), found, Some(part)).unwrap() {
        ObjectReadAnswer::Found(h) => {
            assert_eq!(h.part_row, Some(9));
            assert_eq!(h.content_length, 4);
            assert_eq!(h.e_tag, "\"ffffffffffffffffffffffffffffffff\"");
            assert_eq!(h.last_modified, 7);
            assert_eq!(h.version_id, None);
        }
        _ => panic!("expected bytes"),
    }
}

fn object_rows(keys: &[&str]) -> Vec<(object::Model, version::Model)> {
    keys.iter().map(|k| (object(k, 5), version(5, Some(1), 3))).collect()
}

#[test]
fn list_v2_page_with_prefixes_and_token() {
    assert_eq!(list_precheck(&vec![false, false], &None, &"minil".to_string()), Ok(()));
    assert_eq!(list_precheck(&vec![false, true], &None, &"minil".to_string()), Err(AppError::NotImplemented));
    let req = ListObjectsV2Request {
        unsupported: vec![false, false],
        expected_bucket_owner: None,
        prefix: Some("a/".to_string()),
        delimiter: Some("/".to_string()),
        encoding_type: Some(EncodingType::Url),
        max_keys: 3,
        continuation_token: None,
        start_after: Some("a/0".to_string()),
        fetch_owner: Some(true),
    };
    let q = objects_v2_query(&req);
    assert_eq!((q.start_after.as_deref(), q.limit), (Some("a/0"), 4));
    let rows = object_rows(&["a/b c", "a/d/1", "a/d/2", "a/e"]);
    let a = list_objects_v2_answer(&req, &owner(), Some(bucket(None)), &rows).unwrap();
    assert_eq!(a.contents.len(), 1);
    assert_eq!(a.contents[0].key, "a%2Fb%20c");
    assert_eq!(a.contents[0].owner.as_ref().map(|o| o.id), Some(1));
    assert_eq!(a.common_prefixes, vec!["a%2Fd%2F".to_string()]);
    assert_eq!(a.key_count, 2);
    assert!(a.is_truncated);
    assert_eq!(a.next_continuation_token, Some("a/d/2".to_string()));
    assert_eq!(a.prefix, "a%2F");
    assert_eq!(a.start_after, Some("a%2F0".to_string()));
    assert!(list_objects_v2_answer(&req, &owner(), None, &rows).is_err());
}

#[test]
fn list_v1_reports_next_marker_only_with_a_delimiter() {
    let mut req = ListObjectsRequest {
        unsupported: vec![],
        expected_bucket_owner: None,
        prefix: None,
        delimiter: None,
        encoding_type: None,
        max_keys: 2,
        marker: None,
    };
    let rows = object_rows(&["a", "b", "c"]);
    let a = list_objects_answer(&req, &owner(), Some(bucket(None)), &rows).unwrap();
    assert_eq!(a.contents.len(), 2);
    assert!(a.is_truncated);
    assert_eq!(a.next_marker, None);
    assert_eq!(a.marker, "");
    req.delimiter = Some("/".to_string());
    let a = list_objects_answer(&req, &owner(), Some(bucket(None)), &rows).unwrap();
    assert_eq!(a.next_marker, Some("b".to_string()));
    assert!(a.contents.iter().all(|c| c.owner.is_some()));
}

#[test]
fn list_versions_takes_next_markers_from_the_look_ahead_row() {
    let req = ListObjectVersionsRequest {
        unsupported: vec![],
        expected_bucket_owner: None,
        prefix: None,
        delimiter: None,
        encoding_type: None,
        max_keys: 2,
        key_marker: None,
        version_id_marker: None,
    };
    let rows = vec![
        (version(7, None, 0), object("a", 7)),
        (version(6, Some(1), 3), object("a", 7)),
        (version(8, Some(1), 3), object("b", 8)),
    ];
    let a = list_object_versions_answer(&req, &owner(), Some(bucket(Some(true))), &rows).unwrap();
    assert_eq!(a.entries.len(), 2);
    assert!(a.entries[0].delete_marker && a.entries[0].is_latest && a.entries[0].e_tag.is_none());
    assert!(!a.entries[1].delete_marker && !a.entries[1].is_latest);
    assert_eq!(a.entries[1].size, Some(3));
    assert_eq!(a.next_key_marker, Some("b".to_string()));
    assert_eq!(a.next_version_id_marker, Some(8));
    assert!(a.is_truncated);
}

#[test]
fn list_uploads_keeps_keys_unencoded() {
    let req = ListMultipartUploadsRequest {
        unsupported: vec![],
        expected_bucket_owner: None,
        prefix: None,
        delimiter: None,
        encoding_type: Some(EncodingType::Url),
        max_uploads: 5,
        key_marker: None,
        upload_id_marker: None,
    };
    let rows = vec![upload::Model { id: 11, bucket_id: 2, key: "x y".to_string(), mime: None, created_at: 4 }];
    let a = list_multipart_uploads_answer(&req, &owner(), Some(bucket(None)), &rows).unwrap();
    assert_eq!(a.uploads.len(), 1);
    assert_eq!((a.uploads[0].upload_id, a.uploads[0].key.as_str(), a.uploads[0].initiated), (11, "x y", 4));
    assert!(!a.is_truncated);
    assert_eq!(a.next_key_marker, "");
    assert_eq!(a.next_upload_id_marker, None);
    assert_eq!(a.prefix, None);
}

fn stored_part(data: &[u8], number: i16) -> upload_part::Model {
    let mut acc = PartChecksums::new();
    acc.absorb(data);
    let d = acc.finish();
    upload_part::Model {
        id: number as u128,
        upload_id: 11,
        number,
        size: d.size as i64,
        crc32: d.crc32,
        crc32_c: d.crc32_c,
        crc64_nvme: d.crc64_nvme,
        sha1: d.sha1,
        sha256: d.sha256,
        md5: d.md5,
        created_at: 0,
        updated_at: None,
    }
}

#[test]
fn complete_checks_lookups_and_plans() {
    let req = CompleteRequest {
        unsupported: vec![false, true],
        expected_bucket_owner: None,
        parts: vec![CompletedPart { part_number: Some(1), e_tag: None }],
    };
    assert_eq!(complete_precheck(&req, &"minil".to_string()), Err(AppError::NotImplemented));
    let req = CompleteRequest { unsupported: vec![false], ..req };
    assert_eq!(complete_precheck(&req, &"minil".to_string()).map(|f| f.len()), Ok(1));
    let up = upload::Model { id: 11, bucket_id: 2, key: "k".to_string(), mime: None, created_at: 0 };
    assert_eq!(complete_plan(None, vec![]).err(), Some(AppError::NoSuchBucket));
    assert_eq!(complete_plan(Some((bucket(None), None)), vec![]).err(), Some(AppError::NoSuchUpload));
    assert_eq!(
        complete_plan(Some((bucket(None), Some(up.clone()))), vec![Some(stored_part(b"x", 1)), None]).err(),
        Some(AppError::InvalidPart)
    );
    let plan = complete_plan(
        Some((bucket(Some(true)), Some(up))),
        vec![Some(stored_part(b"ab", 1)), Some(stored_part(b"cde", 2))],
    )
    .unwrap();
    assert!(plan.versioning);
    assert_eq!(plan.key, "k");
    assert_eq!(plan.combined.size, 5);
    assert_eq!(plan.combined.crc32, stored_part(b"abcde", 1).crc32);
    assert_eq!((plan.layout[1].start, plan.layout[1].end), (2, 4));
    let v = version(42, Some(2), 5);
    assert_eq!(complete_answer(&bucket(Some(true)), &v, &"k".to_string(), false).err(), Some(AppError::NoSuchUpload));
    let a = complete_answer(&bucket(Some(true)), &v, &"k".to_string(), true).unwrap();
    assert_eq!((a.version_id, a.bucket.as_str(), a.key.as_str()), (Some(42), "b", "k"));
}

#[test]
fn no_parts_combine_to_the_checksums_of_no_bytes() {
    let (combined, layout) = combine_upload_parts(&vec![]);
    let empty = stored_part(b"", 1);
    assert_eq!(combined.crc32, empty.crc32);
    assert_eq!(combined.crc32_c, empty.crc32_c);
    assert_eq!(combined.crc64_nvme, empty.crc64_nvme);
    assert!(layout.is_empty());
}

#[test]
fn part_extents() {
    assert_eq!(part_extent(Some(10), 5), Some((10, 14)));
    assert_eq!(part_extent(None, 5), None);
    assert_eq!(whole_part_extent(0), (0, 0));
    assert_eq!(whole_part_extent(8), (0, 7));
}

#[test]
fn transactions_commit_on_success_only() {
    use_txn();
}

fn use_txn() {
    assert_eq!(minil::handlers::transaction::txn_end(200), minil::handlers::transaction::TxnEnd::Commit);
    assert_eq!(minil::handlers::transaction::txn_end(204), minil::handlers::transaction::TxnEnd::Commit);
    assert_eq!(minil::handlers::transaction::txn_end(404), minil::handlers::transaction::TxnEnd::Rollback);
    assert_eq!(minil::handlers::transaction::txn_end(304), minil::handlers::transaction::TxnEnd::Rollback);
}

#[test]
fn outright_delete_replies() {
    let plain = DeleteReply { delete_marker: false, version_id: None };
    assert_eq!(reply_object_deleted(), plain);
    assert_eq!(object_deleted_reply(None, None), Err(AppError::NoSuchKey));
    assert_eq!(object_deleted_reply(None, Some(object("k", 5))), Ok(plain));
    assert_eq!(object_deleted_reply(Some(0), Some(object("k", 5))), Ok(plain));
    assert_eq!(object_deleted_reply(Some(5), Some(object("k", 5))), Ok(plain));
    assert_eq!(object_deleted_reply(Some(6), Some(object("k", 5))), Err(AppError::NoSuchVersion));
}

#[test]
fn versioned_delete_replies() {
    assert_eq!(version_deleted_reply(None), Err(AppError::NoSuchKey));
    assert_eq!(version_deleted_reply(Some((object("k", 5), None))), Err(AppError::NoSuchVersion));
    assert_eq!(
        version_deleted_reply(Some((object("k", 5), Some(version(5, None, 0))))),
        Ok(DeleteReply { delete_marker: true, version_id: None })
    );
    assert_eq!(marker_placed_reply(None), Err(AppError::NoSuchKey));
    assert_eq!(
        marker_placed_reply(Some((object("k", 9), version(9, None, 0)))),
        Ok(DeleteReply { delete_marker: true, version_id: Some(9) })
    );
}

#[test]
fn versioning_updates_keep_what_they_leave_out() {
    let b = bucket(Some(true));
    let u = versioning_update(None, None).unwrap();
    let after = bucket_after_update(b.clone(), u);
    assert_eq!(bucket_versioning_answer(Some(after)), Ok((None, Some(BucketVersioningStatus::Enabled))));
    let u = versioning_update(Some(MfaDeleteStatus::Disabled), Some(BucketVersioningStatus::Suspended)).unwrap();
    let after = bucket_after_update(b, u);
    assert_eq!(
        bucket_versioning_answer(Some(after)),
        Ok((Some(MfaDeleteStatus::Disabled), Some(BucketVersioningStatus::Suspended)))
    );
    assert_eq!(bucket_versioning_answer(None), Err(AppError::NoSuchBucket));
}

#[test]
fn bucket_and_part_pages() {
    let rows: Vec<bucket::Model> = ["a", "b", "c"]
        .iter()
        .map(|n| bucket::Model { name: n.to_string(), created_at: 3, ..bucket(None) })
        .collect();
    let a = list_buckets_answer(2, &None, &owner(), &rows);
    assert_eq!(a.buckets.len(), 2);
    assert_eq!(a.continuation_token, Some("b".to_string()));
    assert_eq!(a.buckets[1].creation_date, 3);
    let a = list_buckets_answer(5, &Some("x".to_string()), &owner(), &rows);
    assert_eq!((a.buckets.len(), a.continuation_token, a.prefix), (3, None, Some("x".to_string())));
    let req = ListPartsRequest { unsupported: vec![], expected_bucket_owner: None, max_parts: 1, part_number_marker: Some(3) };
    let up = upload::Model { id: 11, bucket_id: 2, key: "k".to_string(), mime: None, created_at: 0 };
    let parts = vec![stored_part(b"ab", 4), stored_part(b"c", 5)];
    assert_eq!(list_parts_answer(&req, &owner(), None, &parts).err(), Some(AppError::NoSuchBucket));
    assert_eq!(
        list_parts_answer(&req, &owner(), Some((bucket(None), None)), &parts).err(),
        Some(AppError::NoSuchUpload)
    );
    let a = list_parts_answer(&req, &owner(), Some((bucket(None), Some(up))), &parts).unwrap();
    assert!(a.is_truncated);
    assert_eq!(a.next_part_number_marker, Some(4));
    assert_eq!(a.parts.len(), 1);
    assert_eq!((a.parts[0].part_number, a.parts[0].size), (4, 2));
    assert_eq!(a.upload_id, 11);
}
