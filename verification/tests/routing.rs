use minil::errors::AppError;
use minil::routing::operation;
use minil::routing::Method;
use minil::routing::Operation;
use minil::routing::PathShape;

fn q(pairs: &[(&str, &str)]) -> Vec<(String, String)> {
    pairs.iter().map(|(k, v)| (k.to_string(), v.to_string())).collect()
}

#[test]
fn bucket_reads_are_chosen_by_query() {
    let get = |pairs: &[(&str, &str)]| operation(Method::Get, PathShape::Bucket, &q(pairs));
    assert_eq!(get(&[]), Ok(Operation::ListObjects));
    assert_eq!(get(&[("list-type", "2")]), Ok(Operation::ListObjectsV2));
    assert_eq!(get(&[("list-type", "1")]), Ok(Operation::ListObjects));
    assert_eq!(get(&[("location", "")]), Ok(Operation::GetBucketLocation));
    assert_eq!(get(&[("versioning", "")]), Ok(Operation::GetBucketVersioning));
    assert_eq!(get(&[("versions", "")]), Ok(Operation::ListObjectVersions));
    assert_eq!(get(&[("tagging", "")]), Ok(Operation::GetBucketTagging));
    assert_eq!(get(&[("uploads", "")]), Ok(Operation::ListMultipartUploads));
    assert_eq!(get(&[("tagging", ""), ("list-type", "2")]), Ok(Operation::ListObjectsV2));
    assert_eq!(get(&[("tagging", "x")]), Ok(Operation::ListObjects));
}

#[test]
fn bucket_writes_are_chosen_by_query() {
    let b = PathShape::Bucket;
    assert_eq!(operation(Method::Put, b, &q(&[])), Ok(Operation::CreateBucket));
    assert_eq!(operation(Method::Put, b, &q(&[("tagging", "")])), Ok(Operation::PutBucketTagging));
    assert_eq!(operation(Method::Put, b, &q(&[("versioning", "")])), Ok(Operation::PutBucketVersioning));
    assert_eq!(operation(Method::Delete, b, &q(&[])), Ok(Operation::DeleteBucket));
    assert_eq!(operation(Method::Delete, b, &q(&[("tagging", "")])), Ok(Operation::DeleteBucketTagging));
    assert_eq!(operation(Method::Head, b, &q(&[])), Ok(Operation::HeadBucket));
    assert_eq!(operation(Method::Post, b, &q(&[])), Err(AppError::MethodNotAllowed));
}

#[test]
fn object_operations_are_chosen_by_query() {
    let o = PathShape::Object;
    let upload = q(&[("uploadId", "0195c3a1")]);
    assert_eq!(operation(Method::Get, o, &q(&[])), Ok(Operation::GetObject));
    assert_eq!(operation(Method::Get, o, &upload), Ok(Operation::ListParts));
    assert_eq!(operation(Method::Get, o, &q(&[("tagging", "")])), Ok(Operation::GetObjectTagging));
    assert_eq!(operation(Method::Head, o, &upload), Ok(Operation::HeadObject));
    assert_eq!(operation(Method::Put, o, &q(&[])), Ok(Operation::PutObject));
    assert_eq!(operation(Method::Put, o, &upload), Ok(Operation::UploadPart));
    assert_eq!(operation(Method::Put, o, &q(&[("tagging", "")])), Ok(Operation::PutObjectTagging));
    assert_eq!(operation(Method::Delete, o, &q(&[])), Ok(Operation::DeleteObject));
    assert_eq!(operation(Method::Delete, o, &upload), Ok(Operation::AbortMultipartUpload));
    assert_eq!(operation(Method::Delete, o, &q(&[("tagging", "")])), Ok(Operation::DeleteObjectTagging));
    assert_eq!(operation(Method::Post, o, &q(&[("uploads", "")])), Ok(Operation::CreateMultipartUpload));
    assert_eq!(operation(Method::Post, o, &upload), Ok(Operation::CompleteMultipartUpload));
    assert_eq!(operation(Method::Post, o, &q(&[])), Err(AppError::InternalError));
    assert_eq!(operation(Method::Other, o, &q(&[])), Err(AppError::MethodNotAllowed));
}

#[test]
fn root_lists_buckets_only() {
    assert_eq!(operation(Method::Get, PathShape::Root, &q(&[])), Ok(Operation::ListBuckets));
    assert_eq!(operation(Method::Put, PathShape::Root, &q(&[])), Err(AppError::MethodNotAllowed));
}
