//! Which S3 operation a request calls: chosen by its method, whether its
//! path names a bucket and a key, and its query parameters.
use vstd::prelude::*;

use crate::errors::AppError;

verus! {

/// The HTTP method of a request.
#[derive(Debug, Clone, Copy, PartialEq, Eq)]
pub enum Method {
    Get,
    Head,
    Put,
    Post,
    Delete,
    Other,
}

/// What the path of a request names: nothing, a bucket, or a key of a bucket.
#[derive(Debug, Clone, Copy, PartialEq, Eq)]
pub enum PathShape {
    Root,
    Bucket,
    Object,
}

/// The S3 operations the server answers.
#[derive(Debug, Clone, Copy, PartialEq, Eq)]
pub enum Operation {
    ListBuckets,
    DeleteBucketTagging,
    DeleteBucket,
    ListObjectsV2,
    GetBucketLocation,
    GetBucketVersioning,
    ListObjectVersions,
    GetBucketTagging,
    ListMultipartUploads,
    ListObjects,
    HeadBucket,
    PutBucketTagging,
    PutBucketVersioning,
    CreateBucket,
    DeleteObjectTagging,
    AbortMultipartUpload,
    DeleteObject,
    GetObjectTagging,
    ListParts,
    GetObject,
    HeadObject,
    CreateMultipartUpload,
    CompleteMultipartUpload,
    PutObjectTagging,
    UploadPart,
    PutObject,
}

/// The query parameters, as text.
pub open spec fn query_view(query: Seq<(String, String)>) -> Seq<(Seq<char>, Seq<char>)> {
    query.map_values(|p: (String, String)| (p.0@, p.1@))
}

/// The query has the parameter `name`, with any value.
pub open spec fn has_param(query: Seq<(Seq<char>, Seq<char>)>, name: Seq<char>) -> bool {
    exists|i: int| 0 <= i < query.len() && (#[trigger] query[i]).0 == name
}

/// The query has the parameter `name` with the value `value`.
pub open spec fn has_param_value(query: Seq<(Seq<char>, Seq<char>)>, name: Seq<char>, value: Seq<char>) -> bool {
    exists|i: int| 0 <= i < query.len() && (#[trigger] query[i]).0 == name && query[i].1 == value
}

/// The parameter is given bare, as in `?tagging`.
pub open spec fn has_flag(query: Seq<(Seq<char>, Seq<char>)>, name: Seq<char>) -> bool {
    has_param_value(query, name, Seq::empty())
}

/// The operation a request calls; the first parameter test that holds, in
/// the order listed, wins. A method the path does not take is answered with
/// `MethodNotAllowed`; a `POST` on a key that names no upload operation with
/// `InternalError`.
pub open spec fn spec_operation(method: Method, shape: PathShape, q: Seq<(Seq<char>, Seq<char>)>) -> Result<
    Operation,
    AppError,
> {
    match (shape, method) {
        (PathShape::Root, Method::Get) => Ok(Operation::ListBuckets),
        (PathShape::Bucket, Method::Delete) => if has_flag(q, "tagging"@) {
            Ok(Operation::DeleteBucketTagging)
        } else {
            Ok(Operation::DeleteBucket)
        },
        (PathShape::Bucket, Method::Get) => if has_param_value(q, "list-type"@, "2"@) {
            Ok(Operation::ListObjectsV2)
        } else if has_flag(q, "location"@) {
            Ok(Operation::GetBucketLocation)
        } else if has_flag(q, "versioning"@) {
            Ok(Operation::GetBucketVersioning)
        } else if has_flag(q, "versions"@) {
            Ok(Operation::ListObjectVersions)
        } else if has_flag(q, "tagging"@) {
            Ok(Operation::GetBucketTagging)
        } else if has_flag(q, "uploads"@) {
            Ok(Operation::ListMultipartUploads)
        } else {
            Ok(Operation::ListObjects)
        },
        (PathShape::Bucket, Method::Head) => Ok(Operation::HeadBucket),
        (PathShape::Bucket, Method::Put) => if has_flag(q, "tagging"@) {
            Ok(Operation::PutBucketTagging)
        } else if has_flag(q, "versioning"@) {
            Ok(Operation::PutBucketVersioning)
        } else {
            Ok(Operation::CreateBucket)
        },
        (PathShape::Object, Method::Delete) => if has_flag(q, "tagging"@) {
            Ok(Operation::DeleteObjectTagging)
        } else if has_param(q, "uploadId"@) {
            Ok(Operation::AbortMultipartUpload)
        } else {
            Ok(Operation::DeleteObject)
        },
        (PathShape::Object, Method::Get) => if has_flag(q, "tagging"@) {
            Ok(Operation::GetObjectTagging)
        } else if has_param(q, "uploadId"@) {
            Ok(Operation::ListParts)
        } else {
            Ok(Operation::GetObject)
        },
        (PathShape::Object, Method::Head) => Ok(Operation::HeadObject),
        (PathShape::Object, Method::Post) => if has_flag(q, "uploads"@) {
            Ok(Operation::CreateMultipartUpload)
        } else if has_param(q, "uploadId"@) {
            Ok(Operation::CompleteMultipartUpload)
        } else {
            Err(AppError::InternalError)
        },
        (PathShape::Object, Method::Put) => if has_flag(q, "tagging"@) {
            Ok(Operation::PutObjectTagging)
        } else if has_param(q, "uploadId"@) {
            Ok(Operation::UploadPart)
        } else {
            Ok(Operation::PutObject)
        },
        _ => Err(AppError::MethodNotAllowed),
    }
}

/// A parameter counts wherever it stands in the query: a pair with that name
/// (and value) at any position makes the query have it, and a query none of
/// whose pairs has that name has it with no value.
pub proof fn lemma_param_anywhere(q: Seq<(Seq<char>, Seq<char>)>, i: int, name: Seq<char>, value: Seq<char>)
    ensures
        0 <= i < q.len() && q[i].0 == name ==> has_param(q, name),
        0 <= i < q.len() && q[i] == (name, value) ==> has_param_value(q, name, value),
        (forall|k: int| 0 <= k < q.len() ==> q[k].0 != name) ==> !has_param(q, name) && !has_param_value(
            q,
            name,
            value,
        ),
{
    if 0 <= i < q.len() && q[i].0 == name {
        assert(q[i].0 == name);
    }
}

/// Putting a pair with another name anywhere in the query changes neither
/// whether the query has a parameter nor with which values.
pub proof fn lemma_param_unrelated(
    q: Seq<(Seq<char>, Seq<char>)>,
    k: int,
    p: (Seq<char>, Seq<char>),
    name: Seq<char>,
    value: Seq<char>,
)
    requires
        0 <= k <= q.len(),
        p.0 != name,
    ensures
        has_param(q.insert(k, p), name) == has_param(q, name),
        has_param_value(q.insert(k, p), name, value) == has_param_value(q, name, value),
{
    let q2 = q.insert(k, p);
    if has_param(q, name) {
        let i = choose|i: int| 0 <= i < q.len() && (#[trigger] q[i]).0 == name;
        let j = if i < k { i } else { i + 1 };
        assert(q2[j] == q[i]);
    }
    if has_param(q2, name) {
        let j = choose|j: int| 0 <= j < q2.len() && (#[trigger] q2[j]).0 == name;
        let i = if j < k { j } else { j - 1 };
        assert(q[i] == q2[j]);
    }
    if has_param_value(q, name, value) {
        let i = choose|i: int| 0 <= i < q.len() && (#[trigger] q[i]).0 == name && q[i].1 == value;
        let j = if i < k { i } else { i + 1 };
        assert(q2[j] == q[i]);
    }
    if has_param_value(q2, name, value) {
        let j = choose|j: int| 0 <= j < q2.len() && (#[trigger] q2[j]).0 == name && q2[j].1 == value;
        let i = if j < k { j } else { j - 1 };
        assert(q[i] == q2[j]);
    }
}

/// The names of the query parameters that choose an operation.
pub open spec fn routing_names() -> Set<Seq<char>> {
    set!["tagging"@, "list-type"@, "location"@, "versioning"@, "versions"@, "uploads"@, "uploadId"@]
}

/// The operation does not depend on where the parameters stand: a query
/// parameter with a name that chooses no operation, put anywhere, leaves the
/// operation as it was; and a bucket `GET` with `list-type=2` anywhere in its
/// query is `ListObjectsV2`.
pub proof fn lemma_operation_ignores_other_params(
    method: Method,
    shape: PathShape,
    q: Seq<(Seq<char>, Seq<char>)>,
    k: int,
    p: (Seq<char>, Seq<char>),
    i: int,
)
    requires
        0 <= k <= q.len(),
        !routing_names().contains(p.0),
    ensures
        spec_operation(method, shape, q.insert(k, p)) == spec_operation(method, shape, q),
        0 <= i < q.len() && q[i] == ("list-type"@, "2"@) ==> spec_operation(Method::Get, PathShape::Bucket, q)
            == Ok::<Operation, AppError>(Operation::ListObjectsV2),
{
    let e: Seq<char> = Seq::empty();
    assert(routing_names().contains("tagging"@));
    assert(routing_names().contains("list-type"@));
    assert(routing_names().contains("location"@));
    assert(routing_names().contains("versioning"@));
    assert(routing_names().contains("versions"@));
    assert(routing_names().contains("uploads"@));
    assert(routing_names().contains("uploadId"@));
    lemma_param_unrelated(q, k, p, "tagging"@, e);
    lemma_param_unrelated(q, k, p, "list-type"@, "2"@);
    lemma_param_unrelated(q, k, p, "location"@, e);
    lemma_param_unrelated(q, k, p, "versioning"@, e);
    lemma_param_unrelated(q, k, p, "versions"@, e);
    lemma_param_unrelated(q, k, p, "uploads"@, e);
    lemma_param_unrelated(q, k, p, "uploadId"@, e);
    lemma_param_anywhere(q, i, "list-type"@, "2"@);
}

/// Whether the query has the parameter `name`, with the value `value` when one is given.
fn find_param(query: &Vec<(String, String)>, name: &str, value: Option<&str>) -> (r: bool)
    ensures
        r == match value {
            Some(v) => has_param_value(query_view(query@), name@, v@),
            None => has_param(query_view(query@), name@),
        },
{
    let ghost q = query_view(query@);
    let name_text = name.to_owned();
    let value_text = match value {
        Some(v) => Some(v.to_owned()),
        None => None,
    };
    let mut i: usize = 0;
    while i < query.len()
        invariant
            i <= query.len(),
            q == query_view(query@),
            name_text@ == name@,
            value_text is Some == value is Some,
            value_text is Some ==> value_text->0@ == value->0@,
            forall|k: int|
                0 <= k < i ==> !(q[k].0 == name@ && match value {
                    Some(v) => q[k].1 == v@,
                    None => true,
                }),
        decreases query.len() - i,
    {
        let pair = &query[i];
        assert(q[i as int] == (pair.0@, pair.1@));
        if pair.0 == name_text {
            match &value_text {
                Some(v) => {
                    if pair.1 == *v {
                        assert(q[i as int].0 == name@ && q[i as int].1 == value->0@);
                        return true;
                    }
                },
                None => {
                    assert(q[i as int].0 == name@);
                    return true;
                },
            }
        }
        i = i + 1;
    }
    false
}

/// Whether the parameter is given bare.
fn flag(query: &Vec<(String, String)>, name: &str) -> (r: bool)
    ensures
        r == has_flag(query_view(query@), name@),
{
    let empty = "";
    proof {
        reveal_strlit("");
        assert(empty@ =~= Seq::<char>::empty());
    }
    find_param(query, name, Some(empty))
}

/// Chooses the operation a request calls, as `spec_operation` says.
pub fn operation(method: Method, shape: PathShape, query: &Vec<(String, String)>) -> (r: Result<
    Operation,
    AppError,
>)
    ensures
        r == spec_operation(method, shape, query_view(query@)),
{
    match (shape, method) {
        (PathShape::Root, Method::Get) => Ok(Operation::ListBuckets),
        (PathShape::Bucket, Method::Delete) => if flag(query, "tagging") {
            Ok(Operation::DeleteBucketTagging)
        } else {
            Ok(Operation::DeleteBucket)
        },
        (PathShape::Bucket, Method::Get) => if find_param(query, "list-type", Some("2")) {
            Ok(Operation::ListObjectsV2)
        } else if flag(query, "location") {
            Ok(Operation::GetBucketLocation)
        } else if flag(query, "versioning") {
            Ok(Operation::GetBucketVersioning)
        } else if flag(query, "versions") {
            Ok(Operation::ListObjectVersions)
        } else if flag(query, "tagging") {
            Ok(Operation::GetBucketTagging)
        } else if flag(query, "uploads") {
            Ok(Operation::ListMultipartUploads)
        } else {
            Ok(Operation::ListObjects)
        },
        (PathShape::Bucket, Method::Head) => Ok(Operation::HeadBucket),
        (PathShape::Bucket, Method::Put) => if flag(query, "tagging") {
            Ok(Operation::PutBucketTagging)
        } else if flag(query, "versioning") {
            Ok(Operation::PutBucketVersioning)
        } else {
            Ok(Operation::CreateBucket)
        },
        (PathShape::Object, Method::Delete) => if flag(query, "tagging") {
            Ok(Operation::DeleteObjectTagging)
        } else if find_param(query, "uploadId", None) {
            Ok(Operation::AbortMultipartUpload)
        } else {
            Ok(Operation::DeleteObject)
        },
        (PathShape::Object, Method::Get) => if flag(query, "tagging") {
            Ok(Operation::GetObjectTagging)
        } else if find_param(query, "uploadId", None) {
            Ok(Operation::ListParts)
        } else {
            Ok(Operation::GetObject)
        },
        (PathShape::Object, Method::Head) => Ok(Operation::HeadObject),
        (PathShape::Object, Method::Post) => if flag(query, "uploads") {
            Ok(Operation::CreateMultipartUpload)
        } else if find_param(query, "uploadId", None) {
            Ok(Operation::CompleteMultipartUpload)
        } else {
            Err(AppError::InternalError)
        },
        (PathShape::Object, Method::Put) => if flag(query, "tagging") {
            Ok(Operation::PutObjectTagging)
        } else if find_param(query, "uploadId", None) {
            Ok(Operation::UploadPart)
        } else {
            Ok(Operation::PutObject)
        },
        _ => Err(AppError::MethodNotAllowed),
    }
}

} // verus!
