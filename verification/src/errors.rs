//! The S3 errors a request can end in.
use vstd::prelude::*;

verus! {

/// An S3 error code a request can be answered with.
#[derive(Debug, Clone, Copy, PartialEq, Eq)]
pub enum AppError {
    AccessDenied,
    BadDigest,
    BucketAlreadyExists,
    BucketAlreadyOwnedByYou,
    ConditionalRequestConflict,
    EncryptionTypeMismatch,
    IncompleteBody,
    InternalError,
    InvalidDigest,
    InvalidObjectState,
    InvalidPart,
    InvalidPartOrder,
    InvalidRange,
    InvalidTag,
    InvalidWriteOffset,
    MalformedXML,
    MethodNotAllowed,
    NoSuchBucket,
    NoSuchKey,
    NoSuchTagSet,
    NoSuchUpload,
    NoSuchVersion,
    NotImplemented,
    OperationAborted,
    PreconditionFailed,
    TooManyParts,
}

} // verus!
