//! The decisions of the S3 request handlers, from the request and the rows
//! the database gave back to the answer or the error. The queries themselves
//! are made by the caller between the steps.
pub mod complete;
pub mod listings;
pub mod object_read;
pub mod transaction;
