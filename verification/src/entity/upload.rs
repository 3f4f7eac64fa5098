//! A multipart upload under way.
use vstd::prelude::*;

verus! {

/// A multipart upload under way.
#[derive(Debug, Clone, PartialEq, Eq)]
pub struct Model {
    pub id: u128,
    pub bucket_id: u128,
    pub key: String,
    pub mime: Option<String>,
    pub created_at: i64,
}

} // verus!
