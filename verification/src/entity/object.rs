//! A key of a bucket and the version that is its latest.
use vstd::prelude::*;

verus! {

/// A key of a bucket and the version that is its latest.
#[derive(Debug, Clone, PartialEq, Eq)]
pub struct Model {
    pub id: u128,
    pub bucket_id: u128,
    pub key: String,
    pub version_id: u128,
    pub created_at: i64,
    pub updated_at: Option<i64>,
}

} // verus!
