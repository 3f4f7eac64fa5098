//! An owner of buckets.
use vstd::prelude::*;

verus! {

/// An owner of buckets.
#[derive(Debug, Clone, PartialEq, Eq)]
pub struct Model {
    pub id: u128,
    pub name: String,
    pub created_at: i64,
}

} // verus!
