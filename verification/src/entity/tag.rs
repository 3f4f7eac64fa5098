//! A key and value of a tag set.
use vstd::prelude::*;

verus! {

/// A key and value of a tag set.
#[derive(Debug, Clone, PartialEq, Eq)]
pub struct Model {
    pub id: u128,
    pub tag_set_id: u128,
    pub key: String,
    pub value: String,
    pub created_at: i64,
}

} // verus!
