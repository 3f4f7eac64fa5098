//! A stretch of the bytes of a part, with the offsets of its first and last byte.
use vstd::prelude::*;

verus! {

/// A stretch of the bytes of a part, with the offsets of its first and last byte.
#[derive(Debug, Clone, PartialEq, Eq)]
pub struct Model {
    pub id: u128,
    pub upload_part_id: Option<u128>,
    pub version_part_id: Option<u128>,
    pub index: i64,
    pub start: i64,
    pub end: i64,
    pub data: Vec<u8>,
    pub created_at: i64,
    pub updated_at: Option<i64>,
}

impl Model {
    /// The instant of the last change: the update, else the creation.
    pub fn last_modified(&self) -> (r: i64)
        ensures
            r == match self.updated_at {
                Some(t) => t,
                None => self.created_at,
            },
    {
        match self.updated_at {
            Some(t) => t,
            None => self.created_at,
        }
    }
}

} // verus!
