//! The tags of a bucket, an upload or a version.
use vstd::prelude::*;

verus! {

/// The tags of a bucket, an upload or a version.
#[derive(Debug, Clone, PartialEq, Eq)]
pub struct Model {
    pub id: u128,
    pub bucket_id: Option<u128>,
    pub upload_id: Option<u128>,
    pub version_id: Option<u128>,
    pub created_at: i64,
    pub updated_at: Option<i64>,
}

impl Model {
    /// The instant of the last change: the update, else the creation.
    pub fn last_modified(&self) -> (r: i64)
        ensures
            r == match self.updated_at {
                Some(t) => t,
                None => self.created_at,
            },
    {
        match self.updated_at {
            Some(t) => t,
            None => self.created_at,
        }
    }
}

} // verus!
