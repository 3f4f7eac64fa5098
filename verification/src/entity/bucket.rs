//! A bucket of an owner.
use vstd::prelude::*;

verus! {

/// A bucket of an owner.
#[derive(Debug, Clone, PartialEq, Eq)]
pub struct Model {
    pub id: u128,
    pub owner_id: u128,
    pub name: String,
    pub mfa_delete: Option<bool>,
    pub versioning: Option<bool>,
    pub created_at: i64,
    pub updated_at: Option<i64>,
}

impl Model {
    /// The instant of the last change: the update, else the creation.
    pub fn last_modified(&self) -> (r: i64)
        ensures
            r == match self.updated_at {
                Some(t) => t,
                None => self.created_at,
            },
    {
        match self.updated_at {
            Some(t) => t,
            None => self.created_at,
        }
    }
}

} // verus!
