//! A part of a version, with the offsets of its first and last byte within the version.
use vstd::prelude::*;

use crate::entity::quoting::e_tag_of_md5;
use crate::entity::quoting::md5_e_tag;

verus! {

/// A part of a version, with the offsets of its first and last byte within the version.
#[derive(Debug, Clone, PartialEq, Eq)]
pub struct Model {
    pub id: u128,
    pub version_id: u128,
    pub number: i16,
    pub start: i64,
    pub end: i64,
    pub size: i64,
    pub crc32: Vec<u8>,
    pub crc32_c: Vec<u8>,
    pub crc64_nvme: Vec<u8>,
    pub sha1: Vec<u8>,
    pub sha256: Vec<u8>,
    pub md5: Vec<u8>,
    pub created_at: i64,
}

impl Model {
    /// The size of the part's bytes.
    pub fn size(&self) -> (r: u64)
        ensures
            r == self.size as u64,
    {
        self.size as u64
    }

    /// The entity tag: the quoted hexadecimal MD5 digest of the part's bytes.
    pub fn e_tag(&self) -> (r: String)
        ensures
            r@ == md5_e_tag(self.md5@),
    {
        e_tag_of_md5(self.md5.as_slice())
    }

    /// The instant of the last change: its creation.
    pub fn last_modified(&self) -> (r: i64)
        ensures
            r == self.created_at,
    {
        self.created_at
    }
}

} // verus!
