//! A version of an object: its bytes' size and checksums, or a delete marker.
use vstd::prelude::*;

use crate::entity::quoting::e_tag_of_md5;
use crate::entity::quoting::md5_e_tag;

verus! {

/// A version of an object. A delete marker has no part count.
#[derive(Debug, Clone, PartialEq, Eq)]
pub struct Model {
    pub id: u128,
    pub object_id: u128,
    pub versioning: bool,
    pub parts_count: Option<i16>,
    pub mime: Option<String>,
    pub size: Option<i64>,
    pub crc32: Option<Vec<u8>>,
    pub crc32_c: Option<Vec<u8>>,
    pub crc64_nvme: Option<Vec<u8>>,
    pub sha1: Option<Vec<u8>>,
    pub sha256: Option<Vec<u8>>,
    pub md5: Option<Vec<u8>>,
    pub e_tag: Option<String>,
    pub created_at: i64,
    pub updated_at: Option<i64>,
}

impl Model {
    /// Whether the version is a delete marker.
    pub open spec fn is_delete_marker(&self) -> bool {
        self.parts_count is None
    }

    /// The version id handed to clients: the id itself when the version was
    /// written with versioning on, the nil id otherwise.
    pub open spec fn spec_id(&self) -> u128 {
        if self.versioning {
            self.id
        } else {
            0
        }
    }

    /// The version id handed to clients.
    pub fn id(&self) -> (r: u128)
        ensures
            r == self.spec_id(),
    {
        if self.versioning {
            self.id
        } else {
            0
        }
    }

    /// The part count of a multipart object: `None` for an object written in one piece.
    pub fn mp_parts_count(&self) -> (r: Option<u16>)
        requires
            self.parts_count is Some,
        ensures
            r == (if self.parts_count->0 as u16 != 0 {
                Some(self.parts_count->0 as u16)
            } else {
                None::<u16>
            }),
    {
        let parts_count = self.parts_count.unwrap() as u16;
        if parts_count != 0 {
            Some(parts_count)
        } else {
            None
        }
    }

    /// The size of the version's bytes.
    pub fn size(&self) -> (r: u64)
        requires
            self.size is Some,
        ensures
            r == self.size->0 as u64,
    {
        self.size.unwrap() as u64
    }

    /// The entity tag: the stored one (that of a multipart object), else the
    /// quoted hexadecimal MD5 digest of the bytes.
    pub open spec fn spec_e_tag(&self) -> Seq<char> {
        match self.e_tag {
            Some(t) => t@,
            None => md5_e_tag(self.md5->0@),
        }
    }

    /// The entity tag.
    pub fn e_tag(&self) -> (r: String)
        requires
            self.e_tag is Some || self.md5 is Some,
        ensures
            r@ == self.spec_e_tag(),
    {
        match &self.e_tag {
            Some(t) => t.clone(),
            None => {
                let md5 = self.md5.as_ref().unwrap();
                e_tag_of_md5(md5.as_slice())
            },
        }
    }

    /// The instant of the last change: the update, else the creation.
    pub fn last_modified(&self) -> (r: i64)
        ensures
            r == match self.updated_at {
                Some(t) => t,
                None => self.created_at,
            },
    {
        match self.updated_at {
            Some(t) => t,
            None => self.created_at,
        }
    }
}

} // verus!
