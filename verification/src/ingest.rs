//! What is computed while the bytes of a part are written: where each chunk
//! lands and the checksums of the whole part.
use vstd::prelude::*;

use crate::checksum::CrcKind;
use crate::checksum::Md5Hasher;
use crate::checksum::Sha1Hasher;
use crate::checksum::Sha256Hasher;
use crate::checksum::crc_absorbed;
use crate::checksum::crc_bytes;
use crate::checksum::crc_checksum;
use crate::checksum::crc_digest_new;
use crate::checksum::crc_digest_update;
use crate::checksum::crc_kind_of;
use crate::checksum::finalize_vec;
use crate::checksum::md5_absorbed;
use crate::checksum::md5_finalize;
use crate::checksum::md5_new;
use crate::checksum::md5_of;
use crate::checksum::md5_update;
use crate::checksum::sha1_absorbed;
use crate::checksum::sha1_finalize;
use crate::checksum::sha1_new;
use crate::checksum::sha1_of;
use crate::checksum::sha1_update;
use crate::checksum::sha256_absorbed;
use crate::checksum::sha256_finalize;
use crate::checksum::sha256_new;
use crate::checksum::sha256_of;
use crate::checksum::sha256_update;

verus! {

/// Where a chunk of a part is stored: its position among the chunks and the
/// offsets of its first and last byte within the part.
#[derive(Debug, Clone, Copy, PartialEq, Eq)]
pub struct ChunkPlacement {
    pub index: u64,
    pub start: u64,
    pub end: u64,
}

/// The size and checksums of a written part.
#[derive(Debug, Clone, PartialEq, Eq)]
pub struct PartDigests {
    pub size: u64,
    pub crc32: Vec<u8>,
    pub crc32_c: Vec<u8>,
    pub crc64_nvme: Vec<u8>,
    pub sha1: Vec<u8>,
    pub sha256: Vec<u8>,
    pub md5: Vec<u8>,
}

/// `n - 1`, or zero when `n` is zero.
pub open spec fn saturating_pred(n: nat) -> nat {
    if n == 0 {
        0
    } else {
        (n - 1) as nat
    }
}

/// The stored bytes of the checksum of `data` for a CRC variant.
pub open spec fn crc_stored(kind: CrcKind, data: Seq<u8>) -> Seq<u8> {
    crc_bytes(kind, crc_checksum(kind, data))
}

/// The part size and checksums owed for the bytes `data`.
pub open spec fn digests_of(r: PartDigests, data: Seq<u8>) -> bool {
    &&& r.size == data.len()
    &&& r.crc32@ == crc_stored(CrcKind::Crc32IsoHdlc, data)
    &&& r.crc32_c@ == crc_stored(CrcKind::Crc32Iscsi, data)
    &&& r.crc64_nvme@ == crc_stored(CrcKind::Crc64Nvme, data)
    &&& r.sha1@ == sha1_of(data)
    &&& r.sha256@ == sha256_of(data)
    &&& r.md5@ == md5_of(data)
}

/// Running state while the chunks of a part go by.
pub struct PartChecksums {
    size: u64,
    chunks: u64,
    crc32: crc_fast::Digest,
    crc32_c: crc_fast::Digest,
    crc64_nvme: crc_fast::Digest,
    sha1: Sha1Hasher,
    sha256: Sha256Hasher,
    md5: Md5Hasher,
    data: Ghost<Seq<u8>>,
}

impl PartChecksums {
    /// The bytes absorbed so far.
    pub closed spec fn absorbed(&self) -> Seq<u8> {
        self.data@
    }

    /// How many chunks went by so far.
    pub closed spec fn chunk_count(&self) -> nat {
        self.chunks as nat
    }

    /// Every checksum has absorbed exactly the bytes that went by.
    pub closed spec fn wf(&self) -> bool {
        &&& self.size == self.data@.len()
        &&& crc_absorbed(self.crc32) == self.data@
        &&& crc_kind_of(self.crc32) == CrcKind::Crc32IsoHdlc
        &&& crc_absorbed(self.crc32_c) == self.data@
        &&& crc_kind_of(self.crc32_c) == CrcKind::Crc32Iscsi
        &&& crc_absorbed(self.crc64_nvme) == self.data@
        &&& crc_kind_of(self.crc64_nvme) == CrcKind::Crc64Nvme
        &&& sha1_absorbed(self.sha1) == self.data@
        &&& sha256_absorbed(self.sha256) == self.data@
        &&& md5_absorbed(self.md5) == self.data@
    }

    /// Nothing absorbed yet.
    pub fn new() -> (r: Self)
        ensures
            r.wf(),
            r.absorbed() == Seq::<u8>::empty(),
            r.chunk_count() == 0,
    {
        PartChecksums {
            size: 0,
            chunks: 0,
            crc32: crc_digest_new(CrcKind::Crc32IsoHdlc),
            crc32_c: crc_digest_new(CrcKind::Crc32Iscsi),
            crc64_nvme: crc_digest_new(CrcKind::Crc64Nvme),
            sha1: sha1_new(),
            sha256: sha256_new(),
            md5: md5_new(),
            data: Ghost(Seq::empty()),
        }
    }

    /// Absorbs the next chunk and tells where it is stored: it starts where the
    /// bytes before it end, and its last byte is one before the new size.
    pub fn absorb(&mut self, chunk: &[u8]) -> (p: ChunkPlacement)
        requires
            old(self).wf(),
            old(self).absorbed().len() + chunk@.len() <= u64::MAX,
            old(self).chunk_count() < u64::MAX,
        ensures
            final(self).wf(),
            final(self).absorbed() == old(self).absorbed() + chunk@,
            final(self).chunk_count() == old(self).chunk_count() + 1,
            p.index == old(self).chunk_count(),
            p.start == old(self).absorbed().len(),
            p.end == saturating_pred(final(self).absorbed().len()),
    {
        let start = self.size;
        self.size = self.size + chunk.len() as u64;
        crc_digest_update(&mut self.crc32, chunk);
        crc_digest_update(&mut self.crc32_c, chunk);
        crc_digest_update(&mut self.crc64_nvme, chunk);
        sha1_update(&mut self.sha1, chunk);
        sha256_update(&mut self.sha256, chunk);
        md5_update(&mut self.md5, chunk);
        self.data = Ghost(self.data@ + chunk@);
        let index = self.chunks;
        self.chunks = self.chunks + 1;
        let end = if self.size == 0 {
            0
        } else {
            self.size - 1
        };
        ChunkPlacement { index, start, end }
    }

    /// The size of the part and the checksums of all its bytes.
    pub fn finish(self) -> (r: PartDigests)
        requires
            self.wf(),
        ensures
            digests_of(r, self.absorbed()),
    {
        PartDigests {
            size: self.size,
            crc32: finalize_vec(self.crc32),
            crc32_c: finalize_vec(self.crc32_c),
            crc64_nvme: finalize_vec(self.crc64_nvme),
            sha1: sha1_finalize(self.sha1),
            sha256: sha256_finalize(self.sha256),
            md5: md5_finalize(self.md5),
        }
    }
}

/// The chunk size of the parts of a multipart upload: five mebibytes.
pub const UPLOAD_PART_CHUNK_CAPACITY: usize = 5242880;

/// The chunk size of a version written in one piece: four mebibytes.
pub const VERSION_PART_CHUNK_CAPACITY: usize = 4194304;

/// Where a part written at `start` within its object lies: from `start` to
/// its last byte, `start + size - 1`; a part with no place has none. An empty
/// part at offset zero has no last byte, and is left out.
pub fn part_extent(start: Option<u64>, size: u64) -> (r: Option<(u64, u64)>)
    requires
        start matches Some(s) ==> 1 <= s + size <= u64::MAX,
    ensures
        r == match start {
            Some(s) => Some((s, (s + size - 1) as u64)),
            None => None::<(u64, u64)>,
        },
{
    match start {
        Some(s) => Some((s, s + size - 1)),
        None => None,
    }
}

/// Where the one part of a version written in one piece lies: from zero to
/// its last byte, or to zero when it is empty.
pub fn whole_part_extent(size: u64) -> (r: (u64, u64))
    ensures
        r == (0u64, saturating_pred(size as nat) as u64),
{
    (0, if size == 0 {
        0
    } else {
        size - 1
    })
}

} // verus!
