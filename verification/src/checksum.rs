//! Checksums of stored bytes: the CRCs of `crc_fast` and the MD5, SHA-1 and
//! SHA-256 hashers of RustCrypto, accumulated chunk by chunk.
use vstd::prelude::*;

use crc_fast::CrcAlgorithm;

verus! {

#[verifier::external_type_specification]
#[verifier::external_body]
pub struct ExCrcDigest(crc_fast::Digest);

/// The CRC variants a stored object carries.
#[derive(Debug, Clone, Copy, PartialEq, Eq)]
pub enum CrcKind {
    /// CRC-32/ISO-HDLC, the common CRC-32.
    Crc32IsoHdlc,
    /// CRC-32/ISCSI, also called CRC-32C.
    Crc32Iscsi,
    /// CRC-64/NVME.
    Crc64Nvme,
}

/// The width of a CRC variant, in bytes.
pub open spec fn crc_width(kind: CrcKind) -> nat {
    match kind {
        CrcKind::Crc32IsoHdlc => 4,
        CrcKind::Crc32Iscsi => 4,
        CrcKind::Crc64Nvme => 8,
    }
}

/// The bytes a CRC digest has absorbed.
pub uninterp spec fn crc_absorbed(d: crc_fast::Digest) -> Seq<u8>;

/// The CRC variant a CRC digest was made for.
pub uninterp spec fn crc_kind_of(d: crc_fast::Digest) -> CrcKind;

/// The checksum `crc_fast` computes over `data` for a CRC variant.
pub uninterp spec fn crc_checksum(kind: CrcKind, data: Seq<u8>) -> u64;

/// What `crc_fast::checksum_combine` returns.
pub uninterp spec fn crc_combined(kind: CrcKind, crc1: u64, crc2: u64, len2: u64) -> u64;

/// `crc_fast::Digest::new`: a digest for the variant that has absorbed nothing.
#[verifier::external_body]
pub(crate) fn crc_digest_new(kind: CrcKind) -> (r: crc_fast::Digest)
    ensures
        crc_absorbed(r) == Seq::<u8>::empty(),
        crc_kind_of(r) == kind,
{
    crc_fast::Digest::new(
        match kind {
            CrcKind::Crc32IsoHdlc => CrcAlgorithm::Crc32IsoHdlc,
            CrcKind::Crc32Iscsi => CrcAlgorithm::Crc32Iscsi,
            CrcKind::Crc64Nvme => CrcAlgorithm::Crc64Nvme,
        },
    )
}

/// `crc_fast::Digest::update`: absorbs `data` after what was absorbed before.
#[verifier::external_body]
pub(crate) fn crc_digest_update(d: &mut crc_fast::Digest, data: &[u8])
    ensures
        crc_absorbed(*final(d)) == crc_absorbed(*old(d)) + data@,
        crc_kind_of(*final(d)) == crc_kind_of(*old(d)),
{
    d.update(data)
}

/// `crc_fast::Digest::finalize`: the checksum of all that was absorbed. For
/// the three variants used here the initial value equals the final xor, so
/// the checksum of no bytes is zero.
#[verifier::external_body]
pub(crate) fn crc_digest_finalize(d: &crc_fast::Digest) -> (r: u64)
    ensures
        r == crc_checksum(crc_kind_of(*d), crc_absorbed(*d)),
        crc_absorbed(*d).len() == 0 ==> r == 0,
{
    d.finalize()
}

/// `DynDigest::output_size` of `crc_fast::Digest`: the width of its variant in bytes.
#[verifier::external_body]
pub(crate) fn crc_digest_output_size(d: &crc_fast::Digest) -> (r: usize)
    ensures
        r == crc_width(crc_kind_of(*d)),
{
    digest::DynDigest::output_size(d)
}

/// `crc_fast::checksum_combine`: the checksum of two pieces of data put end to
/// end, from the checksum of each and the length of the second.
#[verifier::external_body]
pub(crate) fn crc_checksum_combine(kind: CrcKind, crc1: u64, crc2: u64, len2: u64) -> (r: u64)
    ensures
        r == crc_combined(kind, crc1, crc2, len2),
        forall|a: Seq<u8>, b: Seq<u8>|
            crc1 == #[trigger] crc_checksum(kind, a) && crc2 == #[trigger] crc_checksum(kind, b)
                && len2 == b.len() ==> r == crc_checksum(kind, a + b),
        forall|b: Seq<u8>|
            crc1 == 0 && crc2 == #[trigger] crc_checksum(kind, b) && len2 == b.len() ==> r == crc2,
{
    crc_fast::checksum_combine(
        match kind {
            CrcKind::Crc32IsoHdlc => CrcAlgorithm::Crc32IsoHdlc,
            CrcKind::Crc32Iscsi => CrcAlgorithm::Crc32Iscsi,
            CrcKind::Crc64Nvme => CrcAlgorithm::Crc64Nvme,
        },
        crc1,
        crc2,
        len2,
    )
}


/// A MD5 hasher. The `md5::Md5` it holds stands in a private field of a struct
/// of this crate: Verus cannot take the `typenum` generics its type is built of.
#[verifier::external_body]
pub struct Md5Hasher {
    inner: md5::Md5,
}

/// The bytes a MD5 hasher has absorbed.
pub uninterp spec fn md5_absorbed(h: Md5Hasher) -> Seq<u8>;

/// The MD5 digest of `data`.
pub uninterp spec fn md5_of(data: Seq<u8>) -> Seq<u8>;

/// `Digest::new` for `md5::Md5`: a hasher that has absorbed nothing.
#[verifier::external_body]
pub fn md5_new() -> (r: Md5Hasher)
    ensures
        md5_absorbed(r) == Seq::<u8>::empty(),
{
    Md5Hasher { inner: <md5::Md5 as digest::Digest>::new() }
}

/// `Digest::update` for `md5::Md5`: absorbs `data` after what was absorbed before.
#[verifier::external_body]
pub fn md5_update(h: &mut Md5Hasher, data: &[u8])
    ensures
        md5_absorbed(*final(h)) == md5_absorbed(*old(h)) + data@,
{
    digest::Digest::update(&mut h.inner, data)
}

/// `Digest::finalize` for `md5::Md5`: the 16-byte digest of all that was absorbed.
#[verifier::external_body]
pub(crate) fn md5_finalize(h: Md5Hasher) -> (r: Vec<u8>)
    ensures
        r@ == md5_of(md5_absorbed(h)),
        r@.len() == 16,
{
    digest::Digest::finalize(h.inner).to_vec()
}

/// A SHA-1 hasher. The `sha1::Sha1` it holds stands in a private field of a struct
/// of this crate: Verus cannot take the `typenum` generics its type is built of.
#[verifier::external_body]
pub struct Sha1Hasher {
    inner: sha1::Sha1,
}

/// The bytes a SHA-1 hasher has absorbed.
pub uninterp spec fn sha1_absorbed(h: Sha1Hasher) -> Seq<u8>;

/// The SHA-1 digest of `data`.
pub uninterp spec fn sha1_of(data: Seq<u8>) -> Seq<u8>;

/// `Digest::new` for `sha1::Sha1`: a hasher that has absorbed nothing.
#[verifier::external_body]
pub(crate) fn sha1_new() -> (r: Sha1Hasher)
    ensures
        sha1_absorbed(r) == Seq::<u8>::empty(),
{
    Sha1Hasher { inner: <sha1::Sha1 as digest::Digest>::new() }
}

/// `Digest::update` for `sha1::Sha1`: absorbs `data` after what was absorbed before.
#[verifier::external_body]
pub(crate) fn sha1_update(h: &mut Sha1Hasher, data: &[u8])
    ensures
        sha1_absorbed(*final(h)) == sha1_absorbed(*old(h)) + data@,
{
    digest::Digest::update(&mut h.inner, data)
}

/// `Digest::finalize` for `sha1::Sha1`: the 20-byte digest of all that was absorbed.
#[verifier::external_body]
pub(crate) fn sha1_finalize(h: Sha1Hasher) -> (r: Vec<u8>)
    ensures
        r@ == sha1_of(sha1_absorbed(h)),
        r@.len() == 20,
{
    digest::Digest::finalize(h.inner).to_vec()
}

/// A SHA-256 hasher. The `sha2::Sha256` it holds stands in a private field of a struct
/// of this crate: Verus cannot take the `typenum` generics its type is built of.
#[verifier::external_body]
pub struct Sha256Hasher {
    inner: sha2::Sha256,
}

/// The bytes a SHA-256 hasher has absorbed.
pub uninterp spec fn sha256_absorbed(h: Sha256Hasher) -> Seq<u8>;

/// The SHA-256 digest of `data`.
pub uninterp spec fn sha256_of(data: Seq<u8>) -> Seq<u8>;

/// `Digest::new` for `sha2::Sha256`: a hasher that has absorbed nothing.
#[verifier::external_body]
pub(crate) fn sha256_new() -> (r: Sha256Hasher)
    ensures
        sha256_absorbed(r) == Seq::<u8>::empty(),
{
    Sha256Hasher { inner: <sha2::Sha256 as digest::Digest>::new() }
}

/// `Digest::update` for `sha2::Sha256`: absorbs `data` after what was absorbed before.
#[verifier::external_body]
pub(crate) fn sha256_update(h: &mut Sha256Hasher, data: &[u8])
    ensures
        sha256_absorbed(*final(h)) == sha256_absorbed(*old(h)) + data@,
{
    digest::Digest::update(&mut h.inner, data)
}

/// `Digest::finalize` for `sha2::Sha256`: the 32-byte digest of all that was absorbed.
#[verifier::external_body]
pub(crate) fn sha256_finalize(h: Sha256Hasher) -> (r: Vec<u8>)
    ensures
        r@ == sha256_of(sha256_absorbed(h)),
        r@.len() == 32,
{
    digest::Digest::finalize(h.inner).to_vec()
}

/// The eight bytes of `v`, most significant first.
pub open spec fn u64_be_bytes(v: u64) -> Seq<u8> {
    seq![
        (v >> 56) as u8,
        (v >> 48) as u8,
        (v >> 40) as u8,
        (v >> 32) as u8,
        (v >> 24) as u8,
        (v >> 16) as u8,
        (v >> 8) as u8,
        v as u8,
    ]
}

/// The eight bytes of `v`, most significant first.
pub fn u64_to_be_bytes(v: u64) -> (r: Vec<u8>)
    ensures
        r@ == u64_be_bytes(v),
{
    let mut r: Vec<u8> = Vec::new();
    r.push((v >> 56) as u8);
    r.push((v >> 48) as u8);
    r.push((v >> 40) as u8);
    r.push((v >> 32) as u8);
    r.push((v >> 24) as u8);
    r.push((v >> 16) as u8);
    r.push((v >> 8) as u8);
    r.push(v as u8);
    assert(r@ =~= u64_be_bytes(v));
    r
}

/// The value of eight bytes, most significant first.
pub open spec fn u64_from_be(b: Seq<u8>) -> u64
    recommends
        b.len() == 8,
{
    (b[0] as u64) << 56 | (b[1] as u64) << 48 | (b[2] as u64) << 40 | (b[3] as u64) << 32 | (
    b[4] as u64) << 24 | (b[5] as u64) << 16 | (b[6] as u64) << 8 | (b[7] as u64)
}

/// The value of eight bytes, most significant first.
pub fn u64_from_be_bytes(b: &[u8]) -> (r: u64)
    requires
        b@.len() == 8,
    ensures
        r == u64_from_be(b@),
{
    (b[0] as u64) << 56 | (b[1] as u64) << 48 | (b[2] as u64) << 40 | (b[3] as u64) << 32 | (
    b[4] as u64) << 24 | (b[5] as u64) << 16 | (b[6] as u64) << 8 | (b[7] as u64)
}

/// The bytes a finished CRC is stored as: its value's big-endian bytes, cut to the width.
pub open spec fn crc_bytes(kind: CrcKind, value: u64) -> Seq<u8> {
    u64_be_bytes(value).skip(8 - crc_width(kind))
}

/// Finishes a CRC digest into its stored bytes: the last four big-endian bytes
/// of the checksum for a 32-bit variant, all eight for a 64-bit one.
pub fn finalize_vec(digest: crc_fast::Digest) -> (r: Vec<u8>)
    ensures
        r@ == crc_bytes(crc_kind_of(digest), crc_checksum(crc_kind_of(digest), crc_absorbed(digest))),
{
    let result = crc_digest_finalize(&digest);
    let bytes = u64_to_be_bytes(result);
    if crc_digest_output_size(&digest) == 4 {
        let mut out: Vec<u8> = Vec::new();
        let mut i: usize = 4;
        while i < 8
            invariant
                4 <= i <= 8,
                bytes@ == u64_be_bytes(result),
                out@ == bytes@.subrange(4, i as int),
            decreases 8 - i,
        {
            out.push(bytes[i]);
            i = i + 1;
        }
        assert(out@ =~= bytes@.skip(4));
        out
    } else {
        bytes
    }
}

} // verus!
