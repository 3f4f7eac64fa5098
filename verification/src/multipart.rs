//! Completing a multipart upload: the version's size, checksums and entity
//! tag from those of its parts, and where each part lands in the version.
use vstd::prelude::*;

use crate::checksum::crc_bytes;
use crate::checksum::crc_checksum;
use crate::checksum::crc_checksum_combine;
use crate::checksum::crc_digest_finalize;
use crate::checksum::crc_digest_new;
use crate::checksum::crc_combined;
use crate::checksum::md5_absorbed;
use crate::checksum::md5_finalize;
use crate::checksum::md5_new;
use crate::checksum::md5_of;
use crate::checksum::md5_update;
use crate::checksum::u64_from_be;
use crate::checksum::u64_from_be_bytes;
use crate::checksum::u64_to_be_bytes;
use crate::checksum::CrcKind;
use crate::decimal::decimal;
use crate::decimal::push_decimal;
use crate::entity::quoting::quoted;
use crate::entity::upload_part;
use crate::hexcode::hex_encode;
use crate::hexcode::lower_hex;
use crate::ingest::saturating_pred;
use crate::reads::flatten;

verus! {

/// What a completed multipart upload records on its version.
#[derive(Debug, Clone, PartialEq, Eq)]
pub struct CombinedParts {
    pub parts_count: u16,
    pub size: u64,
    pub crc32: Vec<u8>,
    pub crc32_c: Vec<u8>,
    pub crc64_nvme: Vec<u8>,
    pub sha1: Option<Vec<u8>>,
    pub sha256: Option<Vec<u8>>,
    pub md5: Option<Vec<u8>>,
    pub e_tag: Option<String>,
}

/// Where a part of a completed upload lands in the version.
#[derive(Debug, Clone, Copy, PartialEq, Eq)]
pub struct PartLayout {
    pub number: i16,
    pub start: u64,
    pub end: u64,
}

/// The stored CRC of a part for a variant.
pub open spec fn stored_crc(kind: CrcKind, p: upload_part::Model) -> Seq<u8> {
    match kind {
        CrcKind::Crc32IsoHdlc => p.crc32@,
        CrcKind::Crc32Iscsi => p.crc32_c@,
        CrcKind::Crc64Nvme => p.crc64_nvme@,
    }
}

/// The value of a stored CRC: its bytes read big-endian, after four zero
/// bytes for a 32-bit variant.
pub open spec fn stored_crc_value(kind: CrcKind, p: upload_part::Model) -> u64 {
    match kind {
        CrcKind::Crc64Nvme => u64_from_be(stored_crc(kind, p)),
        _ => u64_from_be(seq![0u8, 0u8, 0u8, 0u8] + stored_crc(kind, p)),
    }
}

/// The stored CRCs have their variant's width.
pub open spec fn crcs_well_sized(parts: Seq<upload_part::Model>) -> bool {
    forall|i: int|
        0 <= i < parts.len() ==> {
            &&& (#[trigger] parts[i]).crc32@.len() == 4
            &&& parts[i].crc32_c@.len() == 4
            &&& parts[i].crc64_nvme@.len() == 8
        }
}

/// The sum of the part sizes.
pub open spec fn total_size(parts: Seq<upload_part::Model>) -> nat
    decreases parts.len(),
{
    if parts.len() == 0 {
        0
    } else {
        total_size(parts.drop_last()) + (parts.last().size as u64) as nat
    }
}

/// The CRC of the version, combined part by part from zero.
pub open spec fn combined_crc(kind: CrcKind, parts: Seq<upload_part::Model>) -> u64
    decreases parts.len(),
{
    if parts.len() == 0 {
        0
    } else {
        crc_combined(
            kind,
            combined_crc(kind, parts.drop_last()),
            stored_crc_value(kind, parts.last()),
            parts.last().size as u64,
        )
    }
}

/// The MD5 digests of the parts, end to end.
pub open spec fn md5s_end_to_end(parts: Seq<upload_part::Model>) -> Seq<u8>
    decreases parts.len(),
{
    if parts.len() == 0 {
        Seq::empty()
    } else {
        md5s_end_to_end(parts.drop_last()) + parts.last().md5@
    }
}

/// The entity tag of a multipart object: the MD5 digest of the parts' MD5
/// digests in hexadecimal, a dash and the part count, in double quotes.
pub open spec fn multipart_e_tag(parts: Seq<upload_part::Model>) -> Seq<char> {
    quoted(lower_hex(md5_of(md5s_end_to_end(parts))) + seq!['-'] + decimal(parts.len()))
}

/// `datas` are the bytes of the parts: one piece per part, as long as the
/// part's size, whose checksum for the variant is the part's stored one.
pub open spec fn parts_hold(kind: CrcKind, parts: Seq<upload_part::Model>, datas: Seq<Seq<u8>>) -> bool {
    &&& datas.len() == parts.len()
    &&& forall|i: int|
        0 <= i < parts.len() ==> {
            &&& (#[trigger] parts[i]).size as u64 == datas[i].len()
            &&& stored_crc_value(kind, parts[i]) == crc_checksum(kind, datas[i])
        }
}

/// Combining the stored checksums of the parts gives the checksum of the
/// parts' bytes end to end, whatever bytes they hold.
pub open spec fn combines_to_data(kind: CrcKind, parts: Seq<upload_part::Model>) -> bool {
    forall|datas: Seq<Seq<u8>>|
        #[trigger] parts_hold(kind, parts, datas) ==> combined_crc(kind, parts) == crc_checksum(
            kind,
            flatten(datas),
        )
}

/// The layout of part `i`: numbered from one (the number stored as an `i16`,
/// cut to its sixteen bits), starting where the parts before it end.
pub open spec fn layout_of(parts: Seq<upload_part::Model>, i: int) -> (i16, nat, nat) {
    ((i + 1) as i16, total_size(parts.take(i)), saturating_pred(total_size(parts.take(i + 1))))
}

/// What a completed upload of `parts` records on its version.
pub open spec fn combined_matches(r: CombinedParts, parts: Seq<upload_part::Model>) -> bool {
    &&& r.parts_count == parts.len()
    &&& r.size == total_size(parts)
    &&& r.crc32@ == crc_bytes(CrcKind::Crc32IsoHdlc, combined_crc(CrcKind::Crc32IsoHdlc, parts))
    &&& r.crc32_c@ == crc_bytes(CrcKind::Crc32Iscsi, combined_crc(CrcKind::Crc32Iscsi, parts))
    &&& r.crc64_nvme@ == crc_bytes(CrcKind::Crc64Nvme, combined_crc(CrcKind::Crc64Nvme, parts))
    &&& r.sha1 is Some == (parts.len() == 1)
    &&& r.sha1 is Some ==> r.sha1->0@ == parts[0].sha1@
    &&& r.sha256 is Some == (parts.len() == 1)
    &&& r.sha256 is Some ==> r.sha256->0@ == parts[0].sha256@
    &&& r.md5 is Some == (parts.len() == 1)
    &&& r.md5 is Some ==> r.md5->0@ == parts[0].md5@
    &&& r.e_tag is Some == (parts.len() != 1)
    &&& r.e_tag is Some ==> r.e_tag->0@ == multipart_e_tag(parts)
}

/// The bytes of a stored CRC widened to eight, zeros first.
fn widen_crc(bytes: &Vec<u8>) -> (r: u64)
    requires
        bytes@.len() == 4,
    ensures
        r == u64_from_be(seq![0u8, 0u8, 0u8, 0u8] + bytes@),
{
    let mut wide: Vec<u8> = Vec::new();
    wide.push(0);
    wide.push(0);
    wide.push(0);
    wide.push(0);
    wide.push(bytes[0]);
    wide.push(bytes[1]);
    wide.push(bytes[2]);
    wide.push(bytes[3]);
    assert(wide@ =~= seq![0u8, 0u8, 0u8, 0u8] + bytes@);
    u64_from_be_bytes(wide.as_slice())
}

/// The last four of the eight big-endian bytes of `v`.
fn low_four_be_bytes(v: u64) -> (r: Vec<u8>)
    ensures
        r@ == crc_bytes(CrcKind::Crc32IsoHdlc, v),
{
    let bytes = u64_to_be_bytes(v);
    let mut r: Vec<u8> = Vec::new();
    r.push(bytes[4]);
    r.push(bytes[5]);
    r.push(bytes[6]);
    r.push(bytes[7]);
    assert(r@ =~= bytes@.skip(4));
    r
}

/// Combines the parts of a completed upload, in order, into what the version
/// records, and lays the parts out one after the other.
pub fn combine_upload_parts(parts: &Vec<upload_part::Model>) -> (r: (CombinedParts, Vec<PartLayout>))
    requires
        parts.len() <= u16::MAX,
        total_size(parts@) <= u64::MAX,
        crcs_well_sized(parts@),
    ensures
        combined_matches(r.0, parts@),
        r.1@.len() == parts.len(),
        forall|i: int|
            0 <= i < parts.len() ==> {
                let (number, start, end) = layout_of(parts@, i);
                &&& (#[trigger] r.1@[i]).number == number
                &&& r.1@[i].start == start
                &&& r.1@[i].end == end
            },
        forall|kind: CrcKind| #[trigger] combines_to_data(kind, parts@),
{
    let mut parts_count: u16 = 0;
    let mut size: u64 = 0;
    let mut crc32: u64 = empty_crc(CrcKind::Crc32IsoHdlc);
    let mut crc32_c: u64 = empty_crc(CrcKind::Crc32Iscsi);
    let mut crc64_nvme: u64 = empty_crc(CrcKind::Crc64Nvme);
    proof {
        lemma_combines_empty(CrcKind::Crc32IsoHdlc, parts@);
        lemma_combines_empty(CrcKind::Crc32Iscsi, parts@);
        lemma_combines_empty(CrcKind::Crc64Nvme, parts@);
    }
    let mut e_tag = md5_new();
    let mut layout: Vec<PartLayout> = Vec::new();
    let mut i: usize = 0;
    while i < parts.len()
        invariant
            i <= parts.len(),
            parts.len() <= u16::MAX,
            total_size(parts@) <= u64::MAX,
            crcs_well_sized(parts@),
            parts_count == i,
            size == total_size(parts@.take(i as int)),
            crc32 == combined_crc(CrcKind::Crc32IsoHdlc, parts@.take(i as int)),
            crc32_c == combined_crc(CrcKind::Crc32Iscsi, parts@.take(i as int)),
            crc64_nvme == combined_crc(CrcKind::Crc64Nvme, parts@.take(i as int)),
            md5_absorbed(e_tag) == md5s_end_to_end(parts@.take(i as int)),
            combines_to_data(CrcKind::Crc32IsoHdlc, parts@.take(i as int)),
            combines_to_data(CrcKind::Crc32Iscsi, parts@.take(i as int)),
            combines_to_data(CrcKind::Crc64Nvme, parts@.take(i as int)),
            layout@.len() == i,
            forall|k: int|
                0 <= k < i ==> {
                    let (number, start, end) = layout_of(parts@, k);
                    &&& (#[trigger] layout@[k]).number == number
                    &&& layout@[k].start == start
                    &&& layout@[k].end == end
                },
        decreases parts.len() - i,
    {
        let part = &parts[i];
        let ghost before = parts@.take(i as int);
        let ghost after = parts@.take(i + 1);
        assert(after.drop_last() =~= before);
        assert(after.last() == parts@[i as int]);
        proof {
            lemma_total_size_prefix(parts@, i + 1);
        }
        let part_size = part.size as u64;
        let start = size;
        parts_count = parts_count + 1;
        size = size + part_size;
        crc32 = crc_checksum_combine(CrcKind::Crc32IsoHdlc, crc32, widen_crc(&part.crc32), part_size);
        proof {
            lemma_combines_step(CrcKind::Crc32IsoHdlc, parts@, i as int);
        }
        crc32_c = crc_checksum_combine(CrcKind::Crc32Iscsi, crc32_c, widen_crc(&part.crc32_c), part_size);
        proof {
            lemma_combines_step(CrcKind::Crc32Iscsi, parts@, i as int);
        }
        crc64_nvme = crc_checksum_combine(
            CrcKind::Crc64Nvme,
            crc64_nvme,
            u64_from_be_bytes(part.crc64_nvme.as_slice()),
            part_size,
        );
        proof {
            lemma_combines_step(CrcKind::Crc64Nvme, parts@, i as int);
        }
        md5_update(&mut e_tag, part.md5.as_slice());
        let end = if size == 0 {
            0
        } else {
            size - 1
        };
        let number = (i + 1) as i16;
        layout.push(PartLayout { number, start, end });
        i = i + 1;
    }
    assert(parts@.take(parts.len() as int) =~= parts@);
    assert forall|kind: CrcKind| #[trigger] combines_to_data(kind, parts@) by {
        match kind {
            CrcKind::Crc32IsoHdlc => {},
            CrcKind::Crc32Iscsi => {},
            CrcKind::Crc64Nvme => {},
        }
    }
    let crc64_bytes = u64_to_be_bytes(crc64_nvme);
    assert(crc64_bytes@.skip(0) =~= crc64_bytes@);
    let single = parts_count == 1;
    let digest = md5_finalize(e_tag);
    let e_tag_text = if single {
        None
    } else {
        let mut t = hex_encode(digest.as_slice());
        let dash = "-";
        proof {
            reveal_strlit("-");
        }
        t.append(dash);
        push_decimal(&mut t, parts_count as u64);
        assert(digest@ == md5_of(md5s_end_to_end(parts@)));
        assert(t@ =~= lower_hex(md5_of(md5s_end_to_end(parts@))) + seq!['-'] + decimal(parts@.len()));
        Some(crate::entity::quoting::quote(t.as_str()))
    };
    let combined = CombinedParts {
        parts_count,
        size,
        crc32: low_four_be_bytes(crc32),
        crc32_c: low_four_be_bytes(crc32_c),
        crc64_nvme: crc64_bytes,
        sha1: if single {
            Some(parts[0].sha1.clone())
        } else {
            None
        },
        sha256: if single {
            Some(parts[0].sha256.clone())
        } else {
            None
        },
        md5: if single {
            Some(parts[0].md5.clone())
        } else {
            None
        },
        e_tag: e_tag_text,
    };
    (combined, layout)
}

/// The checksum of no bytes, from a fresh digest: zero.
fn empty_crc(kind: CrcKind) -> (r: u64)
    ensures
        r == 0,
        r == crc_checksum(kind, Seq::empty()),
{
    let d = crc_digest_new(kind);
    crc_digest_finalize(&d)
}

/// No parts combine to the checksum of no bytes.
proof fn lemma_combines_empty(kind: CrcKind, parts: Seq<upload_part::Model>)
    requires
        crc_checksum(kind, Seq::empty()) == 0,
    ensures
        combines_to_data(kind, parts.take(0)),
{
    assert forall|datas: Seq<Seq<u8>>| #[trigger] parts_hold(kind, parts.take(0), datas) implies combined_crc(
        kind,
        parts.take(0),
    ) == crc_checksum(kind, flatten(datas)) by {
        assert(datas =~= Seq::<Seq<u8>>::empty());
        assert(flatten(datas) =~= Seq::<u8>::empty());
    }
}

/// One more part keeps the checksums combining to those of the bytes, given
/// what `crc_fast::checksum_combine` is known to do on the step's values.
proof fn lemma_combines_step(kind: CrcKind, parts: Seq<upload_part::Model>, i: int)
    requires
        0 <= i < parts.len(),
        combines_to_data(kind, parts.take(i)),
        forall|a: Seq<u8>, b: Seq<u8>|
            combined_crc(kind, parts.take(i)) == #[trigger] crc_checksum(kind, a)
                && stored_crc_value(kind, parts[i]) == #[trigger] crc_checksum(kind, b)
                && parts[i].size as u64 == b.len() ==> crc_combined(
                kind,
                combined_crc(kind, parts.take(i)),
                stored_crc_value(kind, parts[i]),
                parts[i].size as u64,
            ) == crc_checksum(kind, a + b),
        forall|b: Seq<u8>|
            combined_crc(kind, parts.take(i)) == 0 && stored_crc_value(kind, parts[i])
                == #[trigger] crc_checksum(kind, b) && parts[i].size as u64 == b.len()
                ==> crc_combined(
                kind,
                combined_crc(kind, parts.take(i)),
                stored_crc_value(kind, parts[i]),
                parts[i].size as u64,
            ) == stored_crc_value(kind, parts[i]),
    ensures
        combines_to_data(kind, parts.take(i + 1)),
{
    let before = parts.take(i);
    let after = parts.take(i + 1);
    assert(after.drop_last() =~= before);
    assert(after.last() == parts[i]);
    assert forall|datas: Seq<Seq<u8>>| #[trigger] parts_hold(kind, after, datas) implies combined_crc(
        kind,
        after,
    ) == crc_checksum(kind, flatten(datas)) by {
        assert(after[i] == parts[i]);
        assert(datas.drop_last().len() == i);
        assert(datas.last() == datas[i]);
        let b = datas[i];
        assert(parts[i].size as u64 == b.len());
        assert(stored_crc_value(kind, parts[i]) == crc_checksum(kind, b));
        if i == 0 {
            assert(datas.drop_last() =~= Seq::<Seq<u8>>::empty());
            assert(flatten(datas.drop_last()) =~= Seq::<u8>::empty());
            assert(flatten(datas) =~= b);
            assert(combined_crc(kind, before) == 0);
        } else {
            assert forall|j: int| 0 <= j < before.len() implies {
                &&& (#[trigger] before[j]).size as u64 == datas.drop_last()[j].len()
                &&& stored_crc_value(kind, before[j]) == crc_checksum(kind, datas.drop_last()[j])
            } by {
                assert(before[j] == after[j]);
            }
            assert(parts_hold(kind, before, datas.drop_last()));
            let a = flatten(datas.drop_last());
            assert(combined_crc(kind, before) == crc_checksum(kind, a));
        }
    }
}

/// The parts are laid out one after the other: each starts where the one
/// before it ends, and a part with bytes ends at its start plus its size less one.
pub proof fn lemma_layout_contiguous(parts: Seq<upload_part::Model>, i: int)
    requires
        0 <= i < parts.len(),
    ensures
        layout_of(parts, i).2 == saturating_pred(layout_of(parts, i).1 + (parts[i].size as u64) as nat),
        i + 1 < parts.len() ==> layout_of(parts, i + 1).1 == layout_of(parts, i).1 + (
        parts[i].size as u64) as nat,
{
    assert(parts.take(i + 1).drop_last() =~= parts.take(i));
    assert(parts.take(i + 1).last() == parts[i]);
}

/// The sizes of a prefix of the parts sum to no more than all of them.
proof fn lemma_total_size_prefix(parts: Seq<upload_part::Model>, n: int)
    requires
        0 <= n <= parts.len(),
    ensures
        total_size(parts.take(n)) <= total_size(parts),
    decreases parts.len() - n,
{
    if n < parts.len() {
        lemma_total_size_prefix(parts, n + 1);
        assert(parts.take(n + 1).drop_last() =~= parts.take(n));
    } else {
        assert(parts.take(n) =~= parts);
    }
}

} // verus!
