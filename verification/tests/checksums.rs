use digest::Digest;
use minil::checksum::finalize_vec;
use minil::entity::upload_part;
use minil::ingest::ChunkPlacement;
use minil::ingest::PartChecksums;
use minil::multipart::combine_upload_parts;

#[test]
fn finalize_vec_keeps_the_width_of_the_variant() {
    let mut d = crc_fast::Digest::new(crc_fast::CrcAlgorithm::Crc32IsoHdlc);
    d.update(b"123456789");
    assert_eq!(finalize_vec(d), vec![0xcb, 0xf4, 0x39, 0x26]);
    let mut d = crc_fast::Digest::new(crc_fast::CrcAlgorithm::Crc64Nvme);
    d.update(b"123456789");
    let expected = crc_fast::checksum(crc_fast::CrcAlgorithm::Crc64Nvme, b"123456789");
    assert_eq!(finalize_vec(d), expected.to_be_bytes().to_vec());
}

#[test]
fn part_checksums_cover_every_chunk() {
    let mut acc = PartChecksums::new();
    assert_eq!(acc.absorb(b"hello "), ChunkPlacement { index: 0, start: 0, end: 5 });
    assert_eq!(acc.absorb(b"world"), ChunkPlacement { index: 1, start: 6, end: 10 });
    let d = acc.finish();
    assert_eq!(d.size, 11);
    let crc32 = crc_fast::checksum(crc_fast::CrcAlgorithm::Crc32IsoHdlc, b"hello world") as u32;
    assert_eq!(d.crc32, crc32.to_be_bytes().to_vec());
    let crc32c = crc_fast::checksum(crc_fast::CrcAlgorithm::Crc32Iscsi, b"hello world") as u32;
    assert_eq!(d.crc32_c, crc32c.to_be_bytes().to_vec());
    assert_eq!(d.md5, md5::Md5::digest(b"hello world").to_vec());
    assert_eq!(d.sha1, sha1::Sha1::digest(b"hello world").to_vec());
    assert_eq!(d.sha256, sha2::Sha256::digest(b"hello world").to_vec());
}

#[test]
fn empty_chunk_ends_at_zero() {
    let mut acc = PartChecksums::new();
    assert_eq!(acc.absorb(b""), ChunkPlacement { index: 0, start: 0, end: 0 });
    assert_eq!(acc.finish().size, 0);
}

fn part_of(data: &[u8], number: i16) -> upload_part::Model {
    let mut acc = PartChecksums::new();
    acc.absorb(data);
    let d = acc.finish();
    upload_part::Model {
        id: number as u128,
        upload_id: 1,
        number,
        size: d.size as i64,
        crc32: d.crc32,
        crc32_c: d.crc32_c,
        crc64_nvme: d.crc64_nvme,
        sha1: d.sha1,
        sha256: d.sha256,
        md5: d.md5,
        created_at: 0,
        updated_at: None,
    }
}

#[test]
fn completed_upload_combines_its_parts() {
    let parts = vec![part_of(b"hello ", 1), part_of(b"world", 2)];
    let (combined, layout) = combine_upload_parts(&parts);
    assert_eq!(combined.parts_count, 2);
    assert_eq!(combined.size, 11);
    let whole = part_of(b"hello world", 1);
    assert_eq!(combined.crc32, whole.crc32);
    assert_eq!(combined.crc32_c, whole.crc32_c);
    assert_eq!(combined.crc64_nvme, whole.crc64_nvme);
    assert_eq!(combined.sha1, None);
    assert_eq!(combined.md5, None);
    let mut joined = parts[0].md5.clone();
    joined.extend_from_slice(&parts[1].md5);
    let expected = format!("\"{}-2\"", hex::encode(md5::Md5::digest(&joined)));
    assert_eq!(combined.e_tag, Some(expected));
    assert_eq!(layout.len(), 2);
    assert_eq!((layout[0].number, layout[0].start, layout[0].end), (1, 0, 5));
    assert_eq!((layout[1].number, layout[1].start, layout[1].end), (2, 6, 10));
}

#[test]
fn single_part_upload_keeps_the_part_digests() {
    let parts = vec![part_of(b"solo", 1)];
    let (combined, layout) = combine_upload_parts(&parts);
    assert_eq!(combined.parts_count, 1);
    assert_eq!(combined.e_tag, None);
    assert_eq!(combined.md5, Some(parts[0].md5.clone()));
    assert_eq!(combined.sha256, Some(parts[0].sha256.clone()));
    assert_eq!(combined.crc32, parts[0].crc32);
    assert_eq!((layout[0].start, layout[0].end), (0, 3));
}

#[test]
fn twelve_part_e_tag_counts_in_decimal() {
    let parts: Vec<_> = (1..=12).map(|n| part_of(&[n as u8], n)).collect();
    let (combined, _) = combine_upload_parts(&parts);
    assert!(combined.e_tag.unwrap().ends_with("-12\""));
}
