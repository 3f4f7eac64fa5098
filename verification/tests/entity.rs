use digest::Digest;
use minil::decimal::push_decimal;
use minil::entity::quoting::quote;
use minil::entity::upload_part;
use minil::entity::version;
use minil::uuid_ext::v4_from_random;
use minil::uuid_ext::v4_from_seed;

fn version_with(e_tag: Option<String>, md5: Option<Vec<u8>>, parts_count: Option<i16>) -> version::Model {
    version::Model {
        id: 12,
        object_id: 1,
        versioning: true,
        parts_count,
        mime: None,
        size: Some(5),
        crc32: None,
        crc32_c: None,
        crc64_nvme: None,
        sha1: None,
        sha256: None,
        md5,
        e_tag,
        created_at: 100,
        updated_at: None,
    }
}

#[test]
fn version_entity_tags() {
    let md5 = md5::Md5::digest(b"hello").to_vec();
    let v = version_with(None, Some(md5.clone()), Some(1));
    assert_eq!(v.e_tag(), "\"5d41402abc4b2a76b9719d911017c592\"");
    let v = version_with(Some("\"abc-2\"".to_string()), Some(md5), Some(2));
    assert_eq!(v.e_tag(), "\"abc-2\"");
}

#[test]
fn version_ids_and_counts() {
    let v = version_with(None, None, Some(3));
    assert_eq!(v.id(), 12);
    assert_eq!(v.mp_parts_count(), Some(3));
    assert_eq!(v.size(), 5);
    assert_eq!(v.last_modified(), 100);
    let mut v = version_with(None, None, Some(0));
    assert_eq!(v.mp_parts_count(), None);
    v.versioning = false;
    assert_eq!(v.id(), 0);
    v.updated_at = Some(200);
    assert_eq!(v.last_modified(), 200);
}

#[test]
fn upload_part_entity_tag() {
    let md5 = md5::Md5::digest(b"").to_vec();
    let p = upload_part::Model {
        id: 1,
        upload_id: 2,
        number: 1,
        size: 0,
        crc32: vec![0; 4],
        crc32_c: vec![0; 4],
        crc64_nvme: vec![0; 8],
        sha1: vec![],
        sha256: vec![],
        md5: md5.clone(),
        created_at: 1,
        updated_at: None,
    };
    assert_eq!(p.e_tag(), format!("\"{}\"", hex::encode(&md5)));
    assert_eq!(p.e_tag(), "\"d41d8cd98f00b204e9800998ecf8427e\"");
    assert_eq!(p.size(), 0);
    assert_eq!(p.last_modified(), 1);
}

#[test]
fn quoting_and_decimals() {
    assert_eq!(quote("abc"), "\"abc\"");
    assert_eq!(quote(""), "\"\"");
    let mut s = String::from("n=");
    push_decimal(&mut s, 0);
    assert_eq!(s, "n=0");
    let mut s = String::new();
    push_decimal(&mut s, 10);
    assert_eq!(s, "10");
    let mut s = String::new();
    push_decimal(&mut s, u64::MAX);
    assert_eq!(s, "18446744073709551615");
}

#[test]
fn uuids_are_version_four() {
    assert_eq!(v4_from_random(0), 0x0000_0000_0000_4000_8000_0000_0000_0000);
    assert_eq!(v4_from_random(u128::MAX), 0xFFFF_FFFF_FFFF_4FFF_BFFF_FFFF_FFFF_FFFF);
    let a = v4_from_seed("seed");
    let b = v4_from_seed("seed");
    assert_eq!(a, b);
    assert_eq!((a >> 76) & 0xF, 4);
    assert_eq!((a >> 62) & 0x3, 2);
    assert_ne!(v4_from_seed("seed"), v4_from_seed("other seed"));
}
