use digest::Digest;
use minil::checksum::md5_new;
use minil::checksum::md5_update;
use minil::entity::quoting::e_tag_of_md5;
use minil::errors::AppError;
use minil::requests::check_content_md5;
use minil::requests::parse_completed_parts;
use minil::requests::parse_e_tag_md5;
use minil::requests::reject_unsupported;
use minil::requests::strip_e_tag_quotes;
use minil::requests::validate_owner;
use minil::requests::validate_tag_keys;
use minil::requests::CompletedPart;
use minil::requests::PartFilter;
use minil::requests::MAX_BUCKET_TAGS;
use minil::requests::MAX_OBJECT_TAGS;

fn keys(names: &[&str]) -> Vec<String> {
    names.iter().map(|s| s.to_string()).collect()
}

#[test]
fn owner_is_checked_only_when_expected() {
    assert_eq!(validate_owner(&None, &"alice".to_string()), Ok(()));
    assert_eq!(validate_owner(&Some("alice".to_string()), &"alice".to_string()), Ok(()));
    assert_eq!(
        validate_owner(&Some("bob".to_string()), &"alice".to_string()),
        Err(AppError::AccessDenied)
    );
}

#[test]
fn tag_sets_are_limited_and_keys_distinct() {
    assert_eq!(validate_tag_keys(&keys(&[]), MAX_OBJECT_TAGS), Ok(()));
    assert_eq!(validate_tag_keys(&keys(&["a", "b", "c"]), MAX_OBJECT_TAGS), Ok(()));
    assert_eq!(
        validate_tag_keys(&keys(&["a", "b", "a"]), MAX_OBJECT_TAGS),
        Err(AppError::InvalidTag)
    );
    let eleven: Vec<String> = (0..11).map(|i| format!("k{i}")).collect();
    assert_eq!(validate_tag_keys(&eleven, MAX_OBJECT_TAGS), Err(AppError::InvalidTag));
    assert_eq!(validate_tag_keys(&eleven, MAX_BUCKET_TAGS), Ok(()));
    let fifty_one: Vec<String> = (0..51).map(|i| format!("k{i}")).collect();
    assert_eq!(validate_tag_keys(&fifty_one, MAX_BUCKET_TAGS), Err(AppError::InvalidTag));
}

#[test]
fn quotes_are_stripped_only_in_pairs_from_the_end() {
    assert_eq!(strip_e_tag_quotes("\"abc\""), "abc");
    assert_eq!(strip_e_tag_quotes("abc\""), "abc");
    assert_eq!(strip_e_tag_quotes("\"abc"), "\"abc");
    assert_eq!(strip_e_tag_quotes("abc"), "abc");
    assert_eq!(strip_e_tag_quotes("\""), "\"");
    assert_eq!(strip_e_tag_quotes("\"\""), "");
    assert_eq!(strip_e_tag_quotes(""), "");
}

#[test]
fn e_tag_spells_an_md5_digest() {
    let md5 = md5::Md5::digest(b"part one").to_vec();
    let tag = e_tag_of_md5(&md5);
    assert_eq!(tag, format!("\"{}\"", hex::encode(&md5)));
    assert_eq!(parse_e_tag_md5(&tag), Some(md5.clone()));
    assert_eq!(parse_e_tag_md5(&hex::encode(&md5)), Some(md5));
    assert_eq!(parse_e_tag_md5("\"abcd\""), None);
    assert_eq!(parse_e_tag_md5("\"zz000000000000000000000000000000\""), None);
}

#[test]
fn hex_text_round_trips() {
    let md5: Vec<u8> = (0u8..16).map(|b| b * 17).collect();
    assert_eq!(e_tag_of_md5(&md5), "\"00112233445566778899aabbccddeeff\"");
    assert_eq!(parse_e_tag_md5("00112233445566778899AABBCCDDEEFF"), Some(md5));
    assert_eq!(parse_e_tag_md5("0011223344556677889"), None);
    assert_eq!(parse_e_tag_md5("zz112233445566778899aabbccddeeff"), None);
}

#[test]
fn completed_parts_become_filters() {
    let md5 = md5::Md5::digest(b"data").to_vec();
    let parts = vec![
        CompletedPart { part_number: Some(1), e_tag: Some(e_tag_of_md5(&md5)) },
        CompletedPart { part_number: Some(3), e_tag: None },
    ];
    assert_eq!(
        parse_completed_parts(&parts),
        Ok(vec![
            PartFilter { number: 1, md5: Some(md5) },
            PartFilter { number: 3, md5: None },
        ])
    );
    assert_eq!(parse_completed_parts(&vec![]), Ok(vec![]));
}

#[test]
fn completed_parts_are_refused_when_malformed() {
    let missing = vec![CompletedPart { part_number: None, e_tag: None }];
    assert_eq!(parse_completed_parts(&missing), Err(AppError::InternalError));
    let twice = vec![
        CompletedPart { part_number: Some(2), e_tag: None },
        CompletedPart { part_number: Some(2), e_tag: None },
    ];
    assert_eq!(parse_completed_parts(&twice), Err(AppError::InternalError));
    let bad_tag = vec![CompletedPart { part_number: Some(1), e_tag: Some("\"nothex\"".to_string()) }];
    assert_eq!(parse_completed_parts(&bad_tag), Err(AppError::InternalError));
}

#[test]
fn unsupported_features_are_refused() {
    assert_eq!(reject_unsupported(&vec![]), Ok(()));
    assert_eq!(reject_unsupported(&vec![false, false]), Ok(()));
    assert_eq!(reject_unsupported(&vec![false, true]), Err(AppError::NotImplemented));
}

#[test]
fn content_md5_is_compared_with_the_body() {
    let expected = md5::Md5::digest(b"hello").to_vec();
    let mut h = md5_new();
    md5_update(&mut h, b"hel");
    md5_update(&mut h, b"lo");
    assert_eq!(check_content_md5(&expected, h), Ok(()));
    let mut h = md5_new();
    md5_update(&mut h, b"hello!");
    assert_eq!(check_content_md5(&expected, h), Err(AppError::BadDigest));
}
