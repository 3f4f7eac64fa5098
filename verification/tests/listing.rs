use minil::listing::encode_name;
use minil::listing::group_by_delimiter;
use minil::listing::key_count;
use minil::listing::list_page;
use minil::listing::next_marker_of_last_kept;
use minil::listing::next_markers_of_look_ahead;
use minil::listing::next_part_number_marker;
use minil::listing::v1_next_marker;
use minil::listing::v2_start_key;
use minil::listing::EncodingType;

fn keys(list: &[&str]) -> Vec<String> {
    list.iter().map(|s| s.to_string()).collect()
}

#[test]
fn grouping_rolls_keys_up_to_the_first_delimiter_after_the_prefix() {
    let k = keys(&["photos/2023/a.jpg", "photos/2023/b.jpg", "photos/2024/c.jpg", "photos/top.jpg"]);
    let g = group_by_delimiter(&k, "photos/", "/");
    assert_eq!(g.kept, vec![false, false, false, true]);
    assert_eq!(g.common_prefixes, keys(&["photos/2023/", "photos/2024/"]));
}

#[test]
fn grouping_without_prefix_and_with_a_long_delimiter() {
    let k = keys(&["a--b--c", "a-b", "x--y", "a--z"]);
    let g = group_by_delimiter(&k, "", "--");
    assert_eq!(g.kept, vec![false, true, false, false]);
    assert_eq!(g.common_prefixes, keys(&["a--", "x--"]));
}

#[test]
fn grouping_with_an_empty_delimiter_rolls_everything_up_to_the_prefix() {
    let k = keys(&["pre-a", "pre-b"]);
    let g = group_by_delimiter(&k, "pre-", "");
    assert_eq!(g.kept, vec![false, false]);
    assert_eq!(g.common_prefixes, keys(&["pre-"]));
}

#[test]
fn grouping_counts_characters_not_bytes() {
    let k = keys(&["é/x", "éé"]);
    let g = group_by_delimiter(&k, "é", "/");
    assert_eq!(g.kept, vec![false, true]);
    assert_eq!(g.common_prefixes, keys(&["é/"]));
}

#[test]
fn page_with_look_ahead_row_is_cut() {
    let k = keys(&["a/1", "a/2", "b", "c"]);
    let page = list_page(&k, 3, None, Some("/"));
    assert_eq!(page.page_len, 3);
    assert_eq!(page.kept, vec![false, false, true]);
    assert_eq!(page.common_prefixes, keys(&["a/"]));
    assert_eq!(key_count(&page), 2);
    assert_eq!(next_marker_of_last_kept(&k, 3), Some("b".to_string()));
}

#[test]
fn short_page_is_whole_and_not_truncated() {
    let k = keys(&["a", "b"]);
    let page = list_page(&k, 5, None, None);
    assert_eq!(page.page_len, 2);
    assert_eq!(page.kept, vec![true, true]);
    assert!(page.common_prefixes.is_empty());
    assert_eq!(key_count(&page), 2);
    assert_eq!(next_marker_of_last_kept(&k, 5), None);
}

#[test]
fn look_ahead_markers_come_from_the_extra_row() {
    let k = keys(&["a", "b", "c"]);
    let ids = vec![10u128, 20, 30];
    assert_eq!(next_markers_of_look_ahead(&k, &ids, 2), Some(("c".to_string(), 30)));
    assert_eq!(next_markers_of_look_ahead(&k, &ids, 3), None);
}

#[test]
fn part_number_marker_is_the_last_number_kept() {
    assert_eq!(next_part_number_marker(&vec![1, 2, 5], 2), Some(2));
    assert_eq!(next_part_number_marker(&vec![1, 2], 2), None);
}

#[test]
fn names_are_url_encoded_on_request() {
    assert_eq!(encode_name(Some(EncodingType::Url), "a b/c".to_string()), "a%20b%2Fc");
    assert_eq!(encode_name(None, "a b/c".to_string()), "a b/c");
    assert_eq!(v1_next_marker(true, Some("k y".to_string()), Some(EncodingType::Url)), Some("k%20y".to_string()));
    assert_eq!(v1_next_marker(false, Some("k".to_string()), None), None);
}

#[test]
fn v2_starts_after_the_token_else_after_start_after() {
    assert_eq!(v2_start_key(Some("t".to_string()), Some("s".to_string())), Some("t".to_string()));
    assert_eq!(v2_start_key(None, Some("s".to_string())), Some("s".to_string()));
    assert_eq!(v2_start_key(None, None), None);
}
