//! Listing decisions: cutting a page of rows fetched with one row of
//! look-ahead, rolling keys up to common prefixes at a delimiter, and
//! encoding the names handed back.
use vstd::prelude::*;

use indexmap::IndexSet;

use crate::text::str_chars;

verus! {

broadcast use vstd::seq_lib::group_seq_properties;

#[verifier::external_type_specification]
#[verifier::external_body]
#[verifier::reject_recursive_types(T)]
#[verifier::reject_recursive_types(S)]
pub struct ExIndexSet<T, S>(IndexSet<T, S>);

/// The strings an `IndexSet<String>` holds, in insertion order.
pub uninterp spec fn index_set_contents(s: IndexSet<String>) -> Seq<Seq<char>>;

/// What `urlencoding::encode` makes of a string.
pub uninterp spec fn url_encoded(s: Seq<char>) -> Seq<char>;

/// `IndexSet::new`: an empty set.
#[verifier::external_body]
fn index_set_new() -> (r: IndexSet<String>)
    ensures
        index_set_contents(r) == Seq::<Seq<char>>::empty(),
{
    IndexSet::new()
}

/// `IndexSet::insert`: appends the value unless an equal one is held already,
/// in which case the set and its order stay as they were.
#[verifier::external_body]
fn index_set_insert(s: &mut IndexSet<String>, value: String) -> (r: bool)
    ensures
        r == !index_set_contents(*old(s)).contains(value@),
        index_set_contents(*final(s)) == (if r {
            index_set_contents(*old(s)).push(value@)
        } else {
            index_set_contents(*old(s))
        }),
{
    s.insert(value)
}

/// `IndexSet::into_iter`, collected: the held strings in insertion order.
#[verifier::external_body]
fn index_set_into_vec(s: IndexSet<String>) -> (r: Vec<String>)
    ensures
        views(r@) == index_set_contents(s),
{
    s.into_iter().collect()
}

/// `urlencoding::encode`, made owned.
#[verifier::external_body]
fn url_encode(s: &str) -> (r: String)
    ensures
        r@ == url_encoded(s@),
{
    urlencoding::encode(s).into_owned()
}

/// The character sequences of a list of strings.
pub open spec fn views(v: Seq<String>) -> Seq<Seq<char>> {
    v.map_values(|s: String| s@)
}

/// `d` occurs in `s` starting at index `i`.
pub open spec fn occurs_at(s: Seq<char>, d: Seq<char>, i: int) -> bool {
    0 <= i && i + d.len() <= s.len() && s.subrange(i, i + d.len()) == d
}

/// The first index at or after `i` where `d` occurs in `s`.
pub open spec fn find_from(s: Seq<char>, d: Seq<char>, i: int) -> Option<int>
    decreases s.len() + 1 - i,
{
    if i < 0 || i + d.len() > s.len() {
        None
    } else if occurs_at(s, d, i) {
        Some(i)
    } else {
        find_from(s, d, i + 1)
    }
}

/// The first index where `d` occurs in `s`, as `str::find` reports it.
pub open spec fn find(s: Seq<char>, d: Seq<char>) -> Option<int> {
    find_from(s, d, 0)
}

/// The common prefix a key rolls up to: the key up to and including the
/// first delimiter after the first `prefix_len` characters, if there is one.
pub open spec fn rolled_prefix(key: Seq<char>, prefix_len: nat, d: Seq<char>) -> Option<Seq<char>> {
    match find(key.skip(prefix_len as int), d) {
        Some(i) => Some(key.take(prefix_len + i + d.len())),
        None => None,
    }
}

/// Appends `x` unless it is there already.
pub open spec fn insert_unique(acc: Seq<Seq<char>>, x: Seq<char>) -> Seq<Seq<char>> {
    if acc.contains(x) {
        acc
    } else {
        acc.push(x)
    }
}

/// The common prefixes of `keys`, each once, in the order first reached.
pub open spec fn common_prefixes(keys: Seq<Seq<char>>, prefix_len: nat, d: Seq<char>) -> Seq<
    Seq<char>,
>
    decreases keys.len(),
{
    if keys.len() == 0 {
        Seq::empty()
    } else {
        let acc = common_prefixes(keys.drop_last(), prefix_len, d);
        match rolled_prefix(keys.last(), prefix_len, d) {
            Some(p) => insert_unique(acc, p),
            None => acc,
        }
    }
}

/// How the names in a listing are encoded.
#[derive(Debug, Clone, Copy, PartialEq, Eq)]
pub enum EncodingType {
    Url,
}

/// The name handed back for `s` under `encoding`.
pub open spec fn encoded(encoding: Option<EncodingType>, s: Seq<char>) -> Seq<char> {
    match encoding {
        Some(EncodingType::Url) => url_encoded(s),
        None => s,
    }
}

/// Encodes a name as the listing's encoding type asks; without one the name stays as it is.
pub fn encode_name(encoding: Option<EncodingType>, s: String) -> (r: String)
    ensures
        r@ == encoded(encoding, s@),
{
    match encoding {
        Some(EncodingType::Url) => url_encode(s.as_str()),
        None => s,
    }
}

/// Encodes an optional name.
pub fn encode_opt(encoding: Option<EncodingType>, s: Option<String>) -> (r: Option<String>)
    ensures
        r is Some == s is Some,
        s is Some ==> r->0@ == encoded(encoding, s->0@),
{
    match s {
        Some(s) => Some(encode_name(encoding, s)),
        None => None,
    }
}

/// The first index at or after `from` where `d` occurs in `s`.
fn find_chars(s: &Vec<char>, d: &Vec<char>, from: usize) -> (r: Option<usize>)
    requires
        from <= s.len(),
    ensures
        match r {
            Some(i) => find_from(s@, d@, from as int) == Some(i as int),
            None => find_from(s@, d@, from as int) is None,
        },
{
    let mut i = from;
    while d.len() <= s.len() - i
        invariant
            from <= i <= s.len(),
            find_from(s@, d@, from as int) == find_from(s@, d@, i as int),
        decreases s.len() - i,
    {
        let mut j: usize = 0;
        let mut same = true;
        assert(s@.subrange(i as int, i as int) =~= d@.take(0));
        while j < d.len()
            invariant
                i + d.len() <= s.len(),
                j <= d.len(),
                same == (s@.subrange(i as int, i + j) == d@.take(j as int)),
            decreases d.len() - j,
        {
            if same && s[i + j] != d[j] {
                same = false;
            }
            proof {
                let a = s@.subrange(i as int, i + j + 1);
                let b = d@.take(j + 1);
                assert(a.take(j as int) =~= s@.subrange(i as int, i + j));
                assert(b.take(j as int) =~= d@.take(j as int));
                if same {
                    assert(a =~= b);
                } else if a == b {
                    assert(a.take(j as int) == b.take(j as int));
                    assert(a[j as int] == b[j as int]);
                }
            }
            j = j + 1;
        }
        assert(d@.take(d.len() as int) =~= d@);
        if same {
            return Some(i);
        }
        assert(d.len() > 0);
        i = i + 1;
    }
    None
}

/// The outcome of rolling keys up at a delimiter.
pub struct Grouping {
    /// Whether each key stays a listed entry (it holds no delimiter after the prefix).
    pub kept: Vec<bool>,
    /// The common prefixes, each once, in the order first reached.
    pub common_prefixes: Vec<String>,
}

/// Rolls each key that holds `delimiter` after `prefix` up to its common
/// prefix, the key up to and including that first delimiter.
pub fn group_by_delimiter(keys: &Vec<String>, prefix: &str, delimiter: &str) -> (r: Grouping)
    requires
        forall|j: int| 0 <= j < keys.len() ==> prefix@.is_prefix_of(#[trigger] keys@[j]@),
    ensures
        r.kept@.len() == keys.len(),
        forall|j: int|
            0 <= j < keys.len() ==> #[trigger] r.kept@[j] == (rolled_prefix(
                keys@[j]@,
                prefix@.len(),
                delimiter@,
            ) is None),
        views(r.common_prefixes@) == common_prefixes(views(keys@), prefix@.len(), delimiter@),
{
    let prefix_chars = str_chars(prefix);
    let d = str_chars(delimiter);
    let pl = prefix_chars.len();
    let mut kept: Vec<bool> = Vec::new();
    let mut set = index_set_new();
    let mut n: usize = 0;
    while n < keys.len()
        invariant
            n <= keys.len(),
            pl == prefix@.len(),
            d@ == delimiter@,
            forall|j: int| 0 <= j < keys.len() ==> prefix@.is_prefix_of(#[trigger] keys@[j]@),
            kept@.len() == n,
            forall|j: int|
                0 <= j < n ==> #[trigger] kept@[j] == (rolled_prefix(
                    keys@[j]@,
                    prefix@.len(),
                    delimiter@,
                ) is None),
            index_set_contents(set) == common_prefixes(
                views(keys@).take(n as int),
                prefix@.len(),
                delimiter@,
            ),
        decreases keys.len() - n,
    {
        let key = &keys[n];
        let k = str_chars(key.as_str());
        assert(prefix@.is_prefix_of(keys@[n as int]@));
        let ghost rest = k@.skip(pl as int);
        let found = find_chars(&k, &d, pl);
        proof {
            lemma_find_from_shift(k@, d@, pl as int);
            lemma_find_from_sound(k@, d@, pl as int);
        }
        assert(views(keys@).take(n + 1).drop_last() =~= views(keys@).take(n as int));
        assert(views(keys@).take(n + 1).last() == keys@[n as int]@);
        match found {
            Some(at) => {
                assert(occurs_at(k@, d@, at as int));
                assert(at + d@.len() <= k@.len());
                let klen = k.len();
                assert(at + d.len() <= klen);
                let cut = key.as_str().substring_char(0, at + d.len());
                assert(cut@ =~= k@.take(pl + (at - pl) + d@.len()));
                index_set_insert(&mut set, cut.to_owned());
                kept.push(false);
            },
            None => {
                kept.push(true);
            },
        }
        n = n + 1;
    }
    assert(views(keys@).take(keys.len() as int) =~= views(keys@));
    Grouping { kept, common_prefixes: index_set_into_vec(set) }
}

/// How many fetched rows stay on the page: rows are fetched with one row of
/// look-ahead, and that extra row only tells that another page follows.
pub open spec fn page_len(fetched: nat, max: nat) -> nat {
    if fetched == max + 1 {
        max
    } else {
        fetched
    }
}

/// The characters of an optional string, empty when absent.
pub open spec fn opt_view(s: Option<&str>) -> Seq<char> {
    match s {
        Some(s) => s@,
        None => Seq::empty(),
    }
}

/// The rows kept as entries and the common prefixes of one page of a listing.
pub struct Listing {
    /// How many of the fetched rows belong to this page.
    pub page_len: usize,
    /// Whether each row of the page stays a listed entry.
    pub kept: Vec<bool>,
    /// The common prefixes the other rows of the page roll up to.
    pub common_prefixes: Vec<String>,
}

/// The listing of one page: `page_len` rows, each kept unless it rolls up to a common prefix.
pub open spec fn listing_matches(
    r: Listing,
    keys: Seq<Seq<char>>,
    max: nat,
    prefix: Seq<char>,
    delimiter: Option<Seq<char>>,
) -> bool {
    let n = page_len(keys.len(), max);
    &&& r.page_len == n
    &&& r.kept@.len() == n
    &&& forall|j: int|
        0 <= j < n ==> #[trigger] r.kept@[j] == match delimiter {
            Some(d) => rolled_prefix(keys[j], prefix.len(), d) is None,
            None => true,
        }
    &&& views(r.common_prefixes@) == match delimiter {
        Some(d) => common_prefixes(keys.take(n as int), prefix.len(), d),
        None => Seq::empty(),
    }
}

/// Cuts the page out of the fetched keys and rolls it up at the delimiter, if any.
pub fn list_page(keys: &Vec<String>, max: u16, prefix: Option<&str>, delimiter: Option<&str>) -> (r:
    Listing)
    requires
        forall|j: int| 0 <= j < keys.len() ==> opt_view(prefix).is_prefix_of(#[trigger] keys@[j]@),
    ensures
        listing_matches(
            r,
            views(keys@),
            max as nat,
            opt_view(prefix),
            match delimiter {
                Some(d) => Some(d@),
                None => None,
            },
        ),
{
    let n: usize = if keys.len() == max as usize + 1 {
        max as usize
    } else {
        keys.len()
    };
    let mut page: Vec<String> = Vec::new();
    let mut i: usize = 0;
    while i < n
        invariant
            n <= keys.len(),
            i <= n,
            page@ == keys@.take(i as int),
        decreases n - i,
    {
        page.push(keys[i].clone());
        i = i + 1;
    }
    assert(views(page@) =~= views(keys@).take(n as int));
    match delimiter {
        Some(d) => {
            let p = match prefix {
                Some(p) => p,
                None => "",
            };
            proof {
                reveal_strlit("");
                assert(p@ == opt_view(prefix));
                assert forall|j: int| 0 <= j < page.len() implies p@.is_prefix_of(
                    #[trigger] page@[j]@,
                ) by {
                    assert(page@[j] == keys@[j]);
                }
            }
            let g = group_by_delimiter(&page, p, d);
            proof {
                assert forall|j: int| 0 <= j < n implies #[trigger] g.kept@[j] == (rolled_prefix(
                    views(keys@)[j],
                    opt_view(prefix).len(),
                    d@,
                ) is None) by {
                    assert(page@[j] == keys@[j]);
                }
            }
            Listing { page_len: n, kept: g.kept, common_prefixes: g.common_prefixes }
        },
        None => {
            let mut kept: Vec<bool> = Vec::new();
            let mut j: usize = 0;
            while j < n
                invariant
                    j <= n,
                    kept@.len() == j,
                    forall|m: int| 0 <= m < j ==> kept@[m],
                decreases n - j,
            {
                kept.push(true);
                j = j + 1;
            }
            let empty: Vec<String> = Vec::new();
            assert(views(empty@) =~= Seq::<Seq<char>>::empty());
            Listing { page_len: n, kept, common_prefixes: empty }
        },
    }
}

/// The marker for the next page when it is the last key that stays on this page.
pub open spec fn marker_of_last_kept(keys: Seq<Seq<char>>, max: nat) -> Option<Seq<char>> {
    if keys.len() == max + 1 {
        Some(keys[max - 1])
    } else {
        None
    }
}

/// The next-page marker of `ListObjects`, `ListObjectsV2` and `ListBuckets`: when the
/// look-ahead row was fetched, the last key that stays on the page.
pub fn next_marker_of_last_kept(keys: &Vec<String>, max: u16) -> (r: Option<String>)
    requires
        !(keys.len() == max + 1 && max == 0),
    ensures
        r is Some == marker_of_last_kept(views(keys@), max as nat) is Some,
        r is Some ==> r->0@ == marker_of_last_kept(views(keys@), max as nat)->0,
{
    if keys.len() == max as usize + 1 {
        Some(keys[max as usize - 1].clone())
    } else {
        None
    }
}

/// The next-page part number of `ListParts`: when the look-ahead row was fetched,
/// the last part number that stays on the page.
pub fn next_part_number_marker(numbers: &Vec<u16>, max: u16) -> (r: Option<u16>)
    requires
        !(numbers.len() == max + 1 && max == 0),
    ensures
        r == (if numbers.len() == max + 1 {
            Some(numbers@[max - 1])
        } else {
            None::<u16>
        }),
{
    if numbers.len() == max as usize + 1 {
        Some(numbers[max as usize - 1])
    } else {
        None
    }
}

/// The next-page markers of `ListObjectVersions` and `ListMultipartUploads`: when the
/// look-ahead row was fetched, its key and id.
pub fn next_markers_of_look_ahead(keys: &Vec<String>, ids: &Vec<u128>, max: u16) -> (r: Option<
    (String, u128),
>)
    requires
        keys.len() == ids.len(),
    ensures
        r is Some == (keys.len() == max + 1),
        r matches Some((k, id)) ==> k@ == keys@[max as int]@ && id == ids@[max as int],
{
    if keys.len() == max as usize + 1 {
        Some((keys[max as usize].clone(), ids[max as usize]))
    } else {
        None
    }
}

/// `KeyCount` of `ListObjectsV2`: the entries listed plus the common prefixes.
pub open spec fn key_count_of(kept: Seq<bool>, prefixes: nat) -> nat {
    kept.filter(|b: bool| b).len() + prefixes
}

/// Counts the entries kept on the page together with the common prefixes.
pub fn key_count(listing: &Listing) -> (r: u16)
    requires
        key_count_of(listing.kept@, listing.common_prefixes@.len()) <= u16::MAX,
    ensures
        r == key_count_of(listing.kept@, listing.common_prefixes@.len()),
{
    let mut count: usize = 0;
    let mut j: usize = 0;
    while j < listing.kept.len()
        invariant
            j <= listing.kept.len(),
            count == listing.kept@.take(j as int).filter(|b: bool| b).len(),
            count <= j,
        decreases listing.kept.len() - j,
    {
        proof {
            let t = listing.kept@.take(j + 1);
            assert(t.drop_last() =~= listing.kept@.take(j as int));
            listing.kept@.take(j as int).lemma_filter_len_push(|b: bool| b, listing.kept@[j as int]);
            assert(listing.kept@.take(j as int).push(listing.kept@[j as int]) =~= t);
        }
        if listing.kept[j] {
            count = count + 1;
        }
        j = j + 1;
    }
    assert(listing.kept@.take(listing.kept.len() as int) =~= listing.kept@);
    assert(count + listing.common_prefixes.len() <= u16::MAX);
    (count + listing.common_prefixes.len()) as u16
}

/// Where `ListObjectsV2` starts: after the continuation token, else after `start-after`.
pub fn v2_start_key(continuation_token: Option<String>, start_after: Option<String>) -> (r: Option<
    String,
>)
    ensures
        r is Some == (continuation_token is Some || start_after is Some),
        r is Some ==> r->0@ == (if continuation_token is Some {
            continuation_token->0@
        } else {
            start_after->0@
        }),
{
    match continuation_token {
        Some(t) => Some(t),
        None => start_after,
    }
}

/// `NextMarker` of `ListObjects`: reported, encoded, only when a delimiter was given.
pub fn v1_next_marker(
    delimiter_given: bool,
    next_marker: Option<String>,
    encoding: Option<EncodingType>,
) -> (r: Option<String>)
    ensures
        r is Some == (delimiter_given && next_marker is Some),
        r is Some ==> r->0@ == encoded(encoding, next_marker->0@),
{
    if delimiter_given {
        encode_opt(encoding, next_marker)
    } else {
        None
    }
}

/// The common prefixes of a listing come out once each.
pub proof fn lemma_common_prefixes_distinct(keys: Seq<Seq<char>>, prefix_len: nat, d: Seq<char>)
    ensures
        common_prefixes(keys, prefix_len, d).no_duplicates(),
    decreases keys.len(),
{
    if keys.len() > 0 {
        let acc = common_prefixes(keys.drop_last(), prefix_len, d);
        lemma_common_prefixes_distinct(keys.drop_last(), prefix_len, d);
        match rolled_prefix(keys.last(), prefix_len, d) {
            Some(p) => {
                if !acc.contains(p) {
                    assert forall|i: int, j: int|
                        0 <= i < acc.push(p).len() && 0 <= j < acc.push(p).len() && i != j implies
                        acc.push(p)[i] != acc.push(p)[j] by {
                        if i == acc.len() {
                            assert(acc.push(p)[j] == acc[j]);
                        } else if j == acc.len() {
                            assert(acc.push(p)[i] == acc[i]);
                        } else {
                            assert(acc.push(p)[i] == acc[i]);
                            assert(acc.push(p)[j] == acc[j]);
                        }
                    }
                }
            },
            None => {},
        }
    }
}

/// Every key that rolls up has its common prefix listed, and every common
/// prefix listed is that of some key.
pub proof fn lemma_common_prefixes_cover(keys: Seq<Seq<char>>, prefix_len: nat, d: Seq<char>)
    ensures
        forall|j: int|
            0 <= j < keys.len() && #[trigger] rolled_prefix(keys[j], prefix_len, d) is Some
                ==> common_prefixes(keys, prefix_len, d).contains(
                rolled_prefix(keys[j], prefix_len, d)->0,
            ),
        forall|c: Seq<char>|
            #[trigger] common_prefixes(keys, prefix_len, d).contains(c) ==> exists|j: int|
                0 <= j < keys.len() && rolled_prefix(keys[j], prefix_len, d) == Some(c),
    decreases keys.len(),
{
    if keys.len() > 0 {
        let front = keys.drop_last();
        let acc = common_prefixes(front, prefix_len, d);
        let all = common_prefixes(keys, prefix_len, d);
        lemma_common_prefixes_cover(front, prefix_len, d);
        assert forall|c: Seq<char>| acc.contains(c) implies all.contains(c) by {
            let i = choose|i: int| 0 <= i < acc.len() && acc[i] == c;
            match rolled_prefix(keys.last(), prefix_len, d) {
                Some(p) => {
                    if !acc.contains(p) {
                        assert(acc.push(p)[i] == c);
                    }
                },
                None => {},
            }
        }
        assert forall|j: int|
            0 <= j < keys.len() && #[trigger] rolled_prefix(keys[j], prefix_len, d) is Some implies all.contains(
            rolled_prefix(keys[j], prefix_len, d)->0,
        ) by {
            if j < front.len() {
                assert(front[j] == keys[j]);
            } else {
                let p = rolled_prefix(keys[j], prefix_len, d)->0;
                if !acc.contains(p) {
                    assert(acc.push(p)[acc.len() as int] == p);
                }
            }
        }
        assert forall|c: Seq<char>| #[trigger] all.contains(c) implies exists|j: int|
            0 <= j < keys.len() && rolled_prefix(keys[j], prefix_len, d) == Some(c) by {
            if acc.contains(c) {
                let j = choose|j: int| 0 <= j < front.len() && rolled_prefix(front[j], prefix_len, d) == Some(c);
                assert(front[j] == keys[j]);
            } else {
                let i = choose|i: int| 0 <= i < all.len() && all[i] == c;
                assert(rolled_prefix(keys[keys.len() - 1], prefix_len, d) == Some(c));
            }
        }
    }
}

/// A common prefix starts with the listing prefix, is a prefix of its key and
/// ends with the delimiter, and between the listing prefix and that delimiter
/// the delimiter does not occur.
pub proof fn lemma_rolled_prefix_shape(key: Seq<char>, prefix: Seq<char>, d: Seq<char>)
    requires
        prefix.is_prefix_of(key),
        rolled_prefix(key, prefix.len(), d) is Some,
    ensures
        ({
            let p = rolled_prefix(key, prefix.len(), d)->0;
            &&& prefix.is_prefix_of(p)
            &&& p.is_prefix_of(key)
            &&& p.skip(p.len() - d.len()) == d
            &&& forall|m: int|
                prefix.len() <= m < p.len() - d.len() ==> !occurs_at(key, d, m)
        }),
{
    let rest = key.skip(prefix.len() as int);
    lemma_find_from_sound(rest, d, 0);
    let i = find(rest, d)->0;
    let p = rolled_prefix(key, prefix.len(), d)->0;
    assert(p == key.take(prefix.len() + i + d.len()));
    assert(rest.subrange(i, i + d.len()) == d);
    assert(p.skip(p.len() - d.len()) =~= rest.subrange(i, i + d.len()));
    assert(key.take(prefix.len() as int) =~= prefix);
    assert forall|m: int| prefix.len() <= m < p.len() - d.len() implies !occurs_at(key, d, m) by {
        assert(!occurs_at(rest, d, m - prefix.len()));
        if occurs_at(key, d, m) {
            assert(rest.subrange(m - prefix.len(), m - prefix.len() + d.len()) =~= key.subrange(
                m,
                m + d.len(),
            ));
        }
    }
}

/// How many keys stay listed entries (hold no delimiter after the prefix).
pub open spec fn kept_count(keys: Seq<Seq<char>>, prefix_len: nat, d: Seq<char>) -> nat
    decreases keys.len(),
{
    if keys.len() == 0 {
        0
    } else {
        kept_count(keys.drop_last(), prefix_len, d) + if rolled_prefix(keys.last(), prefix_len, d) is None {
            1nat
        } else {
            0nat
        }
    }
}

/// Listed entries and common prefixes together are no more than the keys rolled up.
pub proof fn lemma_entries_and_prefixes_bounded(keys: Seq<Seq<char>>, prefix_len: nat, d: Seq<char>)
    ensures
        kept_count(keys, prefix_len, d) + common_prefixes(keys, prefix_len, d).len() <= keys.len(),
    decreases keys.len(),
{
    if keys.len() > 0 {
        lemma_entries_and_prefixes_bounded(keys.drop_last(), prefix_len, d);
    }
}

/// The entries a page keeps, counted from its flags, are those `kept_count` counts.
proof fn lemma_kept_flags_count(kept: Seq<bool>, keys: Seq<Seq<char>>, prefix_len: nat, d: Seq<char>)
    requires
        kept.len() == keys.len(),
        forall|j: int|
            0 <= j < keys.len() ==> #[trigger] kept[j] == (rolled_prefix(keys[j], prefix_len, d) is None),
    ensures
        kept.filter(|b: bool| b).len() == kept_count(keys, prefix_len, d),
    decreases keys.len(),
{
    if keys.len() == 0 {
        assert(kept =~= Seq::<bool>::empty());
        assert(kept.filter(|b: bool| b) =~= Seq::<bool>::empty());
    } else {
        let kf = kept.drop_last();
        let keyf = keys.drop_last();
        assert forall|j: int| 0 <= j < keyf.len() implies #[trigger] kf[j] == (rolled_prefix(
            keyf[j],
            prefix_len,
            d,
        ) is None) by {
            assert(kf[j] == kept[j]);
            assert(keyf[j] == keys[j]);
        }
        lemma_kept_flags_count(kf, keyf, prefix_len, d);
        kf.lemma_filter_len_push(|b: bool| b, kept.last());
        assert(kf.push(kept.last()) =~= kept);
        assert(kept.last() == kept[kept.len() - 1]);
    }
}

/// A page never holds more than the maximum asked for: the rows it keeps, and
/// its entries and common prefixes together (`KeyCount`), are at most `max`.
pub proof fn lemma_page_within_max(
    r: Listing,
    keys: Seq<Seq<char>>,
    max: nat,
    prefix: Seq<char>,
    delimiter: Option<Seq<char>>,
)
    requires
        keys.len() <= max + 1,
        listing_matches(r, keys, max, prefix, delimiter),
    ensures
        r.page_len <= max,
        key_count_of(r.kept@, r.common_prefixes@.len()) <= max,
{
    let n = page_len(keys.len(), max);
    let page = keys.take(n as int);
    match delimiter {
        Some(d) => {
            assert forall|j: int| 0 <= j < page.len() implies #[trigger] r.kept@[j] == (rolled_prefix(
                page[j],
                prefix.len(),
                d,
            ) is None) by {
                assert(page[j] == keys[j]);
            }
            lemma_kept_flags_count(r.kept@, page, prefix.len(), d);
            lemma_entries_and_prefixes_bounded(page, prefix.len(), d);
            assert(views(r.common_prefixes@).len() == r.common_prefixes@.len());
        },
        None => {
            assert(r.kept@.filter(|b: bool| b).len() <= r.kept@.len()) by {
                r.kept@.lemma_filter_len(|b: bool| b);
            }
            assert(views(r.common_prefixes@).len() == r.common_prefixes@.len());
        },
    }
}

/// What `find_from` reports is an occurrence at or after the start, with none between.
pub proof fn lemma_find_from_sound(s: Seq<char>, d: Seq<char>, i: int)
    requires
        0 <= i,
    ensures
        match find_from(s, d, i) {
            Some(k) => i <= k && occurs_at(s, d, k) && forall|m: int|
                i <= m < k ==> !occurs_at(s, d, m),
            None => forall|m: int| i <= m ==> !occurs_at(s, d, m),
        },
    decreases s.len() + 1 - i,
{
    if i + d.len() > s.len() {
    } else if !occurs_at(s, d, i) {
        lemma_find_from_sound(s, d, i + 1);
    }
}

/// Searching from `shift` in `s` is searching from zero in `s.skip(shift)`, moved by `shift`.
proof fn lemma_find_from_shift(s: Seq<char>, d: Seq<char>, shift: int)
    requires
        0 <= shift <= s.len(),
    ensures
        match find_from(s, d, shift) {
            Some(i) => find(s.skip(shift), d) == Some(i - shift),
            None => find(s.skip(shift), d) is None,
        },
{
    lemma_find_from_shift_at(s, d, shift, shift);
}

/// Searching from `i` in `s` is searching from `i - shift` in `s.skip(shift)`.
proof fn lemma_find_from_shift_at(s: Seq<char>, d: Seq<char>, shift: int, i: int)
    requires
        0 <= shift <= i,
        shift <= s.len(),
    ensures
        match find_from(s, d, i) {
            Some(k) => find_from(s.skip(shift), d, i - shift) == Some(k - shift),
            None => find_from(s.skip(shift), d, i - shift) is None,
        },
    decreases s.len() + 1 - i,
{
    if i + d.len() > s.len() {
    } else {
        assert(s.skip(shift).subrange(i - shift, i - shift + d.len()) =~= s.subrange(i, i + d.len()));
        if !occurs_at(s, d, i) {
            lemma_find_from_shift_at(s, d, shift, i + 1);
        }
    }
}

} // verus!
