//! `ListObjects`, `ListObjectsV2`, `ListObjectVersions` and
//! `ListMultipartUploads`: the checks, the query each asks for, and the page
//! answered from the rows fetched with one row of look-ahead.
use vstd::prelude::*;

use crate::entity::bucket;
use crate::entity::object;
use crate::entity::owner;
use crate::entity::upload;
use crate::entity::upload_part;
use crate::entity::quoting::md5_e_tag;
use crate::entity::version;
use crate::errors::AppError;
use crate::listing::common_prefixes;
use crate::listing::encode_name;
use crate::listing::encode_opt;
use crate::listing::encoded;
use crate::listing::key_count;
use crate::listing::key_count_of;
use crate::listing::lemma_page_within_max;
use crate::listing::list_page;
use crate::listing::listing_matches;
use crate::listing::opt_view;
use crate::listing::page_len;
use crate::listing::rolled_prefix;
use crate::listing::v1_next_marker;
use crate::listing::v2_start_key;
use crate::listing::views;
use crate::listing::EncodingType;
use crate::listing::Listing;
use crate::requests::reject_unsupported;
use crate::requests::validate_owner;

verus! {

/// The checks every listing makes before its lookups: an unimplemented
/// header is `NotImplemented`, then the expected owner.
pub open spec fn spec_request_precheck(unsupported: Seq<bool>, expected: Option<String>, owner: Seq<char>) -> Result<
    (),
    AppError,
> {
    if exists|i: int| 0 <= i < unsupported.len() && unsupported[i] {
        Err(AppError::NotImplemented)
    } else if expected matches Some(e) && e@ != owner {
        Err(AppError::AccessDenied)
    } else {
        Ok(())
    }
}

/// Checks a listing request before its lookups.
pub fn list_precheck(unsupported: &Vec<bool>, expected: &Option<String>, owner: &String) -> (r: Result<
    (),
    AppError,
>)
    ensures
        r == spec_request_precheck(unsupported@, *expected, owner@),
{
    match reject_unsupported(unsupported) {
        Err(e) => Err(e),
        Ok(()) => validate_owner(expected, owner),
    }
}

/// The rows whose flag is set, in order.
pub open spec fn selected<T>(rows: Seq<T>, flags: Seq<bool>) -> Seq<T>
    decreases rows.len(),
{
    if rows.len() == 0 {
        Seq::empty()
    } else {
        let rest = selected(rows.drop_last(), flags.drop_last());
        if flags[rows.len() - 1] {
            rest.push(rows.last())
        } else {
            rest
        }
    }
}

/// Selecting from one more row.
proof fn lemma_selected_step<T>(rows: Seq<T>, flags: Seq<bool>, j: int)
    requires
        0 <= j < rows.len(),
        j < flags.len(),
    ensures
        selected(rows.take(j + 1), flags.take(j + 1)) == if flags[j] {
            selected(rows.take(j), flags.take(j)).push(rows[j])
        } else {
            selected(rows.take(j), flags.take(j))
        },
{
    assert(rows.take(j + 1).drop_last() =~= rows.take(j));
    assert(flags.take(j + 1).drop_last() =~= flags.take(j));
}

/// The owner reported with an entry.
#[derive(Debug, Clone)]
pub struct ListOwner {
    pub id: u128,
    pub display_name: String,
}

/// The owner is reported as it is stored.
pub open spec fn owner_matches(o: ListOwner, owner: owner::Model) -> bool {
    o.id == owner.id && o.display_name@ == owner.name@
}

fn list_owner(owner: &owner::Model) -> (r: ListOwner)
    ensures
        owner_matches(r, *owner),
{
    ListOwner { id: owner.id, display_name: owner.name.clone() }
}

/// The last change of a version: the update, else the creation.
pub open spec fn version_last_modified(v: version::Model) -> i64 {
    match v.updated_at {
        Some(t) => t,
        None => v.created_at,
    }
}

/// A listed version that is not a delete marker has a size and an entity tag or MD5.
pub open spec fn version_listable(v: version::Model) -> bool {
    v.size is Some && (v.e_tag is Some || v.md5 is Some)
}

/// The common prefixes handed back, each encoded.
pub open spec fn encoded_all(encoding: Option<EncodingType>, names: Seq<Seq<char>>) -> Seq<Seq<char>> {
    names.map_values(|n: Seq<char>| encoded(encoding, n))
}

/// Encodes every name.
fn encode_all(encoding: Option<EncodingType>, names: &Vec<String>) -> (r: Vec<String>)
    ensures
        views(r@) == encoded_all(encoding, views(names@)),
{
    let mut out: Vec<String> = Vec::new();
    let mut i: usize = 0;
    while i < names.len()
        invariant
            i <= names.len(),
            views(out@) == encoded_all(encoding, views(names@).take(i as int)),
        decreases names.len() - i,
    {
        let e = encode_name(encoding, names[i].clone());
        proof {
            assert(views(names@).take(i + 1) =~= views(names@).take(i as int).push(names@[i as int]@));
            assert(views(out@.push(e)) =~= views(out@).push(e@));
            assert(encoded_all(encoding, views(names@).take(i + 1)) =~= encoded_all(
                encoding,
                views(names@).take(i as int),
            ).push(encoded(encoding, names@[i as int]@)));
        }
        out.push(e);
        i = i + 1;
    }
    assert(views(names@).take(names.len() as int) =~= views(names@));
    out
}

/// The text of an optional string.
pub open spec fn opt_text(s: Option<String>) -> Option<Seq<char>> {
    match s {
        Some(s) => Some(s@),
        None => None,
    }
}

/// The text of an optional prefix, empty when none was given.
pub open spec fn prefix_view(s: Option<String>) -> Seq<char> {
    match s {
        Some(s) => s@,
        None => Seq::empty(),
    }
}

/// The encoded text of an optional name.
pub open spec fn opt_encoded(encoding: Option<EncodingType>, s: Option<String>) -> Option<Seq<char>> {
    match s {
        Some(s) => Some(encoded(encoding, s@)),
        None => None,
    }
}

/// The encoded prefix, empty when none was given.
pub open spec fn prefix_text(encoding: Option<EncodingType>, prefix: Option<String>) -> Seq<char> {
    match prefix {
        Some(p) => encoded(encoding, p@),
        None => Seq::empty(),
    }
}

fn encoded_or_empty(encoding: Option<EncodingType>, s: &Option<String>) -> (r: String)
    ensures
        r@ == prefix_text(encoding, *s),
{
    match s {
        Some(p) => encode_name(encoding, p.clone()),
        None => String::new(),
    }
}

fn encode_opt_ref(encoding: Option<EncodingType>, s: &Option<String>) -> (r: Option<String>)
    ensures
        opt_text(r) == opt_encoded(encoding, *s),
{
    match s {
        Some(p) => Some(encode_name(encoding, p.clone())),
        None => None,
    }
}

fn as_str_opt(s: &Option<String>) -> (r: Option<&str>)
    ensures
        opt_view(r) == match s {
            Some(p) => p@,
            None => Seq::<char>::empty(),
        },
        r is Some == s is Some,
        r matches Some(x) ==> x@ == s->0@,
{
    match s {
        Some(p) => Some(p.as_str()),
        None => None,
    }
}

/// The text of the delimiter given.
pub open spec fn delimiter_text(d: Option<String>) -> Option<Seq<char>> {
    opt_text(d)
}

/// What a listing query asks the database for: rows under `prefix`, after
/// `start_after`, at most `limit` of them (one more than a page).
#[derive(Debug, Clone)]
pub struct ListQuery {
    pub prefix: Option<String>,
    pub start_after: Option<String>,
    pub limit: u32,
}

// ---------------------------------------------------------------- objects

/// What a `ListObjectsV2` request carries that the server reads.
#[derive(Debug, Clone)]
pub struct ListObjectsV2Request {
    /// For each header the server does not implement, whether it was sent.
    pub unsupported: Vec<bool>,
    pub expected_bucket_owner: Option<String>,
    pub prefix: Option<String>,
    pub delimiter: Option<String>,
    pub encoding_type: Option<EncodingType>,
    pub max_keys: u16,
    pub continuation_token: Option<String>,
    pub start_after: Option<String>,
    pub fetch_owner: Option<bool>,
}

/// The query of `ListObjectsV2`: after the continuation token, else after `start-after`.
pub fn objects_v2_query(req: &ListObjectsV2Request) -> (r: ListQuery)
    ensures
        opt_text(r.prefix) == opt_text(req.prefix),
        opt_text(r.start_after) == match req.continuation_token {
            Some(t) => Some(t@),
            None => opt_text(req.start_after),
        },
        r.limit == req.max_keys + 1,
{
    ListQuery {
        prefix: req.prefix.clone(),
        start_after: v2_start_key(req.continuation_token.clone(), req.start_after.clone()),
        limit: req.max_keys as u32 + 1,
    }
}

/// An object listed by `ListObjects` or `ListObjectsV2`.
#[derive(Debug, Clone)]
pub struct ListedObject {
    pub key: String,
    pub e_tag: String,
    pub last_modified: i64,
    pub size: u64,
    pub owner: Option<ListOwner>,
}

/// The entry of a row: its key encoded, its latest version's entity tag, last
/// change and size, and the owner when asked for.
pub open spec fn object_entry_matches(
    e: ListedObject,
    encoding: Option<EncodingType>,
    row: (object::Model, version::Model),
    owner: Option<owner::Model>,
) -> bool {
    &&& e.key@ == encoded(encoding, row.0.key@)
    &&& e.e_tag@ == row.1.spec_e_tag()
    &&& e.last_modified == version_last_modified(row.1)
    &&& e.size == row.1.size->0 as u64
    &&& e.owner is Some == owner is Some
    &&& e.owner is Some ==> owner_matches(e.owner->0, owner->0)
}

/// The keys of object rows.
pub open spec fn object_keys(rows: Seq<(object::Model, version::Model)>) -> Seq<Seq<char>> {
    rows.map_values(|r: (object::Model, version::Model)| r.0.key@)
}

/// A page of objects: the entries kept, in order, and the common prefixes encoded.
pub open spec fn objects_page_matches(
    contents: Seq<ListedObject>,
    prefixes: Seq<Seq<char>>,
    rows: Seq<(object::Model, version::Model)>,
    listing: Listing,
    encoding: Option<EncodingType>,
    owner: Option<owner::Model>,
) -> bool {
    let page = selected(rows.take(listing.page_len as int), listing.kept@);
    &&& contents.len() == page.len()
    &&& forall|i: int|
        0 <= i < contents.len() ==> object_entry_matches(#[trigger] contents[i], encoding, page[i], owner)
    &&& prefixes == encoded_all(encoding, views(listing.common_prefixes@))
}

/// The keys of the rows, cloned.
fn object_row_keys(rows: &Vec<(object::Model, version::Model)>) -> (r: Vec<String>)
    ensures
        views(r@) == object_keys(rows@),
{
    let mut keys: Vec<String> = Vec::new();
    let mut i: usize = 0;
    while i < rows.len()
        invariant
            i <= rows.len(),
            views(keys@) == object_keys(rows@).take(i as int),
        decreases rows.len() - i,
    {
        let k = rows[i].0.key.clone();
        proof {
            assert(views(keys@.push(k)) =~= views(keys@).push(k@));
            assert(object_keys(rows@).take(i + 1) =~= object_keys(rows@).take(i as int).push(
                rows@[i as int].0.key@,
            ));
        }
        keys.push(k);
        i = i + 1;
    }
    assert(object_keys(rows@).take(rows.len() as int) =~= object_keys(rows@));
    keys
}

/// Builds the entries the listing keeps.
fn object_entries(
    rows: &Vec<(object::Model, version::Model)>,
    listing: &Listing,
    encoding: Option<EncodingType>,
    owner: Option<&owner::Model>,
) -> (r: Vec<ListedObject>)
    requires
        listing.page_len <= rows.len(),
        listing.kept@.len() == listing.page_len,
        forall|j: int| 0 <= j < rows.len() ==> version_listable(#[trigger] rows@[j].1),
    ensures
        ({
            let page = selected(rows@.take(listing.page_len as int), listing.kept@);
            let own = match owner {
                Some(o) => Some(*o),
                None => None,
            };
            &&& r@.len() == page.len()
            &&& forall|i: int|
                0 <= i < r@.len() ==> object_entry_matches(#[trigger] r@[i], encoding, page[i], own)
        }),
{
    let ghost own = match owner {
        Some(o) => Some(*o),
        None => None,
    };
    let n = listing.page_len;
    let mut out: Vec<ListedObject> = Vec::new();
    let mut j: usize = 0;
    while j < n
        invariant
            j <= n,
            n == listing.page_len,
            n <= rows.len(),
            listing.kept@.len() == n,
            forall|k: int| 0 <= k < rows.len() ==> version_listable(#[trigger] rows@[k].1),
            own == match owner {
                Some(o) => Some(*o),
                None => None::<owner::Model>,
            },
            ({
                let page = selected(rows@.take(j as int), listing.kept@.take(j as int));
                &&& out@.len() == page.len()
                &&& forall|i: int|
                    0 <= i < out@.len() ==> object_entry_matches(#[trigger] out@[i], encoding, page[i], own)
            }),
        decreases n - j,
    {
        proof {
            lemma_selected_step(rows@, listing.kept@, j as int);
        }
        if listing.kept[j] {
            let row = &rows[j];
            assert(version_listable(rows@[j as int].1));
            let e = ListedObject {
                key: encode_name(encoding, row.0.key.clone()),
                e_tag: row.1.e_tag(),
                last_modified: row.1.last_modified(),
                size: row.1.size(),
                owner: match owner {
                    Some(o) => Some(list_owner(o)),
                    None => None,
                },
            };
            out.push(e);
        }
        j = j + 1;
    }
    assert(listing.kept@.take(n as int) =~= listing.kept@);
    out
}

/// What `ListObjectsV2` answers.
#[derive(Debug, Clone)]
pub struct ListObjectsV2Answer {
    pub common_prefixes: Vec<String>,
    pub contents: Vec<ListedObject>,
    pub continuation_token: Option<String>,
    pub delimiter: Option<String>,
    pub encoding_type: Option<EncodingType>,
    pub is_truncated: bool,
    pub key_count: u16,
    pub max_keys: u16,
    pub name: String,
    pub next_continuation_token: Option<String>,
    pub prefix: String,
    pub start_after: Option<String>,
}

/// The rows a listing query can give back: at most one more than a page, each
/// under the prefix asked for, each version listable.
pub open spec fn object_rows_fit(rows: Seq<(object::Model, version::Model)>, max: u16, prefix: Option<String>) -> bool {
    &&& rows.len() <= max + 1
    &&& forall|j: int|
        0 <= j < rows.len() ==> prefix_view(prefix).is_prefix_of(
            (#[trigger] rows[j]).0.key@,
        )
    &&& forall|j: int| 0 <= j < rows.len() ==> version_listable(#[trigger] rows[j].1)
}

/// The listing of a page of object rows.
pub open spec fn objects_listing(r: Listing, rows: Seq<(object::Model, version::Model)>, max: u16, prefix: Option<String>, delimiter: Option<String>) -> bool {
    listing_matches(r, object_keys(rows), max as nat, prefix_view(prefix), opt_text(delimiter))
}

/// Cuts the page of object rows and rolls it up.
fn objects_listing_of(
    rows: &Vec<(object::Model, version::Model)>,
    max: u16,
    prefix: &Option<String>,
    delimiter: &Option<String>,
) -> (r: Listing)
    requires
        object_rows_fit(rows@, max, *prefix),
    ensures
        objects_listing(r, rows@, max, *prefix, *delimiter),
        r.page_len <= rows.len(),
        r.page_len <= max,
        key_count_of(r.kept@, r.common_prefixes@.len()) <= max,
{
    let keys = object_row_keys(rows);
    let p = as_str_opt(prefix);
    let d = as_str_opt(delimiter);
    proof {
        assert(views(keys@).len() == keys@.len());
        assert(object_keys(rows@).len() == rows@.len());
        assert forall|j: int| 0 <= j < keys.len() implies opt_view(p).is_prefix_of(#[trigger] keys@[j]@) by {
            assert(views(keys@)[j] == keys@[j]@);
            assert(views(keys@)[j] == object_keys(rows@)[j]);
            assert(object_keys(rows@)[j] == rows@[j].0.key@);
            assert(prefix_view(*prefix).is_prefix_of(rows@[j].0.key@));
        }
    }
    let listing = list_page(&keys, max, p, d);
    proof {
        assert(opt_view(p) == prefix_view(*prefix));
        assert(opt_text(*delimiter) == match d {
            Some(x) => Some(x@),
            None => None,
        });
        lemma_page_within_max(listing, views(keys@), max as nat, opt_view(p), opt_text(*delimiter));
    }
    listing
}

/// Answers `ListObjectsV2` (checked by `list_precheck`) from the bucket found
/// and the rows of `objects_v2_query`: the page, its common prefixes, and the
/// key of its last row as the next token when the look-ahead row came back.
pub fn list_objects_v2_answer(
    req: &ListObjectsV2Request,
    owner: &owner::Model,
    bucket: Option<bucket::Model>,
    rows: &Vec<(object::Model, version::Model)>,
) -> (r: Result<ListObjectsV2Answer, AppError>)
    requires
        req.max_keys < u16::MAX,
        !(rows.len() == req.max_keys + 1 && req.max_keys == 0),
        object_rows_fit(rows@, req.max_keys, req.prefix),
    ensures
        r is Err <==> bucket is None,
        r is Err ==> r == Err::<ListObjectsV2Answer, AppError>(AppError::NoSuchBucket),
        r matches Ok(a) ==> exists|listing: Listing| {
            &&& #[trigger] objects_listing(listing, rows@, req.max_keys, req.prefix, req.delimiter)
            &&& objects_page_matches(
                a.contents@,
                views(a.common_prefixes@),
                rows@,
                listing,
                req.encoding_type,
                if req.fetch_owner == Some(true) { Some(*owner) } else { None },
            )
            &&& a.key_count == key_count_of(listing.kept@, listing.common_prefixes@.len())
        },
        r matches Ok(a) ==> {
            &&& opt_text(a.continuation_token) == opt_text(req.continuation_token)
            &&& opt_text(a.delimiter) == opt_encoded(req.encoding_type, req.delimiter)
            &&& a.encoding_type == req.encoding_type
            &&& a.is_truncated == (rows.len() == req.max_keys + 1)
            &&& a.max_keys == req.max_keys
            &&& a.name@ == bucket->0.name@
            &&& a.next_continuation_token is Some == (rows.len() == req.max_keys + 1)
            &&& a.next_continuation_token is Some ==> a.next_continuation_token->0@
                == rows@[req.max_keys - 1].0.key@
            &&& a.prefix@ == prefix_text(req.encoding_type, req.prefix)
            &&& opt_text(a.start_after) == opt_encoded(req.encoding_type, req.start_after)
        },
{
    let bucket = match bucket {
        Some(b) => b,
        None => {
            return Err(AppError::NoSuchBucket);
        },
    };
    let listing = objects_listing_of(rows, req.max_keys, &req.prefix, &req.delimiter);
    let fetch = match req.fetch_owner {
        Some(f) => f,
        None => false,
    };
    let contents = object_entries(
        rows,
        &listing,
        req.encoding_type,
        if fetch {
            Some(owner)
        } else {
            None
        },
    );
    let common = encode_all(req.encoding_type, &listing.common_prefixes);
    let key_count = key_count(&listing);
    let truncated = rows.len() == req.max_keys as usize + 1;
    let next = if truncated {
        Some(rows[req.max_keys as usize - 1].0.key.clone())
    } else {
        None
    };
    let a = ListObjectsV2Answer {
        common_prefixes: common,
        contents,
        continuation_token: req.continuation_token.clone(),
        delimiter: encode_opt_ref(req.encoding_type, &req.delimiter),
        encoding_type: req.encoding_type,
        is_truncated: truncated,
        key_count,
        max_keys: req.max_keys,
        name: bucket.name.clone(),
        next_continuation_token: next,
        prefix: encoded_or_empty(req.encoding_type, &req.prefix),
        start_after: encode_opt_ref(req.encoding_type, &req.start_after),
    };
    assert(objects_listing(listing, rows@, req.max_keys, req.prefix, req.delimiter));
    Ok(a)
}

/// What a `ListObjects` request carries that the server reads.
#[derive(Debug, Clone)]
pub struct ListObjectsRequest {
    /// For each header the server does not implement, whether it was sent.
    pub unsupported: Vec<bool>,
    pub expected_bucket_owner: Option<String>,
    pub prefix: Option<String>,
    pub delimiter: Option<String>,
    pub encoding_type: Option<EncodingType>,
    pub max_keys: u16,
    pub marker: Option<String>,
}

/// The query of `ListObjects`: after the marker.
pub fn objects_query(req: &ListObjectsRequest) -> (r: ListQuery)
    ensures
        opt_text(r.prefix) == opt_text(req.prefix),
        opt_text(r.start_after) == opt_text(req.marker),
        r.limit == req.max_keys + 1,
{
    ListQuery { prefix: req.prefix.clone(), start_after: req.marker.clone(), limit: req.max_keys as u32 + 1 }
}

/// What `ListObjects` answers.
#[derive(Debug, Clone)]
pub struct ListObjectsAnswer {
    pub common_prefixes: Vec<String>,
    pub contents: Vec<ListedObject>,
    pub delimiter: Option<String>,
    pub encoding_type: Option<EncodingType>,
    pub is_truncated: bool,
    pub marker: String,
    pub max_keys: u16,
    pub name: String,
    pub next_marker: Option<String>,
    pub prefix: String,
}

/// Answers `ListObjects` (checked by `list_precheck`) from the bucket found and
/// the rows of `objects_query`: the page with the owner of every entry, its
/// common prefixes, and, only when a delimiter was given, the key of its last
/// row as the next marker when the look-ahead row came back.
pub fn list_objects_answer(
    req: &ListObjectsRequest,
    owner: &owner::Model,
    bucket: Option<bucket::Model>,
    rows: &Vec<(object::Model, version::Model)>,
) -> (r: Result<ListObjectsAnswer, AppError>)
    requires
        req.max_keys < u16::MAX,
        !(rows.len() == req.max_keys + 1 && req.max_keys == 0),
        object_rows_fit(rows@, req.max_keys, req.prefix),
    ensures
        r is Err <==> bucket is None,
        r is Err ==> r == Err::<ListObjectsAnswer, AppError>(AppError::NoSuchBucket),
        r matches Ok(a) ==> exists|listing: Listing| {
            &&& #[trigger] objects_listing(listing, rows@, req.max_keys, req.prefix, req.delimiter)
            &&& objects_page_matches(
                a.contents@,
                views(a.common_prefixes@),
                rows@,
                listing,
                req.encoding_type,
                Some(*owner),
            )
        },
        r matches Ok(a) ==> {
            &&& opt_text(a.delimiter) == opt_encoded(req.encoding_type, req.delimiter)
            &&& a.encoding_type == req.encoding_type
            &&& a.is_truncated == (rows.len() == req.max_keys + 1)
            &&& a.marker@ == prefix_text(req.encoding_type, req.marker)
            &&& a.max_keys == req.max_keys
            &&& a.name@ == bucket->0.name@
            &&& a.next_marker is Some == (req.delimiter is Some && rows.len() == req.max_keys + 1)
            &&& a.next_marker is Some ==> a.next_marker->0@ == encoded(
                req.encoding_type,
                rows@[req.max_keys - 1].0.key@,
            )
            &&& a.prefix@ == prefix_text(req.encoding_type, req.prefix)
        },
{
    let bucket = match bucket {
        Some(b) => b,
        None => {
            return Err(AppError::NoSuchBucket);
        },
    };
    let listing = objects_listing_of(rows, req.max_keys, &req.prefix, &req.delimiter);
    let contents = object_entries(rows, &listing, req.encoding_type, Some(owner));
    let common = encode_all(req.encoding_type, &listing.common_prefixes);
    let truncated = rows.len() == req.max_keys as usize + 1;
    let next = if truncated {
        Some(rows[req.max_keys as usize - 1].0.key.clone())
    } else {
        None
    };
    let a = ListObjectsAnswer {
        common_prefixes: common,
        contents,
        delimiter: encode_opt_ref(req.encoding_type, &req.delimiter),
        encoding_type: req.encoding_type,
        is_truncated: truncated,
        marker: encoded_or_empty(req.encoding_type, &req.marker),
        max_keys: req.max_keys,
        name: bucket.name.clone(),
        next_marker: v1_next_marker(req.delimiter.is_some(), next, req.encoding_type),
        prefix: encoded_or_empty(req.encoding_type, &req.prefix),
    };
    assert(objects_listing(listing, rows@, req.max_keys, req.prefix, req.delimiter));
    Ok(a)
}

/// Cuts a page of rows by their keys and rolls it up.
fn listing_of_keys(keys: &Vec<String>, max: u16, prefix: &Option<String>, delimiter: &Option<String>) -> (r: Listing)
    requires
        keys.len() <= max + 1,
        forall|j: int|
            0 <= j < keys.len() ==> prefix_view(*prefix).is_prefix_of(#[trigger] keys@[j]@),
    ensures
        listing_matches(r, views(keys@), max as nat, prefix_view(*prefix), opt_text(*delimiter)),
        r.page_len <= keys.len(),
        r.page_len <= max,
{
    let p = as_str_opt(prefix);
    let d = as_str_opt(delimiter);
    let listing = list_page(keys, max, p, d);
    proof {
        assert(opt_view(p) == prefix_view(*prefix));
        assert(opt_text(*delimiter) == match d {
            Some(x) => Some(x@),
            None => None,
        });
    }
    listing
}

// ---------------------------------------------------------------- versions

/// What a `ListObjectVersions` request carries that the server reads.
#[derive(Debug, Clone)]
pub struct ListObjectVersionsRequest {
    /// For each header the server does not implement, whether it was sent.
    pub unsupported: Vec<bool>,
    pub expected_bucket_owner: Option<String>,
    pub prefix: Option<String>,
    pub delimiter: Option<String>,
    pub encoding_type: Option<EncodingType>,
    pub max_keys: u16,
    pub key_marker: Option<String>,
    pub version_id_marker: Option<String>,
}

/// A version or delete marker listed by `ListObjectVersions`.
#[derive(Debug, Clone)]
pub struct ListedVersion {
    pub key: String,
    pub is_latest: bool,
    pub last_modified: i64,
    pub owner: ListOwner,
    pub version_id: u128,
    pub delete_marker: bool,
    /// The entity tag and size, for a version that is not a delete marker.
    pub e_tag: Option<String>,
    pub size: Option<u64>,
}

/// The entry of a version row.
pub open spec fn version_entry_matches(
    e: ListedVersion,
    encoding: Option<EncodingType>,
    row: (version::Model, object::Model),
    owner: owner::Model,
) -> bool {
    &&& e.key@ == encoded(encoding, row.1.key@)
    &&& e.is_latest == (row.1.version_id == row.0.id)
    &&& e.last_modified == version_last_modified(row.0)
    &&& owner_matches(e.owner, owner)
    &&& e.version_id == row.0.spec_id()
    &&& e.delete_marker == row.0.is_delete_marker()
    &&& e.e_tag is Some == !row.0.is_delete_marker()
    &&& e.e_tag is Some ==> e.e_tag->0@ == row.0.spec_e_tag()
    &&& e.size == (if row.0.is_delete_marker() { None } else { Some(row.0.size->0 as u64) })
}

/// The object keys of version rows.
pub open spec fn version_keys(rows: Seq<(version::Model, object::Model)>) -> Seq<Seq<char>> {
    rows.map_values(|r: (version::Model, object::Model)| r.1.key@)
}

/// What `ListObjectVersions` answers.
#[derive(Debug, Clone)]
pub struct ListObjectVersionsAnswer {
    pub common_prefixes: Vec<String>,
    pub entries: Vec<ListedVersion>,
    pub delimiter: Option<String>,
    pub encoding_type: Option<EncodingType>,
    pub is_truncated: bool,
    pub key_marker: String,
    pub max_keys: u16,
    pub name: String,
    pub next_key_marker: Option<String>,
    pub next_version_id_marker: Option<u128>,
    pub prefix: String,
    pub version_id_marker: String,
}

/// The query of `ListObjectVersions`: after the key marker and version id marker.
pub fn versions_query(req: &ListObjectVersionsRequest) -> (r: (ListQuery, Option<String>))
    ensures
        opt_text(r.0.prefix) == opt_text(req.prefix),
        opt_text(r.0.start_after) == opt_text(req.key_marker),
        opt_text(r.1) == opt_text(req.version_id_marker),
        r.0.limit == req.max_keys + 1,
{
    (
        ListQuery { prefix: req.prefix.clone(), start_after: req.key_marker.clone(), limit: req.max_keys as u32 + 1 },
        req.version_id_marker.clone(),
    )
}

/// The rows a versions query can give back.
pub open spec fn version_rows_fit(rows: Seq<(version::Model, object::Model)>, max: u16, prefix: Option<String>) -> bool {
    &&& rows.len() <= max + 1
    &&& forall|j: int|
        0 <= j < rows.len() ==> prefix_view(prefix).is_prefix_of(
            (#[trigger] rows[j]).1.key@,
        )
    &&& forall|j: int|
        0 <= j < rows.len() ==> (!(#[trigger] rows[j]).0.is_delete_marker() ==> version_listable(rows[j].0))
}

fn version_row_keys(rows: &Vec<(version::Model, object::Model)>) -> (r: Vec<String>)
    ensures
        views(r@) == version_keys(rows@),
{
    let mut keys: Vec<String> = Vec::new();
    let mut i: usize = 0;
    while i < rows.len()
        invariant
            i <= rows.len(),
            views(keys@) == version_keys(rows@).take(i as int),
        decreases rows.len() - i,
    {
        let k = rows[i].1.key.clone();
        proof {
            assert(views(keys@.push(k)) =~= views(keys@).push(k@));
            assert(version_keys(rows@).take(i + 1) =~= version_keys(rows@).take(i as int).push(
                rows@[i as int].1.key@,
            ));
        }
        keys.push(k);
        i = i + 1;
    }
    assert(version_keys(rows@).take(rows.len() as int) =~= version_keys(rows@));
    keys
}

/// Answers `ListObjectVersions` (checked by `list_precheck`) from the bucket
/// found and the rows of `versions_query`: the page of versions and delete
/// markers, its common prefixes, and the look-ahead row's key and version id
/// as the next markers when it came back.
pub fn list_object_versions_answer(
    req: &ListObjectVersionsRequest,
    owner: &owner::Model,
    bucket: Option<bucket::Model>,
    rows: &Vec<(version::Model, object::Model)>,
) -> (r: Result<ListObjectVersionsAnswer, AppError>)
    requires
        req.max_keys < u16::MAX,
        version_rows_fit(rows@, req.max_keys, req.prefix),
    ensures
        r is Err <==> bucket is None,
        r is Err ==> r == Err::<ListObjectVersionsAnswer, AppError>(AppError::NoSuchBucket),
        r matches Ok(a) ==> exists|listing: Listing| {
            let page = selected(rows@.take(listing.page_len as int), listing.kept@);
            &&& #[trigger] listing_matches(
                listing,
                version_keys(rows@),
                req.max_keys as nat,
                prefix_view(req.prefix),
                opt_text(req.delimiter),
            )
            &&& a.entries@.len() == page.len()
            &&& forall|i: int|
                0 <= i < a.entries@.len() ==> version_entry_matches(
                    #[trigger] a.entries@[i],
                    req.encoding_type,
                    page[i],
                    *owner,
                )
            &&& views(a.common_prefixes@) == encoded_all(req.encoding_type, views(listing.common_prefixes@))
        },
        r matches Ok(a) ==> {
            &&& opt_text(a.delimiter) == opt_encoded(req.encoding_type, req.delimiter)
            &&& a.encoding_type == req.encoding_type
            &&& a.is_truncated == (rows.len() == req.max_keys + 1)
            &&& a.key_marker@ == prefix_text(req.encoding_type, req.key_marker)
            &&& a.max_keys == req.max_keys
            &&& a.name@ == bucket->0.name@
            &&& a.next_key_marker is Some == (rows.len() == req.max_keys + 1)
            &&& a.next_key_marker is Some ==> a.next_key_marker->0@ == encoded(
                req.encoding_type,
                rows@[req.max_keys as int].1.key@,
            )
            &&& a.next_version_id_marker == (if rows.len() == req.max_keys + 1 {
                Some(rows@[req.max_keys as int].0.id)
            } else {
                None
            })
            &&& a.prefix@ == prefix_text(req.encoding_type, req.prefix)
            &&& a.version_id_marker@ == match req.version_id_marker {
                Some(m) => m@,
                None => Seq::<char>::empty(),
            }
        },
{
    let bucket = match bucket {
        Some(b) => b,
        None => {
            return Err(AppError::NoSuchBucket);
        },
    };
    let keys = version_row_keys(rows);
    proof {
        assert(views(keys@).len() == keys@.len());
        assert forall|j: int| 0 <= j < keys.len() implies prefix_view(req.prefix).is_prefix_of(
            #[trigger] keys@[j]@,
        ) by {
            assert(views(keys@)[j] == keys@[j]@);
            assert(version_keys(rows@)[j] == rows@[j].1.key@);
        }
    }
    let listing = listing_of_keys(&keys, req.max_keys, &req.prefix, &req.delimiter);
    let n = listing.page_len;
    let mut out: Vec<ListedVersion> = Vec::new();
    let mut j: usize = 0;
    while j < n
        invariant
            j <= n,
            n == listing.page_len,
            n <= rows.len(),
            listing.kept@.len() == n,
            version_rows_fit(rows@, req.max_keys, req.prefix),
            ({
                let page = selected(rows@.take(j as int), listing.kept@.take(j as int));
                &&& out@.len() == page.len()
                &&& forall|i: int|
                    0 <= i < out@.len() ==> version_entry_matches(
                        #[trigger] out@[i],
                        req.encoding_type,
                        page[i],
                        *owner,
                    )
            }),
        decreases n - j,
    {
        proof {
            lemma_selected_step(rows@, listing.kept@, j as int);
        }
        if listing.kept[j] {
            let row = &rows[j];
            let marker = row.0.parts_count.is_none();
            assert(!rows@[j as int].0.is_delete_marker() ==> version_listable(rows@[j as int].0));
            let e = ListedVersion {
                key: encode_name(req.encoding_type, row.1.key.clone()),
                is_latest: row.1.version_id == row.0.id,
                last_modified: row.0.last_modified(),
                owner: list_owner(owner),
                version_id: row.0.id(),
                delete_marker: marker,
                e_tag: if marker {
                    None
                } else {
                    Some(row.0.e_tag())
                },
                size: if marker {
                    None
                } else {
                    Some(row.0.size())
                },
            };
            out.push(e);
        }
        j = j + 1;
    }
    assert(listing.kept@.take(n as int) =~= listing.kept@);
    assert(views(keys@) == version_keys(rows@));
    let truncated = rows.len() == req.max_keys as usize + 1;
    let (next_key, next_id) = if truncated {
        let row = &rows[req.max_keys as usize];
        (Some(encode_name(req.encoding_type, row.1.key.clone())), Some(row.0.id))
    } else {
        (None, None)
    };
    let a = ListObjectVersionsAnswer {
        common_prefixes: encode_all(req.encoding_type, &listing.common_prefixes),
        entries: out,
        delimiter: encode_opt_ref(req.encoding_type, &req.delimiter),
        encoding_type: req.encoding_type,
        is_truncated: truncated,
        key_marker: encoded_or_empty(req.encoding_type, &req.key_marker),
        max_keys: req.max_keys,
        name: bucket.name.clone(),
        next_key_marker: next_key,
        next_version_id_marker: next_id,
        prefix: encoded_or_empty(req.encoding_type, &req.prefix),
        version_id_marker: match &req.version_id_marker {
            Some(m) => m.clone(),
            None => String::new(),
        },
    };
    Ok(a)
}

// ---------------------------------------------------------------- uploads

/// What a `ListMultipartUploads` request carries that the server reads.
#[derive(Debug, Clone)]
pub struct ListMultipartUploadsRequest {
    /// For each header the server does not implement, whether it was sent.
    pub unsupported: Vec<bool>,
    pub expected_bucket_owner: Option<String>,
    pub prefix: Option<String>,
    pub delimiter: Option<String>,
    pub encoding_type: Option<EncodingType>,
    pub max_uploads: u16,
    pub key_marker: Option<String>,
    pub upload_id_marker: Option<String>,
}

/// An upload listed by `ListMultipartUploads`; its owner is also its initiator.
#[derive(Debug, Clone)]
pub struct ListedUpload {
    pub upload_id: u128,
    pub key: String,
    pub initiated: i64,
    pub owner: ListOwner,
}

/// The entry of an upload row: its key is not encoded.
pub open spec fn upload_entry_matches(e: ListedUpload, row: upload::Model, owner: owner::Model) -> bool {
    &&& e.upload_id == row.id
    &&& e.key@ == row.key@
    &&& e.initiated == row.created_at
    &&& owner_matches(e.owner, owner)
}

/// The keys of upload rows.
pub open spec fn upload_keys(rows: Seq<upload::Model>) -> Seq<Seq<char>> {
    rows.map_values(|r: upload::Model| r.key@)
}

/// What `ListMultipartUploads` answers.
#[derive(Debug, Clone)]
pub struct ListMultipartUploadsAnswer {
    pub bucket: String,
    pub common_prefixes: Vec<String>,
    pub delimiter: Option<String>,
    pub encoding_type: Option<EncodingType>,
    pub is_truncated: bool,
    pub key_marker: String,
    pub max_uploads: u16,
    pub next_key_marker: String,
    pub next_upload_id_marker: Option<u128>,
    pub prefix: Option<String>,
    pub uploads: Vec<ListedUpload>,
    pub upload_id_marker: String,
}

/// The query of `ListMultipartUploads`: after the key marker and upload id marker.
pub fn uploads_query(req: &ListMultipartUploadsRequest) -> (r: (ListQuery, Option<String>))
    ensures
        opt_text(r.0.prefix) == opt_text(req.prefix),
        opt_text(r.0.start_after) == opt_text(req.key_marker),
        opt_text(r.1) == opt_text(req.upload_id_marker),
        r.0.limit == req.max_uploads + 1,
{
    (
        ListQuery { prefix: req.prefix.clone(), start_after: req.key_marker.clone(), limit: req.max_uploads as u32 + 1 },
        req.upload_id_marker.clone(),
    )
}

fn upload_row_keys(rows: &Vec<upload::Model>) -> (r: Vec<String>)
    ensures
        views(r@) == upload_keys(rows@),
{
    let mut keys: Vec<String> = Vec::new();
    let mut i: usize = 0;
    while i < rows.len()
        invariant
            i <= rows.len(),
            views(keys@) == upload_keys(rows@).take(i as int),
        decreases rows.len() - i,
    {
        let k = rows[i].key.clone();
        proof {
            assert(views(keys@.push(k)) =~= views(keys@).push(k@));
            assert(upload_keys(rows@).take(i + 1) =~= upload_keys(rows@).take(i as int).push(rows@[i as int].key@));
        }
        keys.push(k);
        i = i + 1;
    }
    assert(upload_keys(rows@).take(rows.len() as int) =~= upload_keys(rows@));
    keys
}

/// Answers `ListMultipartUploads` (checked by `list_precheck`) from the bucket
/// found and the rows of `uploads_query`: the page of uploads, its common
/// prefixes, and the look-ahead row's key and upload id as the next markers
/// when it came back (an empty key marker otherwise).
pub fn list_multipart_uploads_answer(
    req: &ListMultipartUploadsRequest,
    owner: &owner::Model,
    bucket: Option<bucket::Model>,
    rows: &Vec<upload::Model>,
) -> (r: Result<ListMultipartUploadsAnswer, AppError>)
    requires
        req.max_uploads < u16::MAX,
        rows.len() <= req.max_uploads + 1,
        forall|j: int| 0 <= j < rows.len() ==> prefix_view(req.prefix).is_prefix_of((#[trigger] rows@[j]).key@),
    ensures
        r is Err <==> bucket is None,
        r is Err ==> r == Err::<ListMultipartUploadsAnswer, AppError>(AppError::NoSuchBucket),
        r matches Ok(a) ==> exists|listing: Listing| {
            let page = selected(rows@.take(listing.page_len as int), listing.kept@);
            &&& #[trigger] listing_matches(
                listing,
                upload_keys(rows@),
                req.max_uploads as nat,
                prefix_view(req.prefix),
                opt_text(req.delimiter),
            )
            &&& a.uploads@.len() == page.len()
            &&& forall|i: int|
                0 <= i < a.uploads@.len() ==> upload_entry_matches(#[trigger] a.uploads@[i], page[i], *owner)
            &&& views(a.common_prefixes@) == encoded_all(req.encoding_type, views(listing.common_prefixes@))
        },
        r matches Ok(a) ==> {
            &&& a.bucket@ == bucket->0.name@
            &&& opt_text(a.delimiter) == opt_encoded(req.encoding_type, req.delimiter)
            &&& a.encoding_type == req.encoding_type
            &&& a.is_truncated == (rows.len() == req.max_uploads + 1)
            &&& a.key_marker@ == prefix_text(req.encoding_type, req.key_marker)
            &&& a.max_uploads == req.max_uploads
            &&& a.next_key_marker@ == (if rows.len() == req.max_uploads + 1 {
                encoded(req.encoding_type, rows@[req.max_uploads as int].key@)
            } else {
                Seq::<char>::empty()
            })
            &&& a.next_upload_id_marker == (if rows.len() == req.max_uploads + 1 {
                Some(rows@[req.max_uploads as int].id)
            } else {
                None
            })
            &&& opt_text(a.prefix) == opt_encoded(req.encoding_type, req.prefix)
            &&& a.upload_id_marker@ == prefix_view(req.upload_id_marker)
        },
{
    let bucket = match bucket {
        Some(b) => b,
        None => {
            return Err(AppError::NoSuchBucket);
        },
    };
    let keys = upload_row_keys(rows);
    proof {
        assert(views(keys@).len() == keys@.len());
        assert forall|j: int| 0 <= j < keys.len() implies prefix_view(req.prefix).is_prefix_of(#[trigger] keys@[j]@) by {
            assert(views(keys@)[j] == keys@[j]@);
            assert(upload_keys(rows@)[j] == rows@[j].key@);
        }
    }
    let listing = listing_of_keys(&keys, req.max_uploads, &req.prefix, &req.delimiter);
    let n = listing.page_len;
    let mut out: Vec<ListedUpload> = Vec::new();
    let mut j: usize = 0;
    while j < n
        invariant
            j <= n,
            n == listing.page_len,
            n <= rows.len(),
            listing.kept@.len() == n,
            ({
                let page = selected(rows@.take(j as int), listing.kept@.take(j as int));
                &&& out@.len() == page.len()
                &&& forall|i: int| 0 <= i < out@.len() ==> upload_entry_matches(#[trigger] out@[i], page[i], *owner)
            }),
        decreases n - j,
    {
        proof {
            lemma_selected_step(rows@, listing.kept@, j as int);
        }
        if listing.kept[j] {
            let row = &rows[j];
            out.push(ListedUpload { upload_id: row.id, key: row.key.clone(), initiated: row.created_at, owner: list_owner(owner) });
        }
        j = j + 1;
    }
    assert(listing.kept@.take(n as int) =~= listing.kept@);
    assert(views(keys@) == upload_keys(rows@));
    let truncated = rows.len() == req.max_uploads as usize + 1;
    let (next_key, next_id) = if truncated {
        let row = &rows[req.max_uploads as usize];
        (encode_name(req.encoding_type, row.key.clone()), Some(row.id))
    } else {
        (String::new(), None)
    };
    Ok(
        ListMultipartUploadsAnswer {
            bucket: bucket.name.clone(),
            common_prefixes: encode_all(req.encoding_type, &listing.common_prefixes),
            delimiter: encode_opt_ref(req.encoding_type, &req.delimiter),
            encoding_type: req.encoding_type,
            is_truncated: truncated,
            key_marker: encoded_or_empty(req.encoding_type, &req.key_marker),
            max_uploads: req.max_uploads,
            next_key_marker: next_key,
            next_upload_id_marker: next_id,
            prefix: encode_opt_ref(req.encoding_type, &req.prefix),
            uploads: out,
            upload_id_marker: match &req.upload_id_marker {
                Some(m) => m.clone(),
                None => String::new(),
            },
        },
    )
}

// ---------------------------------------------------------------- buckets

/// A bucket listed by `ListBuckets`.
#[derive(Debug, Clone)]
pub struct ListedBucket {
    pub name: String,
    pub creation_date: i64,
}

/// What `ListBuckets` answers.
#[derive(Debug, Clone)]
pub struct ListBucketsAnswer {
    pub buckets: Vec<ListedBucket>,
    pub owner: ListOwner,
    pub continuation_token: Option<String>,
    pub prefix: Option<String>,
}

/// Answers `ListBuckets` from the owner's buckets fetched with one row of
/// look-ahead: the page, and the name of its last bucket as the continuation
/// token when the look-ahead row came back.
pub fn list_buckets_answer(
    max_buckets: u16,
    prefix: &Option<String>,
    owner: &owner::Model,
    rows: &Vec<bucket::Model>,
) -> (r: ListBucketsAnswer)
    requires
        rows.len() <= max_buckets + 1,
        !(rows.len() == max_buckets + 1 && max_buckets == 0),
    ensures
        r.buckets@.len() == page_len(rows.len() as nat, max_buckets as nat),
        forall|i: int|
            0 <= i < r.buckets@.len() ==> (#[trigger] r.buckets@[i]).name@ == rows@[i].name@
                && r.buckets@[i].creation_date == rows@[i].created_at,
        owner_matches(r.owner, *owner),
        r.continuation_token is Some == (rows.len() == max_buckets + 1),
        r.continuation_token is Some ==> r.continuation_token->0@ == rows@[max_buckets - 1].name@,
        opt_text(r.prefix) == opt_text(*prefix),
{
    let n: usize = if rows.len() == max_buckets as usize + 1 {
        max_buckets as usize
    } else {
        rows.len()
    };
    let mut out: Vec<ListedBucket> = Vec::new();
    let mut i: usize = 0;
    while i < n
        invariant
            i <= n,
            n <= rows.len(),
            out@.len() == i,
            forall|k: int|
                0 <= k < i ==> (#[trigger] out@[k]).name@ == rows@[k].name@ && out@[k].creation_date
                    == rows@[k].created_at,
        decreases n - i,
    {
        out.push(ListedBucket { name: rows[i].name.clone(), creation_date: rows[i].created_at });
        i = i + 1;
    }
    let token = if rows.len() == max_buckets as usize + 1 {
        Some(rows[max_buckets as usize - 1].name.clone())
    } else {
        None
    };
    ListBucketsAnswer { buckets: out, owner: list_owner(owner), continuation_token: token, prefix: prefix.clone() }
}

// ---------------------------------------------------------------- parts

/// What a `ListParts` request carries that the server reads.
#[derive(Debug, Clone)]
pub struct ListPartsRequest {
    /// For each header the server does not implement, whether it was sent.
    pub unsupported: Vec<bool>,
    pub expected_bucket_owner: Option<String>,
    pub max_parts: u16,
    pub part_number_marker: Option<u16>,
}

/// A part listed by `ListParts`.
#[derive(Debug, Clone)]
pub struct ListedPart {
    pub part_number: u16,
    pub last_modified: i64,
    pub e_tag: String,
    pub size: u64,
}

/// The entry of a part row.
pub open spec fn part_entry_matches(e: ListedPart, p: upload_part::Model) -> bool {
    &&& e.part_number == p.number as u16
    &&& e.last_modified == match p.updated_at {
        Some(t) => t,
        None => p.created_at,
    }
    &&& e.e_tag@ == md5_e_tag(p.md5@)
    &&& e.size == p.size as u64
}

/// What `ListParts` answers.
#[derive(Debug, Clone)]
pub struct ListPartsAnswer {
    pub bucket: String,
    pub owner: ListOwner,
    pub is_truncated: bool,
    pub key: String,
    pub max_parts: u16,
    pub next_part_number_marker: Option<u16>,
    pub parts: Vec<ListedPart>,
    pub part_number_marker: Option<u16>,
    pub upload_id: u128,
}

/// The query of `ListParts`, once the upload is found: the parts after the
/// part number marker, at most one more than a page.
pub fn parts_query(req: &ListPartsRequest) -> (r: (Option<u16>, u32))
    ensures
        r.0 == req.part_number_marker,
        r.1 == req.max_parts + 1,
{
    (req.part_number_marker, req.max_parts as u32 + 1)
}

/// Answers `ListParts` (checked by `list_precheck`) from the bucket and upload
/// found and the rows of `parts_query`: no bucket is `NoSuchBucket`, no upload
/// `NoSuchUpload`; otherwise the page of parts and, when the look-ahead row
/// came back, the number of the page's last part as the next marker.
pub fn list_parts_answer(
    req: &ListPartsRequest,
    owner: &owner::Model,
    found: Option<(bucket::Model, Option<upload::Model>)>,
    rows: &Vec<upload_part::Model>,
) -> (r: Result<ListPartsAnswer, AppError>)
    requires
        rows.len() <= req.max_parts + 1,
        !(rows.len() == req.max_parts + 1 && req.max_parts == 0),
    ensures
        found is None ==> r == Err::<ListPartsAnswer, AppError>(AppError::NoSuchBucket),
        found matches Some((_, None)) ==> r == Err::<ListPartsAnswer, AppError>(AppError::NoSuchUpload),
        found matches Some((_, Some(_))) ==> r is Ok,
        r matches Ok(a) ==> (found matches Some((b, Some(u))) && {
            &&& a.bucket@ == b.name@
            &&& owner_matches(a.owner, *owner)
            &&& a.is_truncated == (rows.len() == req.max_parts + 1)
            &&& a.key@ == u.key@
            &&& a.max_parts == req.max_parts
            &&& a.next_part_number_marker == (if rows.len() == req.max_parts + 1 {
                Some(rows@[req.max_parts - 1].number as u16)
            } else {
                None
            })
            &&& a.parts@.len() == page_len(rows.len() as nat, req.max_parts as nat)
            &&& forall|i: int| 0 <= i < a.parts@.len() ==> part_entry_matches(#[trigger] a.parts@[i], rows@[i])
            &&& a.part_number_marker == req.part_number_marker
            &&& a.upload_id == u.id
        }),
{
    let (bucket, upload) = match found {
        None => {
            return Err(AppError::NoSuchBucket);
        },
        Some((_, None)) => {
            return Err(AppError::NoSuchUpload);
        },
        Some((b, Some(u))) => (b, u),
    };
    let truncated = rows.len() == req.max_parts as usize + 1;
    let n: usize = if truncated {
        req.max_parts as usize
    } else {
        rows.len()
    };
    let mut out: Vec<ListedPart> = Vec::new();
    let mut i: usize = 0;
    while i < n
        invariant
            i <= n,
            n <= rows.len(),
            out@.len() == i,
            forall|k: int| 0 <= k < i ==> part_entry_matches(#[trigger] out@[k], rows@[k]),
        decreases n - i,
    {
        let p = &rows[i];
        out.push(
            ListedPart {
                part_number: p.number as u16,
                last_modified: p.last_modified(),
                e_tag: p.e_tag(),
                size: p.size(),
            },
        );
        i = i + 1;
    }
    let next = if truncated {
        Some(rows[req.max_parts as usize - 1].number as u16)
    } else {
        None
    };
    Ok(
        ListPartsAnswer {
            bucket: bucket.name.clone(),
            owner: list_owner(owner),
            is_truncated: truncated,
            key: upload.key.clone(),
            max_parts: req.max_parts,
            next_part_number_marker: next,
            parts: out,
            part_number_marker: req.part_number_marker,
            upload_id: upload.id,
        },
    )
}

} // verus!
