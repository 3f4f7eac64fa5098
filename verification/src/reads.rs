//! Reading an object back: what `GetObject` and `HeadObject` answer, and
//! which bytes of each stored piece a byte range takes.
use vstd::prelude::*;

use crate::errors::AppError;

verus! {

/// An inclusive byte range, already checked against the object size.
#[derive(Debug, Clone, Copy, PartialEq, Eq)]
pub struct ByteRange {
    pub first: u64,
    pub last: u64,
}

/// The `Content-Range` of a ranged answer.
#[derive(Debug, Clone, Copy, PartialEq, Eq)]
pub struct ContentRange {
    pub first_byte: u64,
    pub last_byte: u64,
    pub complete_length: u64,
}

/// The answer when the version read is a delete marker: 405 when the request
/// named the version, else 404; the marker's last change is reported only
/// when the version was named.
#[derive(Debug, Clone, Copy, PartialEq, Eq)]
pub struct DeleteMarkerReply {
    pub status: u16,
    pub last_modified: Option<i64>,
    pub delete_marker: bool,
}

/// Answers a read that reached a delete marker.
pub fn delete_marker_reply(version_named: bool, last_modified: i64) -> (r: DeleteMarkerReply)
    ensures
        r == (DeleteMarkerReply {
            status: if version_named {
                405u16
            } else {
                404u16
            },
            last_modified: if version_named {
                Some(last_modified)
            } else {
                None
            },
            delete_marker: true,
        }),
{
    DeleteMarkerReply {
        status: if version_named {
            405
        } else {
            404
        },
        last_modified: if version_named {
            Some(last_modified)
        } else {
            None
        },
        delete_marker: true,
    }
}

/// Reading one part of a version with a byte range is not supported.
pub fn check_part_read(part_number: Option<u16>, ranged: bool) -> (r: Result<(), AppError>)
    ensures
        r == (if part_number is Some && ranged {
            Err::<(), AppError>(AppError::InternalError)
        } else {
            Ok(())
        }),
{
    if part_number.is_some() && ranged {
        Err(AppError::InternalError)
    } else {
        Ok(())
    }
}

/// The length of the answer body: the whole size, or that of the range.
pub fn content_length(size: u64, range: Option<ByteRange>) -> (r: u64)
    requires
        range matches Some(rg) ==> rg.first <= rg.last && rg.last - rg.first < u64::MAX,
    ensures
        r == match range {
            Some(rg) => (rg.last - rg.first + 1) as u64,
            None => size,
        },
{
    match range {
        Some(rg) => rg.last - rg.first + 1,
        None => size,
    }
}

/// The `Content-Range` of the answer, when a range was asked for.
pub fn content_range(size: u64, range: Option<ByteRange>) -> (r: Option<ContentRange>)
    ensures
        r == match range {
            Some(rg) => Some(
                ContentRange { first_byte: rg.first, last_byte: rg.last, complete_length: size },
            ),
            None => None::<ContentRange>,
        },
{
    match range {
        Some(rg) => Some(ContentRange { first_byte: rg.first, last_byte: rg.last, complete_length: size }),
        None => None,
    }
}

/// A stored piece overlaps the range: it starts no later than the range ends
/// and ends no earlier than the range starts (the filter the pieces are fetched with).
pub open spec fn overlaps(start: int, end: int, rg: ByteRange) -> bool {
    start <= rg.last && end >= rg.first
}

/// The part of a range that falls in a piece stored at `[start, end]`, in
/// offsets from the piece's start.
pub open spec fn local_range(start: int, end: int, rg: ByteRange) -> (int, int) {
    let first = if start >= rg.first {
        start
    } else {
        rg.first as int
    };
    let last = if end <= rg.last {
        end
    } else {
        rg.last as int
    };
    (first - start, last - start)
}

/// The range in a piece's own offsets: from the later of the two starts to the
/// earlier of the two ends.
pub fn piece_range(start: u64, end: u64, rg: ByteRange) -> (r: ByteRange)
    requires
        overlaps(start as int, end as int, rg),
        start <= end,
    ensures
        r.first == local_range(start as int, end as int, rg).0,
        r.last == local_range(start as int, end as int, rg).1,
{
    let first = if start >= rg.first {
        start
    } else {
        rg.first
    };
    let last = if end <= rg.last {
        end
    } else {
        rg.last
    };
    ByteRange { first: first - start, last: last - start }
}

/// The bytes of a stored chunk an answer takes: all of them without a range,
/// else those the range covers.
pub open spec fn chunk_slice(start: int, end: int, data: Seq<u8>, range: Option<ByteRange>) -> Seq<
    u8,
> {
    match range {
        Some(rg) => {
            let (a, b) = local_range(start, end, rg);
            data.subrange(a, b + 1)
        },
        None => data,
    }
}

/// Copies out the bytes of a chunk stored at `[start, end]` that the range covers.
pub fn slice_chunk(start: i64, end: i64, data: &Vec<u8>, range: Option<ByteRange>) -> (r: Vec<u8>)
    requires
        0 <= start <= end,
        data.len() == end - start + 1,
        range matches Some(rg) ==> rg.first <= rg.last && overlaps(start as int, end as int, rg),
    ensures
        r@ == chunk_slice(start as int, end as int, data@, range),
{
    match range {
        Some(rg) => {
            let local = piece_range(start as u64, end as u64, rg);
            let mut out: Vec<u8> = Vec::new();
            let mut i: usize = local.first as usize;
            let stop: usize = local.last as usize + 1;
            while i < stop
                invariant
                    local.first <= i <= stop,
                    stop <= data.len(),
                    out@ == data@.subrange(local.first as int, i as int),
                decreases stop - i,
            {
                out.push(data[i]);
                i = i + 1;
            }
            out
        },
        None => data.clone(),
    }
}

/// Pieces stored one after the other, end to end.
pub open spec fn flatten(pieces: Seq<Seq<u8>>) -> Seq<u8>
    decreases pieces.len(),
{
    if pieces.len() == 0 {
        Seq::empty()
    } else {
        flatten(pieces.drop_last()) + pieces.last()
    }
}

/// What a ranged read gives back of pieces stored one after the other, each
/// at the offsets where the pieces before it end: the pieces that overlap the
/// range, in order, each cut to the range.
pub open spec fn ranged_read(pieces: Seq<Seq<u8>>, rg: ByteRange) -> Seq<u8>
    decreases pieces.len(),
{
    if pieces.len() == 0 {
        Seq::empty()
    } else {
        let before = ranged_read(pieces.drop_last(), rg);
        let start = flatten(pieces.drop_last()).len() as int;
        let end = start + pieces.last().len() - 1;
        if overlaps(start, end, rg) {
            before + chunk_slice(start, end, pieces.last(), Some(rg))
        } else {
            before
        }
    }
}

/// The smaller of two integers.
pub open spec fn min_int(a: int, b: int) -> int {
    if a <= b {
        a
    } else {
        b
    }
}

/// A ranged read of stored pieces gives back exactly the bytes of the range
/// (cut at the end of the data): what was written in pieces reads back whole.
pub proof fn lemma_ranged_read(pieces: Seq<Seq<u8>>, rg: ByteRange)
    requires
        rg.first <= rg.last,
        forall|k: int| 0 <= k < pieces.len() ==> (#[trigger] pieces[k]).len() > 0,
    ensures
        ranged_read(pieces, rg) == flatten(pieces).subrange(
            min_int(rg.first as int, flatten(pieces).len() as int),
            min_int(rg.last + 1, flatten(pieces).len() as int),
        ),
    decreases pieces.len(),
{
    let data = flatten(pieces);
    if pieces.len() == 0 {
        assert(data.subrange(0, 0) =~= Seq::<u8>::empty());
    } else {
        let front = pieces.drop_last();
        let last = pieces.last();
        assert forall|k: int| 0 <= k < front.len() implies (#[trigger] front[k]).len() > 0 by {
            assert(front[k] == pieces[k]);
        }
        lemma_ranged_read(front, rg);
        let prev = flatten(front);
        let start = prev.len() as int;
        let end = start + last.len() - 1;
        assert(data == prev + last);
        let f = rg.first as int;
        let l = rg.last as int;
        let lo = min_int(f, start);
        let hi = min_int(l + 1, start);
        if overlaps(start, end, rg) {
            let (a, b) = local_range(start, end, rg);
            assert(chunk_slice(start, end, last, Some(rg)) == last.subrange(a, b + 1));
            assert(prev.subrange(lo, hi) + last.subrange(a, b + 1) =~= data.subrange(
                min_int(f, data.len() as int),
                min_int(l + 1, data.len() as int),
            ));
        } else {
            assert(prev.subrange(lo, hi) =~= data.subrange(
                min_int(f, data.len() as int),
                min_int(l + 1, data.len() as int),
            ));
        }
    }
}

/// The bytes of each part of a version, from the chunks it is stored in.
pub open spec fn part_datas(parts: Seq<Seq<Seq<u8>>>) -> Seq<Seq<u8>> {
    parts.map_values(|chunks: Seq<Seq<u8>>| flatten(chunks))
}

/// What a ranged read of a version gives back: for each part that overlaps
/// the range, in order, a ranged read of its chunks with the range moved into
/// the part's own offsets.
pub open spec fn version_read(parts: Seq<Seq<Seq<u8>>>, rg: ByteRange) -> Seq<u8>
    decreases parts.len(),
{
    if parts.len() == 0 {
        Seq::empty()
    } else {
        let before = version_read(parts.drop_last(), rg);
        let start = flatten(part_datas(parts.drop_last())).len() as int;
        let end = start + flatten(parts.last()).len() - 1;
        if overlaps(start, end, rg) {
            let (a, b) = local_range(start, end, rg);
            before + ranged_read(parts.last(), ByteRange { first: a as u64, last: b as u64 })
        } else {
            before
        }
    }
}

/// A ranged read of a version stored as parts of chunks gives back exactly the
/// bytes of the range of the version's data (cut at its end).
pub proof fn lemma_version_read(parts: Seq<Seq<Seq<u8>>>, rg: ByteRange)
    requires
        rg.first <= rg.last,
        flatten(part_datas(parts)).len() <= u64::MAX,
        forall|k: int| 0 <= k < parts.len() ==> (#[trigger] parts[k]).len() > 0,
        forall|k: int, j: int|
            0 <= k < parts.len() && 0 <= j < parts[k].len() ==> (#[trigger] parts[k][j]).len() > 0,
    ensures
        version_read(parts, rg) == flatten(part_datas(parts)).subrange(
            min_int(rg.first as int, flatten(part_datas(parts)).len() as int),
            min_int(rg.last + 1, flatten(part_datas(parts)).len() as int),
        ),
{
    lemma_version_read_is_ranged_read(parts, rg);
    let datas = part_datas(parts);
    assert forall|k: int| 0 <= k < datas.len() implies (#[trigger] datas[k]).len() > 0 by {
        lemma_flatten_nonempty(parts[k]);
    }
    lemma_ranged_read(datas, rg);
}

/// Reading a version part by part is a ranged read of the parts' bytes.
proof fn lemma_version_read_is_ranged_read(parts: Seq<Seq<Seq<u8>>>, rg: ByteRange)
    requires
        rg.first <= rg.last,
        flatten(part_datas(parts)).len() <= u64::MAX,
        forall|k: int| 0 <= k < parts.len() ==> (#[trigger] parts[k]).len() > 0,
        forall|k: int, j: int|
            0 <= k < parts.len() && 0 <= j < parts[k].len() ==> (#[trigger] parts[k][j]).len() > 0,
    ensures
        version_read(parts, rg) == ranged_read(part_datas(parts), rg),
    decreases parts.len(),
{
    if parts.len() > 0 {
        let front = parts.drop_last();
        let datas = part_datas(parts);
        assert(datas.drop_last() =~= part_datas(front));
        assert(datas.last() == flatten(parts.last()));
        assert(flatten(datas) == flatten(part_datas(front)) + flatten(parts.last()));
        assert forall|k: int, j: int|
            0 <= k < front.len() && 0 <= j < front[k].len() implies (#[trigger] front[k][j]).len() > 0 by {
            assert(front[k] == parts[k]);
        }
        assert forall|k: int| 0 <= k < front.len() implies (#[trigger] front[k]).len() > 0 by {
            assert(front[k] == parts[k]);
        }
        lemma_version_read_is_ranged_read(front, rg);
        let start = flatten(part_datas(front)).len() as int;
        let data = flatten(parts.last());
        let end = start + data.len() - 1;
        if overlaps(start, end, rg) {
            let (a, b) = local_range(start, end, rg);
            let lr = ByteRange { first: a as u64, last: b as u64 };
            assert forall|j: int| 0 <= j < parts.last().len() implies (#[trigger] parts.last()[j]).len() > 0 by {
                assert(parts.last()[j] == parts[parts.len() - 1][j]);
            }
            lemma_flatten_nonempty(parts.last());
            assert(0 <= a <= b < data.len());
            assert(start + data.len() <= u64::MAX);
            assert(lr.first == a && lr.last == b);
            lemma_ranged_read(parts.last(), lr);
            assert(ranged_read(parts.last(), lr) == data.subrange(a, b + 1));
        }
    }
}

/// Chunks that are not all empty hold some bytes.
proof fn lemma_flatten_nonempty(chunks: Seq<Seq<u8>>)
    requires
        chunks.len() > 0,
        forall|j: int| 0 <= j < chunks.len() ==> (#[trigger] chunks[j]).len() > 0,
    ensures
        flatten(chunks).len() > 0,
{
    assert(chunks.last() == chunks[chunks.len() - 1]);
}

} // verus!
