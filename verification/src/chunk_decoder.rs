//! Splits an incoming byte buffer into fixed-size chunks.
use vstd::prelude::*;

use bytes::Bytes;
use bytes::BytesMut;

use crate::reads::flatten;
use crate::reads::lemma_ranged_read;
use crate::reads::min_int;
use crate::reads::ranged_read;
use crate::reads::ByteRange;

verus! {

#[verifier::external_type_specification]
#[verifier::external_body]
pub struct ExBytesMut(BytesMut);

#[verifier::external_type_specification]
#[verifier::external_body]
pub struct ExBytes(Bytes);

#[verifier::external_type_specification]
#[verifier::external_body]
pub struct ExIoError(std::io::Error);

/// The bytes a `BytesMut` buffer currently holds.
pub uninterp spec fn bytes_mut_contents(b: BytesMut) -> Seq<u8>;

/// The bytes a frozen `Bytes` buffer holds.
pub uninterp spec fn bytes_contents(b: Bytes) -> Seq<u8>;

/// `BytesMut::len`: the number of bytes held.
#[verifier::external_body]
fn bytes_mut_len(b: &BytesMut) -> (r: usize)
    ensures
        r == bytes_mut_contents(*b).len(),
{
    b.len()
}

/// `BytesMut::is_empty`: whether no byte is held.
#[verifier::external_body]
fn bytes_mut_is_empty(b: &BytesMut) -> (r: bool)
    ensures
        r == (bytes_mut_contents(*b).len() == 0),
{
    b.is_empty()
}

/// `BytesMut::split_to`: hands out the first `at` bytes and keeps the rest.
/// It panics when `at` exceeds the length, which `requires` rules out.
#[verifier::external_body]
fn bytes_mut_split_to(b: &mut BytesMut, at: usize) -> (r: BytesMut)
    requires
        at <= bytes_mut_contents(*old(b)).len(),
    ensures
        bytes_mut_contents(r) == bytes_mut_contents(*old(b)).take(at as int),
        bytes_mut_contents(*final(b)) == bytes_mut_contents(*old(b)).skip(at as int),
{
    b.split_to(at)
}

/// `BytesMut::split`: hands out every byte held and leaves the buffer empty.
#[verifier::external_body]
fn bytes_mut_split(b: &mut BytesMut) -> (r: BytesMut)
    ensures
        bytes_mut_contents(r) == bytes_mut_contents(*old(b)),
        bytes_mut_contents(*final(b)) == Seq::<u8>::empty(),
{
    b.split()
}

/// `BytesMut::freeze`: turns the buffer into an immutable `Bytes` with the same bytes.
#[verifier::external_body]
fn bytes_mut_freeze(b: BytesMut) -> (r: Bytes)
    ensures
        bytes_contents(r) == bytes_mut_contents(b),
{
    b.freeze()
}

/// Frames a byte stream into chunks of `capacity` bytes; the last chunk may be shorter.
pub struct ChunkDecoder {
    capacity: usize,
}

impl ChunkDecoder {
    /// The chunk size this decoder hands out.
    pub closed spec fn spec_capacity(&self) -> nat {
        self.capacity as nat
    }

    /// A decoder whose capacity is zero.
    pub fn new() -> (r: Self)
        ensures
            r.spec_capacity() == 0,
    {
        Self::with_capacity(0)
    }

    /// A decoder that hands out chunks of `capacity` bytes.
    pub fn with_capacity(capacity: usize) -> (r: Self)
        ensures
            r.spec_capacity() == capacity,
    {
        Self { capacity }
    }

    /// Takes one full chunk off the front of `src` when it holds at least
    /// `capacity` bytes; otherwise leaves `src` untouched and yields nothing.
    pub fn decode(&mut self, src: &mut BytesMut) -> (r: Result<Option<Bytes>, std::io::Error>)
        ensures
            final(self).spec_capacity() == old(self).spec_capacity(),
            r is Ok,
            ({
                let before = bytes_mut_contents(*old(src));
                let after = bytes_mut_contents(*final(src));
                let cap = old(self).spec_capacity();
                if before.len() >= cap {
                    &&& r matches Ok(Some(chunk))
                    &&& bytes_contents(chunk) == before.take(cap as int)
                    &&& after == before.skip(cap as int)
                } else {
                    &&& r matches Ok(None)
                    &&& after == before
                }
            }),
    {
        if bytes_mut_len(src) >= self.capacity {
            let chunk = bytes_mut_split_to(src, self.capacity);
            Ok(Some(bytes_mut_freeze(chunk)))
        } else {
            Ok(None)
        }
    }

    /// At the end of the stream, hands out whatever is left as one last chunk.
    pub fn decode_eof(&mut self, src: &mut BytesMut) -> (r: Result<Option<Bytes>, std::io::Error>)
        ensures
            final(self).spec_capacity() == old(self).spec_capacity(),
            r is Ok,
            ({
                let before = bytes_mut_contents(*old(src));
                let after = bytes_mut_contents(*final(src));
                if before.len() == 0 {
                    &&& r matches Ok(None)
                    &&& after == before
                } else {
                    &&& r matches Ok(Some(chunk))
                    &&& bytes_contents(chunk) == before
                    &&& after == Seq::<u8>::empty()
                }
            }),
    {
        if bytes_mut_is_empty(src) {
            Ok(None)
        } else {
            let rest = bytes_mut_split(src);
            Ok(Some(bytes_mut_freeze(rest)))
        }
    }
}

/// The chunks a stream of `data` is framed into: full chunks of `capacity`
/// bytes while `decode` finds enough, then what `decode_eof` finds left.
pub open spec fn frames(data: Seq<u8>, capacity: nat) -> Seq<Seq<u8>>
    decreases data.len(),
{
    if capacity > 0 && data.len() >= capacity {
        seq![data.take(capacity as int)] + frames(data.skip(capacity as int), capacity)
    } else if data.len() == 0 {
        Seq::empty()
    } else {
        seq![data]
    }
}

/// Framing loses and adds nothing: the chunks, end to end, are the stream;
/// every chunk is non-empty and holds at most `capacity` bytes, and every one
/// but the last holds exactly `capacity`.
pub proof fn lemma_frames_reassemble(data: Seq<u8>, capacity: nat)
    requires
        capacity > 0,
    ensures
        flatten(frames(data, capacity)) == data,
        forall|k: int|
            0 <= k < frames(data, capacity).len() ==> {
                &&& (#[trigger] frames(data, capacity)[k]).len() > 0
                &&& frames(data, capacity)[k].len() <= capacity
                &&& k + 1 < frames(data, capacity).len() ==> frames(data, capacity)[k].len()
                    == capacity
            },
    decreases data.len(),
{
    let f = frames(data, capacity);
    if data.len() >= capacity {
        let rest = data.skip(capacity as int);
        lemma_frames_reassemble(rest, capacity);
        let fr = frames(rest, capacity);
        assert(f == seq![data.take(capacity as int)] + fr);
        lemma_flatten_prepend(data.take(capacity as int), fr);
        assert(data.take(capacity as int) + rest =~= data);
        assert forall|k: int| 0 <= k < f.len() implies {
            &&& (#[trigger] f[k]).len() > 0
            &&& f[k].len() <= capacity
            &&& k + 1 < f.len() ==> f[k].len() == capacity
        } by {
            if k > 0 {
                assert(f[k] == fr[k - 1]);
            }
        }
    } else if data.len() == 0 {
    } else {
        assert(flatten(f) == flatten(f.drop_last()) + f.last());
        assert(f.drop_last() =~= Seq::<Seq<u8>>::empty());
        assert(Seq::<u8>::empty() + data =~= data);
    }
}

/// Putting a piece in front of pieces puts its bytes in front of theirs.
pub proof fn lemma_flatten_prepend(first: Seq<u8>, rest: Seq<Seq<u8>>)
    ensures
        flatten(seq![first] + rest) == first + flatten(rest),
    decreases rest.len(),
{
    let all = seq![first] + rest;
    if rest.len() == 0 {
        assert(all =~= seq![first]);
        assert(all.drop_last() =~= Seq::<Seq<u8>>::empty());
        assert(flatten(all) == flatten(all.drop_last()) + all.last());
        assert(flatten(all) =~= first);
        assert(flatten(rest) =~= Seq::<u8>::empty());
        assert(first + Seq::<u8>::empty() =~= first);
    } else {
        lemma_flatten_prepend(first, rest.drop_last());
        assert(all.drop_last() =~= seq![first] + rest.drop_last());
        assert(all.last() == rest.last());
        assert(flatten(all) == flatten(all.drop_last()) + all.last());
        assert(flatten(rest) == flatten(rest.drop_last()) + rest.last());
        assert(first + flatten(rest.drop_last()) + rest.last() =~= first + (flatten(rest.drop_last())
            + rest.last()));
    }
}

/// What is written reads back: a ranged read of the chunks the bytes of a
/// part were framed into gives exactly the bytes of the range (cut at the end).
pub proof fn lemma_framed_write_reads_back(data: Seq<u8>, capacity: nat, rg: ByteRange)
    requires
        capacity > 0,
        rg.first <= rg.last,
    ensures
        ranged_read(frames(data, capacity), rg) == data.subrange(
            min_int(rg.first as int, data.len() as int),
            min_int(rg.last + 1, data.len() as int),
        ),
{
    lemma_frames_reassemble(data, capacity);
    lemma_ranged_read(frames(data, capacity), rg);
}

} // verus!
