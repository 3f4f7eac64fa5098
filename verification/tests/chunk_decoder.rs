use bytes::BytesMut;
use minil::chunk_decoder::ChunkDecoder;
use minil::ingest::PartChecksums;
use minil::reads::slice_chunk;
use minil::reads::ByteRange;

#[test]
fn decode_takes_full_chunks_only() {
    let mut decoder = ChunkDecoder::with_capacity(4);
    let mut buf = BytesMut::from(&b"abcdefghij"[..]);
    let first = decoder.decode(&mut buf).unwrap().unwrap();
    assert_eq!(&first[..], b"abcd");
    let second = decoder.decode(&mut buf).unwrap().unwrap();
    assert_eq!(&second[..], b"efgh");
    assert!(decoder.decode(&mut buf).unwrap().is_none());
    assert_eq!(&buf[..], b"ij");
    let last = decoder.decode_eof(&mut buf).unwrap().unwrap();
    assert_eq!(&last[..], b"ij");
    assert!(buf.is_empty());
    assert!(decoder.decode_eof(&mut buf).unwrap().is_none());
}

#[test]
fn decode_of_exact_capacity_leaves_nothing() {
    let mut decoder = ChunkDecoder::with_capacity(3);
    let mut buf = BytesMut::from(&b"xyz"[..]);
    let chunk = decoder.decode(&mut buf).unwrap().unwrap();
    assert_eq!(&chunk[..], b"xyz");
    assert!(buf.is_empty());
    assert!(decoder.decode_eof(&mut buf).unwrap().is_none());
}

#[test]
fn zero_capacity_decoder_hands_out_empty_chunks() {
    let mut decoder = ChunkDecoder::new();
    let mut buf = BytesMut::from(&b"ab"[..]);
    let chunk = decoder.decode(&mut buf).unwrap().unwrap();
    assert!(chunk.is_empty());
    assert_eq!(&buf[..], b"ab");
}

#[test]
fn framing_reassembles_the_stream() {
    let data: Vec<u8> = (0u8..=22).collect();
    let mut decoder = ChunkDecoder::with_capacity(5);
    let mut buf = BytesMut::from(&data[..]);
    let mut chunks = Vec::new();
    while let Some(chunk) = decoder.decode(&mut buf).unwrap() {
        chunks.push(chunk);
    }
    if let Some(chunk) = decoder.decode_eof(&mut buf).unwrap() {
        chunks.push(chunk);
    }
    let lens: Vec<usize> = chunks.iter().map(|c| c.len()).collect();
    assert_eq!(lens, vec![5, 5, 5, 5, 3]);
    let joined: Vec<u8> = chunks.iter().flat_map(|c| c.iter().copied()).collect();
    assert_eq!(joined, data);
}

#[test]
fn framed_write_reads_back_by_range() {
    let data: Vec<u8> = (100u8..123).collect();
    let mut decoder = ChunkDecoder::with_capacity(5);
    let mut buf = BytesMut::from(&data[..]);
    let mut sums = PartChecksums::new();
    let mut stored = Vec::new();
    while let Some(chunk) = decoder.decode(&mut buf).unwrap() {
        stored.push((sums.absorb(&chunk), chunk.to_vec()));
    }
    if let Some(chunk) = decoder.decode_eof(&mut buf).unwrap() {
        stored.push((sums.absorb(&chunk), chunk.to_vec()));
    }
    let rg = ByteRange { first: 3, last: 16 };
    let mut read = Vec::new();
    for (p, bytes) in &stored {
        if p.start <= rg.last && p.end >= rg.first {
            read.extend(slice_chunk(p.start as i64, p.end as i64, bytes, Some(rg)));
        }
    }
    assert_eq!(read, data[3..=16].to_vec());
}
