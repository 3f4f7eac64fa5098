use minil::errors::AppError;
use minil::reads::check_part_read;
use minil::reads::content_length;
use minil::reads::content_range;
use minil::reads::delete_marker_reply;
use minil::reads::piece_range;
use minil::reads::slice_chunk;
use minil::reads::ByteRange;
use minil::reads::ContentRange;
use minil::reads::DeleteMarkerReply;

#[test]
fn delete_marker_answers_depend_on_the_version_being_named() {
    assert_eq!(
        delete_marker_reply(true, 1700),
        DeleteMarkerReply { status: 405, last_modified: Some(1700), delete_marker: true }
    );
    assert_eq!(
        delete_marker_reply(false, 1700),
        DeleteMarkerReply { status: 404, last_modified: None, delete_marker: true }
    );
}

#[test]
fn ranged_part_reads_are_refused() {
    assert_eq!(check_part_read(Some(1), true), Err(AppError::InternalError));
    assert_eq!(check_part_read(Some(1), false), Ok(()));
    assert_eq!(check_part_read(None, true), Ok(()));
}

#[test]
fn lengths_and_content_ranges() {
    let rg = ByteRange { first: 10, last: 19 };
    assert_eq!(content_length(100, None), 100);
    assert_eq!(content_length(100, Some(rg)), 10);
    assert_eq!(content_range(100, None), None);
    assert_eq!(
        content_range(100, Some(rg)),
        Some(ContentRange { first_byte: 10, last_byte: 19, complete_length: 100 })
    );
}

#[test]
fn piece_ranges_are_cut_to_the_piece() {
    let rg = ByteRange { first: 5, last: 25 };
    assert_eq!(piece_range(0, 9, rg), ByteRange { first: 5, last: 9 });
    assert_eq!(piece_range(10, 19, rg), ByteRange { first: 0, last: 9 });
    assert_eq!(piece_range(20, 29, rg), ByteRange { first: 0, last: 5 });
}

#[test]
fn chunks_are_sliced_to_the_range() {
    let data: Vec<u8> = (10u8..20).collect();
    assert_eq!(slice_chunk(10, 19, &data, None), data);
    let rg = ByteRange { first: 12, last: 14 };
    assert_eq!(slice_chunk(10, 19, &data, Some(rg)), vec![12, 13, 14]);
    let rg = ByteRange { first: 0, last: 11 };
    assert_eq!(slice_chunk(10, 19, &data, Some(rg)), vec![10, 11]);
    let rg = ByteRange { first: 18, last: 40 };
    assert_eq!(slice_chunk(10, 19, &data, Some(rg)), vec![18, 19]);
}

#[test]
fn ranged_read_over_chunks_is_the_range_of_the_object() {
    let object: Vec<u8> = (0u8..26).collect();
    let pieces = [(0i64, 9i64), (10, 19), (20, 25)];
    let rg = ByteRange { first: 5, last: 22 };
    let mut read = Vec::new();
    for (start, end) in pieces {
        if start as u64 <= rg.last && end as u64 >= rg.first {
            let data = object[start as usize..=end as usize].to_vec();
            read.extend(slice_chunk(start, end, &data, Some(rg)));
        }
    }
    assert_eq!(read, object[5..=22].to_vec());
}

#[test]
fn ranged_read_over_parts_of_chunks_is_the_range_of_the_version() {
    let version: Vec<u8> = (0u8..40).collect();
    // Two parts: [0, 24] in chunks of 10, 10, 5; [25, 39] in chunks of 10, 5.
    let parts: [(u64, u64, Vec<(i64, i64)>); 2] = [
        (0, 24, vec![(0, 9), (10, 19), (20, 24)]),
        (25, 39, vec![(0, 9), (10, 14)]),
    ];
    let rg = ByteRange { first: 15, last: 33 };
    let mut read = Vec::new();
    for (start, end, chunks) in parts.iter() {
        if *start <= rg.last && *end >= rg.first {
            let local = piece_range(*start, *end, rg);
            for (cs, ce) in chunks {
                if *cs as u64 <= local.last && *ce as u64 >= local.first {
                    let from = (*start as i64 + cs) as usize;
                    let to = (*start as i64 + ce) as usize;
                    let data = version[from..=to].to_vec();
                    read.extend(slice_chunk(*cs, *ce, &data, Some(local)));
                }
            }
        }
    }
    assert_eq!(read, version[15..=33].to_vec());
}
