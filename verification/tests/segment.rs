use node_messages::messages::segment::{read_segment, segment, POINTER_SIZE};
use node_messages::messages::{Error, Segment};

fn body_with_pointer(fixed: usize, at: usize, offset: u32, count: u32, tail: &[u8]) -> Vec<u8> {
    let mut body = vec![0u8; fixed];
    body[at..at + 4].copy_from_slice(&offset.to_le_bytes());
    body[at + 4..at + 8].copy_from_slice(&count.to_le_bytes());
    body.extend_from_slice(tail);
    body
}

#[test]
fn pointer_is_eight_bytes() {
    assert_eq!(POINTER_SIZE, 8);
}

#[test]
fn segment_behind_the_fixed_fields_is_read() {
    let body = body_with_pointer(16, 8, 16, 3, &[7, 8, 9]);
    assert_eq!(read_segment(&body, 8, 1, 16), Ok(&[7u8, 8, 9][..]));
    assert_eq!(segment(&body, 8, 1), &[7u8, 8, 9][..]);
}

#[test]
fn segment_may_start_behind_other_payload() {
    let body = body_with_pointer(16, 0, 18, 2, &[1, 2, 3, 4, 5]);
    assert_eq!(read_segment(&body, 0, 1, 16), Ok(&[3u8, 4][..]));
}

#[test]
fn empty_segment_at_the_end_is_read() {
    let body = body_with_pointer(16, 8, 16, 0, &[]);
    assert_eq!(read_segment(&body, 8, 32, 16), Ok(&[][..]));
}

#[test]
fn segment_that_ends_at_the_end_is_read() {
    let body = body_with_pointer(8, 0, 8, 2, &[0u8; 64]);
    assert_eq!(read_segment(&body, 0, 32, 8).map(|payload| payload.len()), Ok(64));
}

#[test]
fn segment_past_the_end_is_refused() {
    let body = body_with_pointer(16, 8, 16, 4, &[7, 8, 9]);
    assert_eq!(
        read_segment(&body, 8, 1, 16),
        Err(Error::IncorrectSegmentReference { offset: 16, size: 4 })
    );
}

#[test]
fn segment_one_item_too_long_is_refused() {
    let body = body_with_pointer(8, 0, 8, 3, &[0u8; 64]);
    assert_eq!(
        read_segment(&body, 0, 32, 8),
        Err(Error::IncorrectSegmentReference { offset: 8, size: 3 })
    );
}

#[test]
fn segment_inside_the_fixed_fields_is_refused() {
    let body = body_with_pointer(16, 8, 15, 1, &[7, 8, 9]);
    assert_eq!(
        read_segment(&body, 8, 1, 16),
        Err(Error::IncorrectSegmentReference { offset: 15, size: 1 })
    );
}

#[test]
fn empty_segment_inside_the_fixed_fields_is_refused() {
    let body = body_with_pointer(16, 8, 0, 0, &[]);
    assert_eq!(
        read_segment(&body, 8, 1, 16),
        Err(Error::IncorrectSegmentReference { offset: 0, size: 0 })
    );
}

#[test]
fn segment_that_starts_past_the_end_is_refused() {
    let body = body_with_pointer(16, 8, 17, 0, &[]);
    assert_eq!(
        read_segment(&body, 8, 1, 16),
        Err(Error::IncorrectSegmentReference { offset: 17, size: 0 })
    );
}

#[test]
fn largest_pointer_is_refused_without_overflow() {
    let body = body_with_pointer(16, 8, u32::MAX, u32::MAX, &[1, 2, 3]);
    assert_eq!(
        read_segment(&body, 8, usize::MAX, 16),
        Err(Error::IncorrectSegmentReference { offset: u32::MAX, size: u32::MAX })
    );
    let body = body_with_pointer(16, 8, 16, u32::MAX, &[1, 2, 3]);
    assert_eq!(
        read_segment(&body, 8, 32, 16),
        Err(Error::IncorrectSegmentReference { offset: 16, size: u32::MAX })
    );
}

#[test]
fn segment_items_are_decoded_one_by_one() {
    let payload: Vec<u8> = vec![1, 0, 0, 0, 2, 0, 0, 0, 0xff, 0xff, 0xff, 0xff];
    let items: Segment<u32> = Segment::new(&payload);
    assert_eq!(items.len(), 3);
    assert_eq!(items.get(0), 1);
    assert_eq!(items.get(1), 2);
    assert_eq!(items.get(2), u32::MAX);
}

#[test]
fn segment_of_nothing_has_no_items() {
    let payload: Vec<u8> = Vec::new();
    let items: Segment<u64> = Segment::new(&payload);
    assert_eq!(items.len(), 0);
}

#[test]
fn bytes_behind_the_last_whole_item_are_no_item() {
    let payload = vec![0u8; 70];
    let items: Segment<node_messages::crypto::Hash> = Segment::new(&payload);
    assert_eq!(items.len(), 2);
    assert_eq!(items.get(1), node_messages::crypto::Hash::new([0u8; 32]));
}
