use node_core::codec::{read_frame, write_frame, CodecError, SyncRequest, SyncResponse, MESSAGE_MAX_SIZE};

#[test]
fn frame_round_trip_small() {
    let data = vec![1u8, 2, 3, 4, 5];
    let framed = write_frame(&data).unwrap();
    assert_eq!(framed.len(), data.len() + 4);
    assert_eq!(read_frame(&framed).unwrap(), data);
}

#[test]
fn frame_round_trip_empty() {
    let data: Vec<u8> = Vec::new();
    let framed = write_frame(&data).unwrap();
    assert_eq!(framed, vec![0u8, 0, 0, 0]);
    assert_eq!(read_frame(&framed).unwrap(), data);
}

/// A frame of exactly the 10 MiB bound is accepted.
#[test]
fn frame_at_limit_is_accepted() {
    let data = vec![1u8; MESSAGE_MAX_SIZE];
    let framed = write_frame(&data).unwrap();
    let back = read_frame(&framed).unwrap();
    assert_eq!(back, SyncRequest::new(data).data);
}

/// One byte over the bound is rejected as invalid data on both sides.
#[test]
fn frame_over_limit_is_rejected() {
    let data = vec![1u8; MESSAGE_MAX_SIZE + 1];
    assert_eq!(write_frame(&data), Err(CodecError::InvalidData));

    // A hand-built frame claiming an over-limit length is rejected too.
    let over = (MESSAGE_MAX_SIZE as u32) + 1;
    let mut framed = over.to_le_bytes().to_vec();
    framed.extend(std::iter::repeat(1u8).take(MESSAGE_MAX_SIZE + 1));
    assert_eq!(read_frame(&framed), Err(CodecError::InvalidData));
}

/// A truncated stream is an end-of-file error, not a protocol penalty.
#[test]
fn truncated_frame_is_eof() {
    let data = vec![1u8; 16];
    let mut framed = write_frame(&data).unwrap();
    framed.truncate(10);
    assert_eq!(read_frame(&framed), Err(CodecError::UnexpectedEof));
    assert_eq!(read_frame(&vec![1u8, 2]), Err(CodecError::UnexpectedEof));
}

/// A write of 12 MiB fails like a write of anything over the bound.
#[test]
fn large_write_is_invalid_data() {
    let data = vec![1u8; 12 * 1024 * 1024];
    assert_eq!(write_frame(&data), Err(CodecError::InvalidData));
    let resp = SyncResponse::new(data);
    assert_eq!(write_frame(&resp.data), Err(CodecError::InvalidData));
}
