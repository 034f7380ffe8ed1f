use xpra::framing::{decode_frame, encode_frame, make_header, parse_header, FrameError};

#[test]
fn header_shape_for_five_byte_payload() {
    let header = make_header(&[1, 2, 3, 4, 5]);
    assert_eq!(header, vec![0x50, 0x04, 0x00, 0x00, 0x00, 0x00, 0x00, 0x05]);
}

#[test]
fn header_length_is_big_endian() {
    let payload = vec![0u8; 0x0102];
    let header = make_header(&payload);
    assert_eq!(&header[4..8], &[0x00, 0x00, 0x01, 0x02]);
}

#[test]
fn round_trip_empty_payload() {
    let payload: Vec<u8> = Vec::new();
    assert_eq!(decode_frame(&encode_frame(&payload)), Ok(payload));
}

#[test]
fn round_trip_single_byte_payload() {
    let payload = vec![0xABu8];
    assert_eq!(decode_frame(&encode_frame(&payload)), Ok(payload));
}

#[test]
fn round_trip_payload_spanning_size_field_boundary() {
    // 0x1_00_02 needs more than two of the four big-endian size bytes.
    let payload: Vec<u8> = (0..0x1_00_02u32).map(|i| (i % 251) as u8).collect();
    let frame = encode_frame(&payload);
    assert_eq!(frame.len(), payload.len() + 8);
    assert_eq!(decode_frame(&frame), Ok(payload));
}

#[test]
fn parse_header_accepts_valid_header() {
    assert_eq!(parse_header(&[0x50, 0x04, 0, 0, 0, 0, 0, 5]), Ok(5));
}

#[test]
fn parse_header_rejects_bad_magic() {
    assert_eq!(
        parse_header(&[0x51, 0x04, 0, 0, 0, 0, 0, 5]),
        Err(FrameError::BadMagic(0x51))
    );
}

#[test]
fn parse_header_rejects_nonzero_chunk_count() {
    assert_eq!(
        parse_header(&[0x50, 0x04, 0, 3, 0, 0, 0, 5]),
        Err(FrameError::Chunked(3))
    );
}

#[test]
fn parse_header_rejects_nonzero_compression() {
    assert_eq!(
        parse_header(&[0x50, 0x04, 9, 0, 0, 0, 0, 5]),
        Err(FrameError::Compressed(9))
    );
}

#[test]
fn parse_header_rejects_missing_text_flag() {
    assert_eq!(
        parse_header(&[0x50, 0x01, 0, 0, 0, 0, 0, 5]),
        Err(FrameError::UnsupportedEncoding(0x01))
    );
}

#[test]
fn decode_frame_rejects_short_buffer() {
    assert_eq!(decode_frame(&[0x50, 0x04, 0]), Err(FrameError::Truncated));
}

#[test]
fn decode_frame_rejects_length_mismatch() {
    let mut frame = encode_frame(&[1, 2, 3]);
    frame.push(0xFF);
    assert_eq!(decode_frame(&frame), Err(FrameError::LengthMismatch));
}

#[test]
fn decode_frame_rejects_chunked_frame_without_crashing() {
    let mut frame = encode_frame(&[1, 2, 3]);
    frame[3] = 1;
    assert_eq!(decode_frame(&frame), Err(FrameError::Chunked(1)));
}
