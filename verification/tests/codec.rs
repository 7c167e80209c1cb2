use acir_composer::codec::frame;
use acir_composer::codec::unframe;
use acir_composer::codec::DecodeError;

#[test]
fn frame_prefixes_payload_with_big_endian_length() {
    let framed = frame(&[0xAA, 0xBB]);
    assert_eq!(framed, vec![0x00, 0x00, 0x00, 0x02, 0xAA, 0xBB]);
}

#[test]
fn frame_of_empty_payload_is_zero_length_prefix() {
    let framed = frame(&[]);
    assert_eq!(framed, vec![0x00, 0x00, 0x00, 0x00]);
}

#[test]
fn frame_length_prefix_is_big_endian_over_all_four_bytes() {
    let payload = vec![0x55u8; 0x0102];
    let framed = frame(&payload);
    assert_eq!(&framed[..4], &[0x00, 0x00, 0x01, 0x02]);
    assert_eq!(&framed[4..], payload.as_slice());
}

#[test]
fn unframe_returns_the_framed_payload() {
    let payload = vec![1u8, 2, 3, 4, 5];
    let framed = frame(&payload);
    assert_eq!(unframe(&framed), Ok(payload));
}

#[test]
fn unframe_of_empty_frame_is_empty_payload() {
    assert_eq!(unframe(&[0, 0, 0, 0]), Ok(vec![]));
}

#[test]
fn unframe_rejects_buffer_shorter_than_the_prefix() {
    assert_eq!(unframe(&[]), Err(DecodeError::Truncated));
    assert_eq!(unframe(&[0, 0, 0]), Err(DecodeError::Truncated));
}

#[test]
fn unframe_rejects_prefix_larger_than_payload() {
    // Prefix says five bytes follow; only two do.
    assert_eq!(
        unframe(&[0, 0, 0, 5, 0xAA, 0xBB]),
        Err(DecodeError::LengthMismatch)
    );
}

#[test]
fn unframe_rejects_prefix_smaller_than_payload() {
    // Prefix says one byte follows; three do.
    assert_eq!(
        unframe(&[0, 0, 0, 1, 0xAA, 0xBB, 0xCC]),
        Err(DecodeError::LengthMismatch)
    );
}
