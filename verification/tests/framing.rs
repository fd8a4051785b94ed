use easypdf::framing::{
    check_blob_kind, check_message_kind, decode_header, read_blob, read_message, write_blob,
    write_header, write_message, FrameError, MAX_FRAME_BYTES,
};

/// The JSON text serde gives the unit request `CloseDocument`.
const CLOSE_DOCUMENT_JSON: &[u8] = b"\"CloseDocument\"";

#[test]
fn blobs_round_trip_without_json_expansion() {
    let pixels: Vec<u8> = (0..1_000_000).map(|n| (n % 256) as u8).collect();

    let mut buffer = Vec::new();
    write_blob(&mut buffer, &pixels).unwrap();

    assert!(
        buffer.len() < pixels.len() + 16,
        "blob framing added {} bytes of overhead",
        buffer.len() - pixels.len()
    );

    let decoded = read_blob(&mut buffer.as_slice()).unwrap();
    assert_eq!(decoded, pixels);
}

#[test]
fn oversized_declaration_is_rejected_before_allocating() {
    let mut frame = vec![0_u8];
    frame.extend_from_slice(&u32::MAX.to_be_bytes());
    frame.extend_from_slice(b"{}");

    let result = read_message(&mut frame.as_slice());
    assert!(matches!(result, Err(FrameError::TooLarge { .. })));
}

#[test]
fn truncated_payload_reports_closed_not_malformed() {
    let mut frame = vec![0_u8];
    frame.extend_from_slice(&100_u32.to_be_bytes());
    frame.extend_from_slice(b"partial");

    let result = read_message(&mut frame.as_slice());
    assert!(matches!(result, Err(FrameError::Closed)), "{result:?}");
}

#[test]
fn a_blob_read_as_a_message_is_refused_without_desynchronising() {
    let mut buffer = Vec::new();
    write_blob(&mut buffer, &[1, 2, 3]).unwrap();
    write_message(&mut buffer, CLOSE_DOCUMENT_JSON).unwrap();

    let mut cursor = buffer.as_slice();
    let wrong = read_message(&mut cursor);
    assert!(matches!(wrong, Err(FrameError::WrongKind { .. })), "{wrong:?}");

    let next = read_message(&mut cursor).unwrap();
    assert_eq!(next, CLOSE_DOCUMENT_JSON);
}

#[test]
fn a_message_read_as_a_blob_is_refused() {
    let mut buffer = Vec::new();
    write_message(&mut buffer, CLOSE_DOCUMENT_JSON).unwrap();
    let result = read_blob(&mut buffer.as_slice());
    assert!(matches!(result, Err(FrameError::WrongKind { .. })), "{result:?}");
}

#[test]
fn empty_channel_reports_closed() {
    let result = read_message(&mut [].as_slice());
    assert!(matches!(result, Err(FrameError::Closed)));
}

#[test]
fn frames_are_a_kind_byte_a_big_endian_length_and_the_payload() {
    let mut buffer = Vec::new();
    write_blob(&mut buffer, &[7, 8]).unwrap();
    assert_eq!(buffer, vec![1, 0, 0, 0, 2, 7, 8]);
    let mut header = Vec::new();
    write_header(&mut header, 0, 0x0102_0304).unwrap();
    assert_eq!(header, vec![0, 1, 2, 3, 4]);
    assert_eq!(decode_header(&header).unwrap(), (0, 0x0102_0304));
}

#[test]
fn frames_read_back_in_order_leaving_the_rest() {
    let mut buffer = Vec::new();
    for n in 0..3u8 {
        write_message(&mut buffer, &[b'0' + n]).unwrap();
        write_blob(&mut buffer, &vec![n; n as usize]).unwrap();
    }
    let mut cursor = buffer.as_slice();
    for n in 0..3u8 {
        assert_eq!(read_message(&mut cursor).unwrap(), vec![b'0' + n]);
        assert_eq!(read_blob(&mut cursor).unwrap(), vec![n; n as usize]);
    }
    assert!(cursor.is_empty());
    assert!(matches!(read_blob(&mut cursor), Err(FrameError::Closed)));
}

#[test]
fn oversized_writes_are_refused_and_write_nothing() {
    let mut header = vec![9];
    match write_header(&mut header, 1, MAX_FRAME_BYTES + 1) {
        Err(FrameError::TooLarge { declared }) => assert_eq!(declared, MAX_FRAME_BYTES + 1),
        other => panic!("expected TooLarge, got {other:?}"),
    }
    assert_eq!(header, vec![9]);
    assert!(write_header(&mut header, 1, MAX_FRAME_BYTES).is_ok());
    assert_eq!(header, vec![9, 1, 16, 0, 0, 0]);
}

#[test]
fn unknown_kinds_are_named_and_skipped() {
    let mut buffer = vec![7, 0, 0, 0, 2, 0xaa, 0xbb];
    write_message(&mut buffer, b"{}").unwrap();
    let mut cursor = buffer.as_slice();
    match read_message(&mut cursor) {
        Err(FrameError::UnknownKind { kind }) => assert_eq!(kind, 7),
        other => panic!("expected UnknownKind, got {other:?}"),
    }
    assert_eq!(read_message(&mut cursor).unwrap(), b"{}".to_vec());
    match check_blob_kind(7) {
        Err(FrameError::UnknownKind { kind }) => assert_eq!(kind, 7),
        other => panic!("expected UnknownKind, got {other:?}"),
    }
    match check_blob_kind(0) {
        Err(FrameError::WrongKind { expected, actual }) => assert_eq!((expected, actual), ("blob", "message")),
        other => panic!("expected WrongKind, got {other:?}"),
    }
    let mut blobs = vec![9, 0, 0, 0, 1, 0xcc];
    write_blob(&mut blobs, &[4, 5]).unwrap();
    let mut cursor = blobs.as_slice();
    match read_blob(&mut cursor) {
        Err(FrameError::UnknownKind { kind }) => assert_eq!(kind, 9),
        other => panic!("expected UnknownKind, got {other:?}"),
    }
    assert_eq!(read_blob(&mut cursor).unwrap(), vec![4, 5]);
    assert!(check_blob_kind(1).is_ok());
    assert!(check_message_kind(0).is_ok());
    match check_message_kind(1) {
        Err(FrameError::WrongKind { expected, actual }) => assert_eq!((expected, actual), ("message", "blob")),
        other => panic!("expected WrongKind, got {other:?}"),
    }
}

#[test]
fn a_short_header_consumes_the_channel() {
    let buffer = vec![1, 0, 0];
    let mut cursor = buffer.as_slice();
    assert!(matches!(read_blob(&mut cursor), Err(FrameError::Closed)));
    assert!(cursor.is_empty());
}
