//! The wire framing codec.

use epp_client::error::Error;
use epp_client::frame::{decode_payload, encode_frame, parse_frame_header};

#[test]
fn frame_layout() {
    let frame = encode_frame("<epp/>").unwrap();
    assert_eq!(&frame[..4], &[0, 0, 0, 10]);
    assert_eq!(&frame[4..], "<epp/>".as_bytes());
}

#[test]
fn frame_round_trip() {
    let document = "<?xml version=\"1.0\"?><epp>héllo &amp; gøødbye</epp>";
    let frame = encode_frame(document).unwrap();
    assert_eq!(frame.len(), document.len() + 4);

    let header: Vec<u8> = frame[..4].to_vec();
    let payload_len = parse_frame_header(&header).unwrap();
    assert_eq!(payload_len, document.len());

    let payload: Vec<u8> = frame[4..].to_vec();
    assert_eq!(payload.len(), payload_len);
    let decoded = decode_payload(payload).unwrap();
    assert_eq!(decoded, document);
}

#[test]
fn empty_document_frames_to_header_only() {
    let frame = encode_frame("").unwrap();
    assert_eq!(frame, vec![0, 0, 0, 4]);
    let payload_len = parse_frame_header(&frame).unwrap();
    assert_eq!(payload_len, 0);
    assert_eq!(decode_payload(Vec::new()).unwrap(), "");
}

#[test]
fn short_length_prefix_is_a_frame_error() {
    let header: Vec<u8> = vec![0, 0, 0, 3];
    assert!(matches!(parse_frame_header(&header), Err(Error::Frame(_))));
    let header: Vec<u8> = vec![0, 0, 0, 0];
    assert!(matches!(parse_frame_header(&header), Err(Error::Frame(_))));
    let header: Vec<u8> = vec![0, 0, 0, 4];
    assert_eq!(parse_frame_header(&header).unwrap(), 0);
}

#[test]
fn big_endian_header() {
    let header: Vec<u8> = vec![0x12, 0x34, 0x56, 0x78];
    assert_eq!(parse_frame_header(&header).unwrap(), 0x12345674);
}

#[test]
fn invalid_utf8_payload_is_a_frame_error() {
    let payload: Vec<u8> = vec![0xff, 0xfe, 0x3c];
    assert!(matches!(decode_payload(payload), Err(Error::Frame(_))));
}
