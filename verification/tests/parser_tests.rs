use audio_metadata::error::ParseError;
use audio_metadata::frame::FrameType;
use audio_metadata::parser::Parser;

fn tag(tag_size: u8, frames: &[u8]) -> Vec<u8> {
    let mut data = vec![0x49, 0x44, 0x33, 0x03, 0x00, 0x00, 0x00, 0x00, 0x00, tag_size];
    data.extend_from_slice(frames);
    data
}

const TIT2_DISCO: [u8; 16] = [
    0x54, 0x49, 0x54, 0x32, 0x00, 0x00, 0x00, 0x06, 0x00, 0x00, // header, size 6
    0x00, b'D', b'i', b's', b'c', b'o', // body: latin-1 "Disco"
];

#[test]
fn test_parser_new() {
    let parser = Parser::new();
    assert_eq!(parser.current_position, 0);
    assert_eq!(parser.length_of_data, 0);
}

#[test]
fn test_walker_done_exact_fit() {
    // two frames totaling exactly the declared tag size of 29 bytes
    let mut frames = TIT2_DISCO.to_vec();
    frames.extend_from_slice(&[
        0x41, 0x50, 0x49, 0x43, 0x00, 0x00, 0x00, 0x03, 0x00, 0x00, // APIC, size 3
        0x01, 0x02, 0x03,
    ]);
    let data = tag(29, &frames);
    let mut parser = Parser::new();
    let out = parser.parse(&data).unwrap();
    assert!(out.error.is_none());
    assert_eq!(out.tag.header.tag_length, 29);
    assert_eq!(out.tag.frames.len(), 2);
    match &out.tag.frames[0].body {
        FrameType::Text(s) => assert_eq!(s, "Disco"),
        FrameType::Opaque(_) => panic!("expected a text body"),
    }
    match &out.tag.frames[1].body {
        FrameType::Text(_) => panic!("expected an opaque body"),
        FrameType::Opaque(b) => assert_eq!(b, &vec![0x01, 0x02, 0x03]),
    }
    // the whole declared budget was consumed
    assert_eq!(parser.current_position, data.len());
    assert_eq!(parser.length_of_data, 29);
}

#[test]
fn test_walker_oversized_frame_preserves_frames() {
    // the first frame fits; the second claims to run past the tag boundary
    let mut frames = TIT2_DISCO.to_vec();
    frames.extend_from_slice(&[
        0x54, 0x41, 0x4c, 0x42, 0x00, 0x00, 0x00, 0x00, 0x00, 0x00, // TALB, size 0
    ]);
    let data = tag(20, &frames);
    let mut parser = Parser::new();
    let out = parser.parse(&data).unwrap();
    assert_eq!(out.error, Some(ParseError::OversizedFrame));
    assert_eq!(out.tag.frames.len(), 1);
    match &out.tag.frames[0].body {
        FrameType::Text(s) => assert_eq!(s, "Disco"),
        FrameType::Opaque(_) => panic!("expected a text body"),
    }
}

#[test]
fn test_walker_first_frame_oversized() {
    let data = tag(10, &TIT2_DISCO);
    let mut parser = Parser::new();
    let out = parser.parse(&data).unwrap();
    assert_eq!(out.error, Some(ParseError::OversizedFrame));
    assert_eq!(out.tag.frames.len(), 0);
}

#[test]
fn test_walker_stops_at_padding() {
    let mut frames = TIT2_DISCO.to_vec();
    frames.extend_from_slice(&[0x00; 10]);
    let data = tag(26, &frames);
    let mut parser = Parser::new();
    let out = parser.parse(&data).unwrap();
    assert!(out.error.is_none());
    assert_eq!(out.tag.frames.len(), 1);
    // the padding itself is not consumed as a frame
    assert_eq!(parser.current_position, 26);
}

#[test]
fn test_walker_truncated_body() {
    // the frame header promises 6 body bytes; none follow
    let header_only = &TIT2_DISCO[..10];
    let data = tag(20, header_only);
    let mut parser = Parser::new();
    let out = parser.parse(&data).unwrap();
    assert_eq!(out.error, Some(ParseError::TruncatedInput));
    assert_eq!(out.tag.frames.len(), 0);
}

#[test]
fn test_walker_truncated_header() {
    // the declared budget promises more frame data than the input holds
    let data = tag(20, &[0x54, 0x41]);
    let mut parser = Parser::new();
    let out = parser.parse(&data).unwrap();
    assert_eq!(out.error, Some(ParseError::TruncatedInput));
    assert_eq!(out.tag.frames.len(), 0);
}

#[test]
fn test_walker_invalid_frame_id_stops_walk() {
    let mut frames = TIT2_DISCO.to_vec();
    frames.extend_from_slice(&[
        0x54, 0xff, 0x4c, 0x42, 0x00, 0x00, 0x00, 0x00, 0x00, 0x00,
    ]);
    let data = tag(26, &frames);
    let mut parser = Parser::new();
    let out = parser.parse(&data).unwrap();
    assert_eq!(out.error, Some(ParseError::InvalidEncoding));
    assert_eq!(out.tag.frames.len(), 1);
}

#[test]
fn test_empty_tag() {
    let data = tag(0, &[]);
    let mut parser = Parser::new();
    let out = parser.parse(&data).unwrap();
    assert!(out.error.is_none());
    assert_eq!(out.tag.frames.len(), 0);
    assert_eq!(parser.current_position, 10);
    assert_eq!(parser.length_of_data, 0);
}

#[test]
fn test_invalid_magic_yields_no_tag() {
    let data = vec![0x4a, 0x44, 0x33, 0x03, 0x00, 0x00, 0x00, 0x00, 0x08, 0x09];
    let mut parser = Parser::new();
    assert_eq!(parser.parse(&data).unwrap_err(), ParseError::InvalidMagic);
}

#[test]
fn test_short_input_is_truncated() {
    let data = vec![0x49, 0x44, 0x33];
    let mut parser = Parser::new();
    assert_eq!(parser.parse(&data).unwrap_err(), ParseError::TruncatedInput);
}
