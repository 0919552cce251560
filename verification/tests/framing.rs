use amqp_framing::framing::{ContentHeaderFrame, DecodeError, Frame, FrameType};

#[test]
fn test_encode_decode() {
    let frame = Frame { frame_type: FrameType::METHOD, channel: 5, payload: vec![1, 2, 3, 4, 5] };
    assert_eq!(frame, Frame::decode(frame.encode().unwrap().as_slice()).ok().unwrap());
}

#[test]
fn method_frame_encodes_to_exact_bytes() {
    let frame = Frame { frame_type: FrameType::METHOD, channel: 5, payload: vec![1, 2, 3, 4, 5] };
    let encoded = frame.encode().unwrap();
    assert_eq!(
        encoded,
        vec![0x01, 0x00, 0x05, 0x00, 0x00, 0x00, 0x05, 0x01, 0x02, 0x03, 0x04, 0x05, 0xCE]
    );
    assert_eq!(Frame::decode(encoded.as_slice()).unwrap(), frame);
}

#[test]
fn every_frame_type_round_trips() {
    let cases = vec![
        (FrameType::METHOD, 0u16, vec![]),
        (FrameType::HEADERS, 1u16, vec![0x00, 0x3C]),
        (FrameType::BODY, 0xFFFF, vec![0xAB; 300]),
        (FrameType::HEARTBEAT, 42u16, vec![]),
    ];
    for (frame_type, channel, payload) in cases {
        let frame = Frame { frame_type, channel, payload };
        let decoded = Frame::decode(frame.encode().unwrap().as_slice()).unwrap();
        assert_eq!(decoded, frame);
    }
}

#[test]
fn encoding_twice_is_byte_identical() {
    let frame = Frame { frame_type: FrameType::BODY, channel: 9, payload: vec![7, 8, 9] };
    assert_eq!(frame.encode().unwrap(), frame.encode().unwrap());
}

#[test]
fn frame_type_wire_bytes() {
    assert_eq!(FrameType::METHOD.as_u8(), 1);
    assert_eq!(FrameType::HEADERS.as_u8(), 2);
    assert_eq!(FrameType::BODY.as_u8(), 3);
    assert_eq!(FrameType::HEARTBEAT.as_u8(), 8);
    assert_eq!(FrameType::from_u8(1), Some(FrameType::METHOD));
    assert_eq!(FrameType::from_u8(2), Some(FrameType::HEADERS));
    assert_eq!(FrameType::from_u8(3), Some(FrameType::BODY));
    assert_eq!(FrameType::from_u8(8), Some(FrameType::HEARTBEAT));
    assert_eq!(FrameType::from_u8(0), None);
    assert_eq!(FrameType::from_u8(4), None);
    assert_eq!(FrameType::from_u8(9), None);
}

#[test]
fn bad_terminator_rejected() {
    let frame = Frame { frame_type: FrameType::METHOD, channel: 5, payload: vec![1, 2, 3] };
    let mut bytes = frame.encode().unwrap();
    let last = bytes.len() - 1;
    for wrong in [0x00u8, 0x01, 0xCD, 0xCF, 0xFF] {
        bytes[last] = wrong;
        assert_eq!(Frame::decode(bytes.as_slice()), Err(DecodeError::BadTerminator));
    }
}

#[test]
fn unknown_frame_type_rejected() {
    for wrong in [0u8, 4, 5, 6, 7, 9, 10, 0xCE, 0xFF] {
        let bytes = vec![wrong, 0x00, 0x05, 0x00, 0x00, 0x00, 0x01, 0xAA, 0xCE];
        assert_eq!(Frame::decode(bytes.as_slice()), Err(DecodeError::UnknownFrameType));
    }
}

#[test]
fn short_payload_rejected() {
    // The header declares five payload bytes; only three follow.
    let bytes = vec![0x01, 0x00, 0x05, 0x00, 0x00, 0x00, 0x05, 0x01, 0x02, 0x03];
    assert_eq!(Frame::decode(bytes.as_slice()), Err(DecodeError::ShortPayload));
}

#[test]
fn short_header_rejected() {
    assert_eq!(Frame::decode(&[]), Err(DecodeError::IncompleteHeader));
    assert_eq!(Frame::decode(&[0x01, 0x00, 0x05]), Err(DecodeError::IncompleteHeader));
    assert_eq!(
        Frame::decode(&[0x01, 0x00, 0x05, 0x00, 0x00, 0x00]),
        Err(DecodeError::IncompleteHeader)
    );
}

#[test]
fn missing_terminator_rejected() {
    // Header and payload are complete, but the input ends before the
    // terminator byte.
    let bytes = vec![0x01, 0x00, 0x05, 0x00, 0x00, 0x00, 0x02, 0x01, 0x02];
    assert_eq!(Frame::decode(bytes.as_slice()), Err(DecodeError::IncompleteHeader));
}

#[test]
fn trailing_bytes_are_left_alone() {
    let frame = Frame { frame_type: FrameType::BODY, channel: 3, payload: vec![0x11, 0x22] };
    let mut bytes = frame.encode().unwrap();
    bytes.extend_from_slice(&[0x08, 0x00, 0x00, 0x00, 0x00, 0x00, 0x00, 0xCE]);
    assert_eq!(Frame::decode(bytes.as_slice()).unwrap(), frame);
}

#[test]
fn content_header_round_trips() {
    let header = ContentHeaderFrame {
        content_class: 60,
        weight: 0,
        body_size: 11,
        properties_flags: 0x8000,
        properties: vec![0x04, b't', b'e', b'x', b't'],
    };
    let frame = Frame { frame_type: FrameType::HEADERS, channel: 1, payload: header.encode() };
    assert_eq!(ContentHeaderFrame::decode(frame).unwrap(), header);
}

#[test]
fn content_header_encodes_to_exact_bytes() {
    let header = ContentHeaderFrame {
        content_class: 60,
        weight: 0,
        body_size: 11,
        properties_flags: 0x8000,
        properties: vec![0x04, b't', b'e', b'x', b't'],
    };
    assert_eq!(
        header.encode(),
        vec![
            0x00, 0x3C, // content class
            0x00, 0x00, // weight
            0x00, 0x00, 0x00, 0x00, 0x00, 0x00, 0x00, 0x0B, // body size
            0x80, 0x00, // properties flags
            0x04, b't', b'e', b'x', b't', // properties
        ]
    );
}

#[test]
fn content_header_with_empty_properties_round_trips() {
    let header = ContentHeaderFrame {
        content_class: 10,
        weight: 0,
        body_size: 0,
        properties_flags: 0,
        properties: vec![],
    };
    let frame = Frame { frame_type: FrameType::HEADERS, channel: 0, payload: header.encode() };
    let decoded = ContentHeaderFrame::decode(frame).unwrap();
    assert_eq!(decoded, header);
    assert!(decoded.properties.is_empty());
}

#[test]
fn content_header_keeps_nonzero_weight() {
    // Weight is documented as always transmitted as zero, but any value
    // is accepted and stored as-is.
    let header = ContentHeaderFrame {
        content_class: 70,
        weight: 7,
        body_size: 1,
        properties_flags: 0x0001,
        properties: vec![0xFF],
    };
    let frame = Frame { frame_type: FrameType::HEADERS, channel: 2, payload: header.encode() };
    assert_eq!(ContentHeaderFrame::decode(frame).unwrap(), header);
}

#[test]
fn content_header_too_short_rejected() {
    let frame = Frame { frame_type: FrameType::HEADERS, channel: 1, payload: vec![0u8; 13] };
    assert_eq!(ContentHeaderFrame::decode(frame), Err(DecodeError::IncompleteHeader));
    let empty = Frame { frame_type: FrameType::HEADERS, channel: 1, payload: vec![] };
    assert_eq!(ContentHeaderFrame::decode(empty), Err(DecodeError::IncompleteHeader));
}

#[test]
fn large_body_size_round_trips() {
    let header = ContentHeaderFrame {
        content_class: 0xFFFF,
        weight: 0xFFFF,
        body_size: u64::MAX,
        properties_flags: 0xFFFF,
        properties: vec![0x01; 64],
    };
    let frame = Frame { frame_type: FrameType::HEADERS, channel: 9, payload: header.encode() };
    assert_eq!(ContentHeaderFrame::decode(frame).unwrap(), header);
}
