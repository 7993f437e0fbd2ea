use hdc_rs::protocol::packet::PacketCodec;
use hdc_rs::protocol::{DEFAULT_BUF_SIZE, HANDSHAKE_BANNER, MAX_PACKET_SIZE, PACKET_LENGTH_SIZE};
use hdc_rs::HdcError;

#[test]
fn test_encode() {
    let codec = PacketCodec::new();
    let data = b"Hello, HDC!";
    let packet = codec.encode(data).unwrap();

    // Check length prefix
    assert_eq!(packet.len(), 4 + data.len());
    let len = u32::from_be_bytes([packet[0], packet[1], packet[2], packet[3]]);
    assert_eq!(len as usize, data.len());

    // Check data
    assert_eq!(&packet[4..], data);
}

#[test]
fn test_encode_empty() {
    let codec = PacketCodec::new();
    let data = b"";
    let packet = codec.encode(data).unwrap();
    assert_eq!(packet.len(), 4);
    let len = u32::from_be_bytes([packet[0], packet[1], packet[2], packet[3]]);
    assert_eq!(len, 0);
}

#[test]
fn constants_have_their_values() {
    assert_eq!(MAX_PACKET_SIZE, 523264);
    assert_eq!(PACKET_LENGTH_SIZE, 4);
    assert_eq!(DEFAULT_BUF_SIZE, 1024);
    assert_eq!(&HANDSHAKE_BANNER, b"OHOS HDC");
}

#[test]
fn encode_writes_length_most_significant_byte_first() {
    let codec = PacketCodec::default();
    let data = vec![0xabu8; 0x012345];
    let packet = codec.encode(&data).unwrap();
    assert_eq!(&packet[..4], &[0x00, 0x01, 0x23, 0x45]);
    assert_eq!(packet.len(), 4 + 0x012345);
    let small = codec.encode(&[7, 8]).unwrap();
    assert_eq!(small, vec![0, 0, 0, 2, 7, 8]);
}

#[test]
fn encode_accepts_the_largest_payload() {
    let codec = PacketCodec::new();
    let data = vec![1u8; MAX_PACKET_SIZE];
    let packet = codec.encode(&data).unwrap();
    assert_eq!(&packet[..4], &[0x00, 0x07, 0xfc, 0x00]);
    assert_eq!(packet.len(), MAX_PACKET_SIZE + 4);
}

#[test]
fn encode_rejects_a_payload_over_the_maximum() {
    let codec = PacketCodec::new();
    let data = vec![0u8; MAX_PACKET_SIZE + 1];
    match codec.encode(&data) {
        Err(HdcError::BufferError(msg)) => {
            assert_eq!(msg, "Data size 523265 exceeds maximum packet size 523264");
        }
        other => panic!("unexpected result: {:?}", other),
    }
}

#[test]
fn decode_gives_back_what_encode_framed() {
    let mut codec = PacketCodec::new();
    for payload in [&b"x"[..], &b"Hello, HDC!"[..], &[0u8, 255, 1, 254][..]] {
        let frame = codec.encode(payload).unwrap();
        assert_eq!(codec.decode(&frame).unwrap(), payload);
        assert_eq!(codec.read_packet(&frame).unwrap(), payload);
    }
    let big = vec![0x5au8; MAX_PACKET_SIZE];
    let frame = codec.encode(&big).unwrap();
    assert_eq!(codec.decode(&frame).unwrap(), big);
}

#[test]
fn decode_leaves_what_follows_the_frame() {
    let mut codec = PacketCodec::new();
    let stream = [0u8, 0, 0, 3, b'a', b'b', b'c', b'd', b'e'];
    assert_eq!(codec.decode(&stream).unwrap(), b"abc");
}

#[test]
fn decode_rejects_the_frame_of_an_empty_payload() {
    let mut codec = PacketCodec::new();
    let frame = codec.encode(b"").unwrap();
    match codec.decode(&frame) {
        Err(HdcError::Protocol(msg)) => assert_eq!(msg, "Received zero-length packet"),
        other => panic!("unexpected result: {:?}", other),
    }
}

#[test]
fn decode_rejects_a_length_over_the_maximum() {
    let mut codec = PacketCodec::new();
    let stream = [0x00u8, 0x07, 0xfc, 0x01, 1, 2, 3];
    match codec.decode(&stream) {
        Err(HdcError::Protocol(msg)) => {
            assert_eq!(msg, "Packet size 523265 exceeds maximum 523264");
        }
        other => panic!("unexpected result: {:?}", other),
    }
    let stream = [0xffu8, 0xff, 0xff, 0xff];
    match codec.decode(&stream) {
        Err(HdcError::Protocol(msg)) => {
            assert_eq!(msg, "Packet size 4294967295 exceeds maximum 523264");
        }
        other => panic!("unexpected result: {:?}", other),
    }
}

#[test]
fn decode_fails_when_the_stream_ends_in_the_prefix() {
    let mut codec = PacketCodec::new();
    for stream in [&[][..], &[0u8][..], &[0u8, 0, 0][..]] {
        match codec.decode(stream) {
            Err(HdcError::Io(e)) => assert_eq!(e.kind(), std::io::ErrorKind::UnexpectedEof),
            other => panic!("unexpected result: {:?}", other),
        }
    }
}

#[test]
fn decode_fails_when_the_stream_ends_in_the_payload() {
    let mut codec = PacketCodec::new();
    let stream = [0u8, 0, 0, 5, 1, 2, 3, 4];
    match codec.decode(&stream) {
        Err(HdcError::Io(e)) => assert_eq!(e.kind(), std::io::ErrorKind::UnexpectedEof),
        other => panic!("unexpected result: {:?}", other),
    }
}

#[test]
fn payload_length_reads_the_prefix() {
    let codec = PacketCodec::new();
    assert_eq!(codec.payload_length(&[0, 0, 0, 1]).unwrap(), 1);
    assert_eq!(codec.payload_length(&[0, 0, 1, 0]).unwrap(), 256);
    assert_eq!(codec.payload_length(&[0, 1, 0, 0]).unwrap(), 65536);
    assert_eq!(codec.payload_length(&[0, 7, 0xfc, 0]).unwrap(), MAX_PACKET_SIZE);
    assert!(matches!(codec.payload_length(&[0, 0, 0, 0]), Err(HdcError::Protocol(_))));
    assert!(matches!(codec.payload_length(&[1, 0, 0, 0]), Err(HdcError::Protocol(_))));
    assert!(matches!(codec.payload_length(&[0, 7, 0xfc, 1]), Err(HdcError::Protocol(_))));
}
