use hdc_rs::protocol::channel::ChannelHandShake;
use hdc_rs::HdcError;

#[test]
fn test_handshake_size() {
    assert_eq!(ChannelHandShake::SIZE, 108);
    assert_eq!(ChannelHandShake::SIZE_WITHOUT_VERSION, 44);
    assert_eq!(std::mem::size_of::<ChannelHandShake>(), 108);
}

#[test]
fn test_handshake_from_bytes_short() {
    // Test 44-byte handshake (without version)
    let mut data = vec![0u8; 44];
    data[..8].copy_from_slice(b"OHOS HDC");
    data[12..16].copy_from_slice(&0x12345678u32.to_be_bytes());

    let hs = ChannelHandShake::from_bytes(&data).unwrap();
    assert_eq!(hs.get_channel_id(), 0x12345678);
    assert_eq!(hs.get_version(), "");
}

#[test]
fn test_handshake_from_bytes_full() {
    // Test 108-byte handshake (with version)
    let mut data = vec![0u8; 108];
    data[..8].copy_from_slice(b"OHOS HDC");
    data[12..16].copy_from_slice(&0x12345678u32.to_be_bytes());
    data[44..49].copy_from_slice(b"3.2.0");

    let hs = ChannelHandShake::from_bytes(&data).unwrap();
    assert_eq!(hs.get_channel_id(), 0x12345678);
    assert_eq!(hs.get_version(), "3.2.0");
}

#[test]
fn test_channel_id() {
    let mut hs = ChannelHandShake::default();
    hs.set_channel_id(0x12345678);
    assert_eq!(hs.get_channel_id(), 0x12345678);
}

#[test]
fn test_connect_key() {
    let mut hs = ChannelHandShake::default();
    hs.set_connect_key("test-device-001");
    assert_eq!(hs.get_connect_key(), "test-device-001");
}

#[test]
fn test_version() {
    let mut hs = ChannelHandShake::default();
    hs.set_version("3.2.0");
    assert_eq!(hs.get_version(), "3.2.0");
}

#[test]
fn test_to_bytes_without_version() {
    let mut hs = ChannelHandShake::default();
    hs.banner[..8].copy_from_slice(b"OHOS HDC");
    hs.set_channel_id(0x12345678);

    let bytes = hs.to_bytes_without_version();
    assert_eq!(bytes.len(), 44);
    assert_eq!(&bytes[..8], b"OHOS HDC");
}

fn sample(len: usize) -> Vec<u8> {
    let mut data: Vec<u8> = (0..len).map(|i| (i * 7 + 3) as u8).collect();
    data[..8].copy_from_slice(b"OHOS HDC");
    data
}

#[test]
fn short_handshake_round_trips() {
    let data = sample(44);
    let hs = ChannelHandShake::from_bytes(&data).unwrap();
    assert_eq!(hs.to_bytes_without_version(), data);
    assert_eq!(hs.version, [0u8; 64]);
}

#[test]
fn full_handshake_round_trips() {
    let data = sample(108);
    let hs = ChannelHandShake::from_bytes(&data).unwrap();
    assert_eq!(hs.to_bytes(), data);
    assert_eq!(hs.to_bytes_without_version(), &data[..44]);
}

#[test]
fn handshake_between_the_two_forms_has_no_version() {
    let data = sample(107);
    let hs = ChannelHandShake::from_bytes(&data).unwrap();
    assert_eq!(hs.version, [0u8; 64]);
    assert_eq!(&hs.banner[..], &data[..12]);
    assert_eq!(&hs.channel_id_or_key[..], &data[12..44]);
    let longer = sample(120);
    let hs = ChannelHandShake::from_bytes(&longer).unwrap();
    assert_eq!(&hs.version[..], &longer[44..108]);
}

#[test]
fn handshake_shorter_than_the_short_form_is_rejected() {
    for len in [0usize, 1, 12, 43] {
        match ChannelHandShake::from_bytes(&sample(44)[..len]) {
            Err(HdcError::Protocol(msg)) => assert_eq!(
                msg,
                format!("Handshake data too short: expected at least 44, got {}", len)
            ),
            other => panic!("unexpected result: {:?}", other),
        }
    }
}

#[test]
fn channel_id_is_read_in_network_byte_order() {
    let mut hs = ChannelHandShake::default();
    hs.channel_id_or_key[..6].copy_from_slice(&[0x12, 0x34, 0x56, 0x78, 0x9a, 0xbc]);
    assert_eq!(hs.get_channel_id(), 0x12345678);
    hs.channel_id_or_key[..4].copy_from_slice(&[0xff, 0xff, 0xff, 0xff]);
    assert_eq!(hs.get_channel_id(), u32::MAX);
}

#[test]
fn set_channel_id_touches_four_bytes_only() {
    let mut hs = ChannelHandShake::from_bytes(&sample(108)).unwrap();
    let before = hs.clone();
    hs.set_channel_id(0xdeadbeef);
    assert_eq!(&hs.channel_id_or_key[..4], &[0xde, 0xad, 0xbe, 0xef]);
    assert_eq!(&hs.channel_id_or_key[4..], &before.channel_id_or_key[4..]);
    assert_eq!(hs.banner, before.banner);
    assert_eq!(hs.version, before.version);
}

#[test]
fn device_identity_round_trips() {
    let mut hs = ChannelHandShake::default();
    hs.set_connect_key("dev-001");
    assert_eq!(hs.get_connect_key(), "dev-001");
    assert_eq!(&hs.channel_id_or_key[..7], b"dev-001");
    assert_eq!(&hs.channel_id_or_key[7..], &[0u8; 25]);
    assert_eq!(hs.connect_key_bytes(), b"dev-001");
}

#[test]
fn set_connect_key_clears_the_field_first() {
    let mut hs = ChannelHandShake::from_bytes(&sample(44)).unwrap();
    hs.set_connect_key("ab");
    let mut expected = [0u8; 32];
    expected[..2].copy_from_slice(b"ab");
    assert_eq!(hs.channel_id_or_key, expected);
    hs.set_connect_key("");
    assert_eq!(hs.channel_id_or_key, [0u8; 32]);
    assert_eq!(hs.get_connect_key(), "");
}

#[test]
fn connect_key_is_cut_at_32_bytes() {
    let long = "0123456789abcdef0123456789abcdefXYZ";
    let mut hs = ChannelHandShake::default();
    hs.set_connect_key(long);
    assert_eq!(&hs.channel_id_or_key[..], &long.as_bytes()[..32]);
    assert_eq!(hs.get_connect_key(), &long[..32]);
}

#[test]
fn connect_key_that_is_not_utf8_comes_out_with_replacement_characters() {
    let mut hs = ChannelHandShake::default();
    hs.channel_id_or_key[..3].copy_from_slice(&[b'a', 0xff, b'b']);
    assert_eq!(hs.get_connect_key(), "a\u{fffd}b");
    // a key cut in the middle of a character
    let key = format!("{}{}", "x".repeat(31), "é");
    hs.set_connect_key(&key);
    assert_eq!(hs.get_connect_key(), format!("{}\u{fffd}", "x".repeat(31)));
}

#[test]
fn version_is_cut_at_64_bytes() {
    let long = "v".repeat(70);
    let mut hs = ChannelHandShake::default();
    hs.set_version(&long);
    assert_eq!(hs.version, [b'v'; 64]);
    assert_eq!(hs.get_version(), "v".repeat(64));
    assert_eq!(hs.version_bytes(), vec![b'v'; 64]);
}

#[test]
fn banner_with_the_magic_literal_is_accepted() {
    let hs = ChannelHandShake::from_bytes(&sample(44)).unwrap();
    assert!(hs.verify_banner().is_ok());
}

#[test]
fn banner_without_the_magic_literal_is_rejected_with_its_bytes() {
    let mut data = sample(44);
    data[..12].copy_from_slice(b"OHOS HDX1234");
    let hs = ChannelHandShake::from_bytes(&data).unwrap();
    match hs.verify_banner() {
        Err(HdcError::InvalidBanner(raw)) => assert_eq!(raw, b"OHOS HDX1234"),
        other => panic!("unexpected result: {:?}", other),
    }
    match ChannelHandShake::default().verify_banner() {
        Err(HdcError::InvalidBanner(raw)) => assert_eq!(raw, vec![0u8; 12]),
        other => panic!("unexpected result: {:?}", other),
    }
}

#[test]
fn stable_buffer_mode_goes_by_the_feature_tag() {
    let mut hs = ChannelHandShake::default();
    assert!(hs.is_stable_buf());
    hs.banner[7] = b'1';
    assert!(!hs.is_stable_buf());
    hs.banner[7] = b'C';
    assert!(hs.is_stable_buf());
}

#[test]
fn default_handshake_is_all_zeros() {
    let hs = ChannelHandShake::default();
    assert_eq!(hs.to_bytes(), vec![0u8; 108]);
    assert_eq!(hs.get_channel_id(), 0);
}
