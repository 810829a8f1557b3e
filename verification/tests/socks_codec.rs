//! SOCKS5 wire-codec behaviour: round trips, exact byte layouts, partial
//! input, stage dependence, and the encoder's address-length checks.

use proxy_handshake::libra::codec::{Codec, DecoderState, Item};
use proxy_handshake::libra::Error;

fn encode_ok(item: Item) -> Vec<u8> {
    let mut codec = Codec::new(DecoderState::Methods);
    let mut buf = Vec::new();
    codec.encode(item, &mut buf).unwrap();
    buf
}

#[test]
fn test_codec() {
    let item = Item::Methods(vec![1, 2, 3]);
    let mut buf = Vec::new();
    let mut codec = Codec::new(DecoderState::Methods);
    codec.encode(item.clone(), &mut buf).unwrap();
    let item1 = codec.decode(&mut buf).unwrap();
    assert_eq!(Some(item), item1);
}

#[test]
fn methods_wire_layout() {
    assert_eq!(encode_ok(Item::Methods(vec![0])), vec![5u8, 1, 0]);
    assert_eq!(encode_ok(Item::Methods(vec![0, 2])), vec![5u8, 2, 0, 2]);
}

#[test]
fn selection_status_wire_layout() {
    assert_eq!(encode_ok(Item::Selection(0)), vec![5u8, 0]);
    assert_eq!(encode_ok(Item::Selection(0xff)), vec![5u8, 0xff]);
    assert_eq!(encode_ok(Item::Status(0)), vec![1u8, 0]);
    assert_eq!(encode_ok(Item::Status(1)), vec![1u8, 1]);
}

#[test]
fn username_password_wire_layout() {
    let item = Item::UsernamePassword(b"alice".to_vec(), b"secret".to_vec());
    let mut expected = vec![1u8, 5];
    expected.extend_from_slice(b"alice");
    expected.push(6);
    expected.extend_from_slice(b"secret");
    assert_eq!(encode_ok(item), expected);
}

#[test]
fn command_ipv4_wire_layout() {
    let item = Item::Command(1, 1, vec![127, 0, 0, 1], 9000);
    assert_eq!(encode_ok(item), vec![5u8, 1, 0, 1, 127, 0, 0, 1, 0x23, 0x28]);
}

#[test]
fn reply_domain_wire_layout() {
    let item = Item::Reply(0, 3, b"example.com".to_vec(), 443);
    let mut expected = vec![5u8, 0, 0, 3, 11];
    expected.extend_from_slice(b"example.com");
    expected.push(0x01);
    expected.push(0xbb);
    assert_eq!(encode_ok(item), expected);
}

#[test]
fn round_trip_every_variant() {
    let cases = vec![
        (DecoderState::Methods, Item::Methods(vec![0, 1, 2])),
        (DecoderState::Methods, Item::Methods(vec![])),
        (
            DecoderState::UsernamePassword,
            Item::UsernamePassword(vec![], vec![]),
        ),
        (DecoderState::Command, Item::Command(1, 3, vec![], 80)),
        (DecoderState::Selection, Item::Selection(2)),
        (
            DecoderState::UsernamePassword,
            Item::UsernamePassword(b"u".to_vec(), b"pw".to_vec()),
        ),
        (DecoderState::Status, Item::Status(0)),
        (DecoderState::Command, Item::Command(1, 4, vec![0x20; 16], 8080)),
        (DecoderState::Command, Item::Command(1, 3, b"host".to_vec(), 1)),
        (DecoderState::Reply, Item::Reply(0, 1, vec![10, 0, 0, 1], 65535)),
    ];
    for (stage, item) in cases {
        let mut codec = Codec::new(stage);
        let mut buf = Vec::new();
        codec.encode(item.clone(), &mut buf).unwrap();
        let decoded = codec.decode(&mut buf).unwrap();
        assert_eq!(decoded, Some(item));
        assert!(buf.is_empty());
    }
}

#[test]
fn partial_input_needs_more_and_keeps_buffer() {
    let full = encode_ok(Item::Command(1, 3, b"example.com".to_vec(), 443));
    for cut in 0..full.len() {
        let mut codec = Codec::new(DecoderState::Command);
        let mut buf = full[..cut].to_vec();
        let r = codec.decode(&mut buf).unwrap();
        assert!(r.is_none());
        assert_eq!(buf, full[..cut].to_vec());
    }
}

#[test]
fn payload_after_frame_is_preserved() {
    let mut buf = encode_ok(Item::Reply(0, 1, vec![127, 0, 0, 1], 9000));
    buf.extend_from_slice(b"hello world\r\n");
    let mut codec = Codec::new(DecoderState::Reply);
    let decoded = codec.decode(&mut buf).unwrap();
    assert_eq!(decoded, Some(Item::Reply(0, 1, vec![127, 0, 0, 1], 9000)));
    assert_eq!(buf, b"hello world\r\n".to_vec());
}

#[test]
fn same_bytes_mean_different_frames_per_stage() {
    let bytes = vec![5u8, 0];
    let mut methods = Codec::new(DecoderState::Methods);
    let mut buf = bytes.clone();
    assert_eq!(methods.decode(&mut buf).unwrap(), Some(Item::Methods(vec![])));
    let mut selection = Codec::new(DecoderState::Selection);
    let mut buf = bytes.clone();
    assert_eq!(selection.decode(&mut buf).unwrap(), Some(Item::Selection(0)));
}

#[test]
fn bad_version_is_fatal() {
    let mut codec = Codec::new(DecoderState::Selection);
    let mut buf = vec![4u8, 0];
    assert!(matches!(codec.decode(&mut buf), Err(Error::InvalidVersion)));
}

#[test]
fn unknown_address_type_is_fatal() {
    let mut codec = Codec::new(DecoderState::Command);
    let mut buf = vec![5u8, 1, 0, 9, 0, 0, 0, 0, 0, 0];
    assert!(matches!(codec.decode(&mut buf), Err(Error::AddressTypeNotSupported)));
}

#[test]
fn encoder_rejects_wrong_address_lengths() {
    let mut codec = Codec::new(DecoderState::Command);
    let mut buf = Vec::new();
    let r = codec.encode(Item::Command(1, 1, vec![1, 2, 3], 80), &mut buf);
    assert!(matches!(r, Err(Error::AddressTypeNotSupported)));
    assert!(buf.is_empty());
    let r = codec.encode(Item::Reply(0, 4, vec![0; 15], 80), &mut buf);
    assert!(matches!(r, Err(Error::AddressTypeNotSupported)));
    assert!(buf.is_empty());
    let r = codec.encode(Item::Command(1, 9, vec![1, 2, 3, 4], 80), &mut buf);
    assert!(matches!(r, Err(Error::AddressTypeNotSupported)));
    assert!(buf.is_empty());
}

#[test]
fn set_next_state_redirects_decoding() {
    let mut codec = Codec::new(DecoderState::Methods);
    codec.set_next_state(DecoderState::Status);
    let mut buf = vec![1u8, 0];
    assert_eq!(codec.decode(&mut buf).unwrap(), Some(Item::Status(0)));
}
