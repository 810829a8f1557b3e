//! End-to-end SOCKS5 handshakes, driven frame by frame through the client
//! and server state machines with the real codec in between.

use proxy_handshake::libra::client::{Builder as ClientBuilder, ClientStep};
use proxy_handshake::libra::codec::{rep_str, stage_matches, Codec, DecoderState, Item};
use proxy_handshake::libra::server::{Builder as ServerBuilder, ServerStep};
use proxy_handshake::libra::{Destination, Error};

fn decode_one(codec: &mut Codec, stage: DecoderState, buf: &mut Vec<u8>) -> Item {
    codec.set_next_state(stage);
    codec.decode(buf).unwrap().expect("a complete frame was expected")
}

#[test]
fn no_auth_ipv4_connect_success() {
    let client = ClientBuilder::default().set_destination(Destination::new(
        1,
        vec![127, 0, 0, 1],
        9000,
    ));
    let (mut cm, greeting) = client.start();
    assert_eq!(greeting, vec![5u8, 1, 0]);

    let mut sm = ServerBuilder::new().start();
    let mut codec = Codec::new(DecoderState::Methods);
    let mut buf = greeting.clone();
    let item = decode_one(&mut codec, sm.expected(), &mut buf);
    let selection = match sm.on_item(item) {
        ServerStep::Send(b) => b,
        _ => panic!("a selection was expected"),
    };
    assert_eq!(selection, vec![5u8, 0]);

    let mut buf = selection.clone();
    let item = decode_one(&mut codec, cm.expected(), &mut buf);
    let connect = match cm.on_item(item).unwrap() {
        ClientStep::Send(b) => b,
        _ => panic!("the CONNECT request was expected"),
    };
    assert_eq!(connect, vec![5u8, 1, 0, 1, 127, 0, 0, 1, 0x23, 0x28]);

    let mut buf = connect.clone();
    let item = decode_one(&mut codec, sm.expected(), &mut buf);
    let dest = match sm.on_item(item) {
        ServerStep::Dial(d) => d,
        _ => panic!("a dial was expected"),
    };
    let (aty, host, port) = dest.into_tuple();
    assert_eq!((aty, host, port), (1u8, vec![127, 0, 0, 1], 9000u16));

    let reply = sm.on_dial_success(&Destination::new(1, vec![127, 0, 0, 1], 9000));
    assert_eq!(reply, vec![5u8, 0, 0, 1, 127, 0, 0, 1, 0x23, 0x28]);

    let mut buf = reply.clone();
    buf.extend_from_slice(b"hello");
    let item = decode_one(&mut codec, cm.expected(), &mut buf);
    assert!(matches!(cm.on_item(item).unwrap(), ClientStep::Done));
    assert_eq!(buf, b"hello".to_vec());
}

#[test]
fn user_pass_success() {
    let client = ClientBuilder::default()
        .set_authorization("alice".to_string(), "secret".to_string())
        .set_destination(Destination::new(1, vec![127, 0, 0, 1], 9000));
    let (mut cm, greeting) = client.start();
    assert_eq!(greeting, vec![5u8, 2, 0, 2]);

    let mut sm = ServerBuilder::new()
        .set_authorization("alice".to_string(), "secret".to_string())
        .start();
    let mut codec = Codec::new(DecoderState::Methods);
    let mut buf = greeting.clone();
    let item = decode_one(&mut codec, sm.expected(), &mut buf);
    let selection = match sm.on_item(item) {
        ServerStep::Send(b) => b,
        _ => panic!("a selection was expected"),
    };
    assert_eq!(selection, vec![5u8, 2]);

    let mut buf = selection.clone();
    let item = decode_one(&mut codec, cm.expected(), &mut buf);
    let userpass = match cm.on_item(item).unwrap() {
        ClientStep::Send(b) => b,
        _ => panic!("the credential frame was expected"),
    };
    let mut expected = vec![1u8, 5];
    expected.extend_from_slice(b"alice");
    expected.push(6);
    expected.extend_from_slice(b"secret");
    assert_eq!(userpass, expected);

    let mut buf = userpass.clone();
    let item = decode_one(&mut codec, sm.expected(), &mut buf);
    let status = match sm.on_item(item) {
        ServerStep::Send(b) => b,
        _ => panic!("a success status was expected"),
    };
    assert_eq!(status, vec![1u8, 0]);

    let mut buf = status.clone();
    let item = decode_one(&mut codec, cm.expected(), &mut buf);
    let connect = match cm.on_item(item).unwrap() {
        ClientStep::Send(b) => b,
        _ => panic!("the CONNECT request was expected"),
    };
    assert_eq!(connect, vec![5u8, 1, 0, 1, 127, 0, 0, 1, 0x23, 0x28]);

    let mut buf = connect.clone();
    let item = decode_one(&mut codec, sm.expected(), &mut buf);
    assert!(matches!(sm.on_item(item), ServerStep::Dial(_)));
    let reply = sm.on_dial_success(&Destination::new(1, vec![127, 0, 0, 1], 9000));
    let mut buf = reply.clone();
    let item = decode_one(&mut codec, cm.expected(), &mut buf);
    assert!(matches!(cm.on_item(item).unwrap(), ClientStep::Done));
}

#[test]
fn user_pass_failure() {
    let client = ClientBuilder::default()
        .set_authorization("alice".to_string(), "wrong1".to_string())
        .set_destination(Destination::new(1, vec![127, 0, 0, 1], 9000));
    let (mut cm, greeting) = client.start();

    let mut sm = ServerBuilder::new()
        .set_authorization("alice".to_string(), "secret".to_string())
        .start();
    let mut codec = Codec::new(DecoderState::Methods);
    let mut buf = greeting.clone();
    let item = decode_one(&mut codec, sm.expected(), &mut buf);
    let selection = match sm.on_item(item) {
        ServerStep::Send(b) => b,
        _ => panic!("a selection was expected"),
    };

    let mut buf = selection.clone();
    let item = decode_one(&mut codec, cm.expected(), &mut buf);
    let userpass = match cm.on_item(item).unwrap() {
        ClientStep::Send(b) => b,
        _ => panic!("the credential frame was expected"),
    };

    let mut buf = userpass.clone();
    let item = decode_one(&mut codec, sm.expected(), &mut buf);
    let (status, err) = match sm.on_item(item) {
        ServerStep::Fatal(b, e) => (b, e),
        _ => panic!("a rejection was expected"),
    };
    assert_eq!(status, vec![1u8, 1]);
    assert!(matches!(err, Error::Unauthorized));

    let mut buf = status.clone();
    let item = decode_one(&mut codec, cm.expected(), &mut buf);
    assert!(matches!(cm.on_item(item), Err(Error::Unauthorized)));
}

#[test]
fn unsupported_command_bind() {
    let mut sm = ServerBuilder::new().start();
    let mut codec = Codec::new(DecoderState::Methods);
    let mut buf = vec![5u8, 1, 0];
    let item = decode_one(&mut codec, sm.expected(), &mut buf);
    sm.on_item(item);

    let mut bind = Vec::new();
    Codec::new(DecoderState::Command)
        .encode(Item::Command(2, 1, vec![127, 0, 0, 1], 9000), &mut bind)
        .unwrap();
    let item = decode_one(&mut codec, sm.expected(), &mut bind);
    let (reply, err) = match sm.on_item(item) {
        ServerStep::Fatal(b, e) => (b, e),
        _ => panic!("a rejection was expected"),
    };
    assert_eq!(reply, vec![5u8, 7, 0, 1, 0, 0, 0, 0, 0, 0]);
    assert!(matches!(err, Error::Rep(7, _)));

    let client = ClientBuilder::default().set_destination(Destination::new(
        1,
        vec![127, 0, 0, 1],
        9000,
    ));
    let (mut cm, _) = client.start();
    let mut buf = vec![5u8, 0];
    let item = decode_one(&mut codec, cm.expected(), &mut buf);
    cm.on_item(item).unwrap();
    let mut buf = reply.clone();
    let item = decode_one(&mut codec, cm.expected(), &mut buf);
    match cm.on_item(item) {
        Err(Error::Rep(code, msg)) => {
            assert_eq!(code, 7);
            assert_eq!(msg, "command not supported");
        },
        other => panic!("a reply error was expected, got {:?}", other.is_ok()),
    }
}

#[test]
fn method_rejection_writes_no_acceptable() {
    let mut sm = ServerBuilder::new()
        .set_authorization("u".to_string(), "p".to_string())
        .start();
    let mut codec = Codec::new(DecoderState::Methods);
    let mut buf = vec![5u8, 1, 0];
    let item = decode_one(&mut codec, sm.expected(), &mut buf);
    let (reply, err) = match sm.on_item(item) {
        ServerStep::Fatal(b, e) => (b, e),
        _ => panic!("a rejection was expected"),
    };
    assert_eq!(reply, vec![5u8, 0xff]);
    assert!(matches!(err, Error::UnknownMethod));
}

#[test]
fn dial_failure_writes_host_unreachable() {
    let mut sm = ServerBuilder::new().start();
    let mut codec = Codec::new(DecoderState::Methods);
    let mut buf = vec![5u8, 1, 0];
    let item = decode_one(&mut codec, sm.expected(), &mut buf);
    sm.on_item(item);
    let mut buf = vec![5u8, 1, 0, 1, 10, 1, 2, 3, 0, 80];
    let item = decode_one(&mut codec, sm.expected(), &mut buf);
    assert!(matches!(sm.on_item(item), ServerStep::Dial(_)));
    let reply = sm.on_dial_failure();
    assert_eq!(reply, vec![5u8, 4, 0, 1, 0, 0, 0, 0, 0, 0]);
}

#[test]
fn decode_error_writes_address_type_reply() {
    let mut sm = ServerBuilder::new().start();
    let mut codec = Codec::new(DecoderState::Methods);
    let mut buf = vec![5u8, 1, 0];
    let item = decode_one(&mut codec, sm.expected(), &mut buf);
    sm.on_item(item);
    codec.set_next_state(sm.expected());
    let mut buf = vec![5u8, 1, 0, 9, 0, 0, 0, 0, 0, 0];
    let err = codec.decode(&mut buf).unwrap_err();
    let (reply, err) = match sm.on_decode_error(err) {
        ServerStep::Fatal(b, e) => (b, e),
        _ => panic!("a rejection was expected"),
    };
    assert_eq!(reply, vec![5u8, 8, 0, 1, 0, 0, 0, 0, 0, 0]);
    assert!(matches!(err, Error::AddressTypeNotSupported));
}

#[test]
fn configured_bind_address_wins_in_success_reply() {
    let mut sm = ServerBuilder::new()
        .set_bind_addr(Destination::new(1, vec![10, 0, 0, 7], 4321))
        .start();
    let mut codec = Codec::new(DecoderState::Methods);
    let mut buf = vec![5u8, 1, 0];
    let item = decode_one(&mut codec, sm.expected(), &mut buf);
    sm.on_item(item);
    let mut buf = vec![5u8, 1, 0, 1, 127, 0, 0, 1, 0x23, 0x28];
    let item = decode_one(&mut codec, sm.expected(), &mut buf);
    assert!(matches!(sm.on_item(item), ServerStep::Dial(_)));
    let reply = sm.on_dial_success(&Destination::new(1, vec![192, 168, 0, 9], 1));
    assert_eq!(reply, vec![5u8, 0, 0, 1, 10, 0, 0, 7, 0x10, 0xe1]);
}

#[test]
fn client_rejects_foreign_selection() {
    let client = ClientBuilder::default().set_destination(Destination::new(
        1,
        vec![127, 0, 0, 1],
        9000,
    ));
    let (mut cm, _) = client.start();
    assert!(matches!(cm.on_item(Item::Selection(0xff)), Err(Error::UnknownMethod)));

    let client = ClientBuilder::default().set_destination(Destination::new(
        1,
        vec![127, 0, 0, 1],
        9000,
    ));
    let (mut cm, _) = client.start();
    assert!(matches!(cm.on_item(Item::Selection(2)), Err(Error::UnknownMethod)));
}

#[test]
fn domain_destination_connect_frame() {
    let client = ClientBuilder::default().set_domain("example.com".to_string(), 443);
    let (mut cm, greeting) = client.start();
    assert_eq!(greeting, vec![5u8, 1, 0]);
    let connect = match cm.on_item(Item::Selection(0)).unwrap() {
        ClientStep::Send(b) => b,
        _ => panic!("the CONNECT request was expected"),
    };
    let mut expected = vec![5u8, 1, 0, 3, 11];
    expected.extend_from_slice(b"example.com");
    expected.push(0x01);
    expected.push(0xbb);
    assert_eq!(connect, expected);
}

#[test]
fn rep_str_table() {
    assert_eq!(rep_str(0), "succeeded");
    assert_eq!(rep_str(1), "general socks server failure");
    assert_eq!(rep_str(2), "connection not allowed by ruleset");
    assert_eq!(rep_str(3), "network unreachable");
    assert_eq!(rep_str(4), "host unreachable");
    assert_eq!(rep_str(5), "connection refused");
    assert_eq!(rep_str(6), "ttl expired");
    assert_eq!(rep_str(7), "command not supported");
    assert_eq!(rep_str(8), "address type not supported");
    assert_eq!(rep_str(9), "unknown");
}

#[test]
fn stage_matching() {
    assert!(stage_matches(DecoderState::Methods, &Item::Methods(vec![])));
    assert!(stage_matches(DecoderState::Reply, &Item::Reply(0, 1, vec![0, 0, 0, 0], 0)));
    assert!(!stage_matches(DecoderState::Methods, &Item::Selection(0)));
}

#[test]
fn destination_queries() {
    let d = Destination::new(3, b"example.com".to_vec(), 443);
    assert!(!d.is_socket_addr());
    assert_eq!(d.host(), Some("example.com"));
    assert_eq!(d.port(), 443);

    let d = Destination::new(1, vec![127, 0, 0, 1], 1080);
    assert!(d.is_socket_addr());

    let d = Destination::new(3, vec![0xff, 0xfe], 1);
    assert!(d.host().is_none());

    let d = Destination::default();
    let (aty, host, port) = d.into_tuple();
    assert_eq!((aty, host, port), (1u8, vec![127, 0, 0, 1], 1080u16));
}
