use smart_house::client::{status_command, turn_command};
use smart_house::datagram::receive_message;
use smart_house::error::{ConnectError, RecvError};
use smart_house::frame::{decode_frame, decode_length, decode_payload, encode_frame, encode_length};
use smart_house::gui::{Action, Counter, Message};
use smart_house::handshake::{answer_greeting, check_reply, describe_received, handshake, protocol_version, PROTO_VER};
use smart_house::text::{decimal_string, parse_u16, same_text};

#[test]
fn frame_bytes_are_exact() {
    assert_eq!(encode_frame("status"), b"\x00\x00\x00\x06status".to_vec());
    assert_eq!(encode_frame(""), vec![0, 0, 0, 0]);
    assert_eq!(encode_frame("é"), vec![0, 0, 0, 2, 0xc3, 0xa9]);
}

#[test]
fn length_prefix_is_big_endian() {
    assert_eq!(encode_length(0x01020304), [1, 2, 3, 4]);
    assert_eq!(decode_length([1, 2, 3, 4]), 0x01020304);
    assert_eq!(decode_length([0xff, 0xff, 0xff, 0xff]), u32::MAX);
    assert_eq!(encode_length(300), [0, 0, 1, 44]);
}

#[test]
fn frame_round_trip() {
    for s in ["", "status", "turn 1", "температура", "日本語 ✓ 🏠", "a\u{0}b"] {
        let bytes = encode_frame(s);
        assert_eq!(decode_frame(&bytes).unwrap(), s);
    }
}

#[test]
fn decode_ignores_bytes_after_frame() {
    let mut bytes = encode_frame("abc");
    bytes.extend_from_slice(&encode_frame("def"));
    assert_eq!(decode_frame(&bytes).unwrap(), "abc");
}

#[test]
fn truncated_frame_is_io_error() {
    let bytes = encode_frame("status");
    for k in 0..bytes.len() {
        match decode_frame(&bytes[..k]) {
            Err(RecvError::Io(e)) => assert_eq!(e.kind(), std::io::ErrorKind::UnexpectedEof),
            other => panic!("cut at {k}: {other:?}"),
        }
    }
}

#[test]
fn invalid_utf8_is_bad_encoding() {
    assert!(matches!(decode_frame(&[0, 0, 0, 2, 0xc3, 0x28]), Err(RecvError::BadEncoding)));
    assert!(matches!(decode_payload(vec![0xff]), Err(RecvError::BadEncoding)));
    assert_eq!(decode_payload(vec![0x68, 0x69]).unwrap(), "hi");
}

#[test]
fn tokens_compare_exactly() {
    assert_eq!(PROTO_VER, *b"0001");
    assert_eq!(protocol_version(), *b"0001");
    assert!(handshake(*b"0001", *b"0001"));
    assert!(!handshake(*b"0001", *b"0002"));
    assert!(!handshake(*b"1001", *b"0001"));
}

#[test]
fn handshake_with_equal_tokens() {
    let reply = answer_greeting(PROTO_VER, *b"0001").unwrap();
    assert_eq!(reply, PROTO_VER);
    assert!(check_reply(PROTO_VER, reply).is_ok());
}

#[test]
fn handshake_with_different_tokens() {
    match answer_greeting(*b"0002", *b"0001") {
        Err(ConnectError::BadHandshake(m)) => assert_eq!(m, "received: [48, 48, 48, 49]"),
        other => panic!("{other:?}"),
    }
    match check_reply(*b"0001", *b"0002") {
        Err(ConnectError::BadHandshake(m)) => assert_eq!(m, "received: [48, 48, 48, 50]"),
        other => panic!("{other:?}"),
    }
    assert_eq!(describe_received([0, 9, 10, 255]), "received: [0, 9, 10, 255]");
}

#[test]
fn numbers_in_text() {
    assert_eq!(decimal_string(0), "0");
    assert_eq!(decimal_string(1234567890), "1234567890");
    assert_eq!(decimal_string(u64::MAX), "18446744073709551615");
    assert_eq!(parse_u16("0"), Some(0));
    assert_eq!(parse_u16("42"), Some(42));
    assert_eq!(parse_u16("+7"), Some(7));
    assert_eq!(parse_u16("007"), Some(7));
    assert_eq!(parse_u16("65535"), Some(65535));
    assert_eq!(parse_u16("65536"), None);
    assert_eq!(parse_u16("99999999999999999999"), None);
    assert_eq!(parse_u16(""), None);
    assert_eq!(parse_u16("+"), None);
    assert_eq!(parse_u16("-1"), None);
    assert_eq!(parse_u16("1 2"), None);
    assert_eq!(parse_u16("١٢"), None);
}

#[test]
fn text_equality() {
    assert!(same_text("turn 1", "turn 1"));
    assert!(!same_text("turn 1", "turn 0"));
    assert!(!same_text("turn", "turn 1"));
    assert!(same_text("", ""));
}

#[test]
fn client_commands() {
    assert_eq!(turn_command(1), "turn 1");
    assert_eq!(turn_command(0), "turn 0");
    assert_eq!(turn_command(65535), "turn 65535");
    assert_eq!(status_command(), "status");
}

#[test]
fn datagrams_keep_their_source() {
    let a = receive_message(String::from("10.0.0.1:5000"), b"21".to_vec()).unwrap();
    let b = receive_message(String::from("10.0.0.2:5001"), b"22".to_vec()).unwrap();
    assert_eq!((a.source.as_str(), a.message.as_str()), ("10.0.0.1:5000", "21"));
    assert_eq!((b.source.as_str(), b.message.as_str()), ("10.0.0.2:5001", "22"));
    assert!(matches!(
        receive_message(String::from("10.0.0.1:5000"), vec![0xc3]),
        Err(RecvError::BadEncoding)
    ));
}

#[test]
fn panel_updates() {
    let mut panel = Counter::new();
    assert_eq!(panel.title(), "SmartSocket App - Iced");
    assert_eq!(panel.update(Message::TurnOnPressed), Action::TurnOn);
    assert_eq!(panel.update(Message::TurnOffPressed), Action::TurnOff);
    assert_eq!(panel.update(Message::GetStatisticsPressed), Action::FetchStatus);
    assert_eq!(panel.stats, "");
    assert_eq!(panel.update(Message::ReceivedStatistics(String::from("on"))), Action::Nothing);
    assert_eq!(panel.update(Message::TooltipUpdate(String::from("socket turned on"))), Action::Nothing);
    assert_eq!(panel.stats, "on");
    assert_eq!(panel.tooltip, "socket turned on");
}
