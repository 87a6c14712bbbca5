use xenstore::error::{XsError, XsErrorKind};
use xenstore::wire::{XsMessage, XsMessageType};

fn message(payload: &[u8]) -> XsMessage {
    XsMessage {
        msg_type: XsMessageType::WatchEvent,
        request_id: 0,
        transaction_id: 0,
        payload: payload.to_vec(),
    }
}

#[test]
fn strings_are_ended_by_zero_bytes() {
    let m = XsMessage::from_string_slice(XsMessageType::Watch, 3, &["a", "bc"]);
    assert_eq!(m.msg_type, XsMessageType::Watch);
    assert_eq!(m.request_id, 3);
    assert_eq!(m.transaction_id, 0);
    assert_eq!(m.payload, b"a\0bc\0".to_vec());
}

#[test]
fn no_strings_make_an_empty_payload() {
    let m = XsMessage::from_string_slice(XsMessageType::Other(2), 0, &[]);
    assert!(m.payload.is_empty());
    assert_eq!(m.parse_payload_list(), Ok(vec![]));
}

#[test]
fn payload_gives_back_its_strings() {
    let strings = ["/local/domain/1/name", "", "caf\u{e9} \u{1f600}"];
    let m = XsMessage::from_string_slice(XsMessageType::Unwatch, 31, &strings);
    assert_eq!(m.parse_payload_list(), Ok(strings.to_vec()));
}

#[test]
fn last_string_needs_no_end() {
    assert_eq!(message(b"a\0b").parse_payload_list(), Ok(vec!["a", "b"]));
    assert_eq!(message(b"a").parse_payload_list(), Ok(vec!["a"]));
}

#[test]
fn empty_strings_are_kept() {
    assert_eq!(message(b"\0").parse_payload_list(), Ok(vec![""]));
    assert_eq!(message(b"\0\0").parse_payload_list(), Ok(vec!["", ""]));
    assert_eq!(message(b"a\0\0b\0").parse_payload_list(), Ok(vec!["a", "", "b"]));
}

#[test]
fn string_with_a_zero_byte_falls_apart() {
    let m = XsMessage::from_string_slice(XsMessageType::Watch, 0, &["a\0b"]);
    assert_eq!(m.parse_payload_list(), Ok(vec!["a", "b"]));
}

#[test]
fn payload_that_is_not_text_is_rejected() {
    assert_eq!(message(b"a\0\xff\0").parse_payload_list(), Err(XsError::InvalidText));
    assert_eq!(message(b"a\0\xc3").parse_payload_list(), Err(XsError::InvalidText));
    assert_eq!(message(b"\xc3\0\xa9\0").parse_payload_list(), Err(XsError::InvalidText));
}

#[test]
fn types_have_numbers() {
    assert_eq!(XsMessageType::Watch.code(), 4);
    assert_eq!(XsMessageType::Unwatch.code(), 5);
    assert_eq!(XsMessageType::WatchEvent.code(), 15);
    assert_eq!(XsMessageType::Error.code(), 16);
    assert_eq!(XsMessageType::Other(11).code(), 11);
    for code in 0..32 {
        assert_eq!(XsMessageType::from_code(code).code(), code);
    }
    assert_eq!(XsMessageType::from_code(4), XsMessageType::Watch);
    assert_eq!(XsMessageType::from_code(2), XsMessageType::Other(2));
}

#[test]
fn header_gives_back_the_message() {
    let m = XsMessage {
        msg_type: XsMessageType::Error,
        request_id: 7,
        transaction_id: 9,
        payload: b"ENOENT\0".to_vec(),
    };
    assert_eq!(m.header(), Some([16, 7, 9, 7]));
    let header = m.header().unwrap();
    let payload = m.payload.to_vec();
    assert_eq!(XsMessage::from_header(header, payload), m);
}

#[test]
fn errors_have_kinds() {
    assert_eq!(XsError::Refused(message(b"EACCES\0")).kind(), XsErrorKind::Refused);
    assert_eq!(
        XsError::UnexpectedResponse(XsMessageType::Other(2)).kind(),
        XsErrorKind::InvalidData
    );
    assert_eq!(XsError::InvalidText.kind(), XsErrorKind::InvalidData);
    assert_eq!(XsError::Unsupported.kind(), XsErrorKind::Unsupported);
}
