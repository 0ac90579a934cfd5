use agent_core::rcon::{
    strip_trailing_nul,
    check_auth_reply, check_command_reply, decode_header, decode_payload, decode_response, encode_packet,
    payload_length, RconHeader, RconResponse, RconSession, RCON_AUTH, RCON_TYPE_COMMAND,
};

#[test]
fn packet_layout() {
    let p = encode_packet(RCON_TYPE_COMMAND, 7, "list");
    assert_eq!(
        p,
        vec![14, 0, 0, 0, 7, 0, 0, 0, 2, 0, 0, 0, b'l', b'i', b's', b't', 0, 0]
    );
    let h = decode_header(&p[..12]);
    assert_eq!(payload_length(&h), p.len() - 12);
    assert_eq!(decode_payload(&p[12..]), "list");
    assert_eq!(h, RconHeader { length: 14, id: 7, packet_type: RCON_TYPE_COMMAND });
    let neg = encode_packet(RCON_AUTH, -2, "");
    assert_eq!(&neg[4..8], &[0xfe, 0xff, 0xff, 0xff]);
    assert_eq!(decode_header(&neg[..12]).id, -2);
}

#[test]
fn payload_text() {
    assert_eq!(decode_payload(b"There are 0 players\0\0"), "There are 0 players");
    assert_eq!(decode_payload(b"ok\0\0\0\0"), "ok");
    assert_eq!(decode_payload(b"\0"), "");
    assert_eq!(decode_payload(&[0xff, b'a', 0, 0]), "\u{fffd}a");
    assert_eq!(payload_length(&RconHeader { length: 12, id: 1, packet_type: 0 }), 4);
    let r = decode_response(&[12, 0, 0, 0, 5, 0, 0, 0, 0, 0, 0, 0], b"hi\0\0");
    assert_eq!(r.id, 5);
    assert_eq!(r.payload, "hi");
}

#[test]
fn session_ids_and_replies() {
    let mut s = RconSession::new();
    let (auth_id, auth) = s.auth_packet("pw");
    assert_eq!(auth_id, 1);
    assert_eq!(&auth[8..12], &[3, 0, 0, 0]);
    let (cmd_id, _) = s.command_packet("list");
    assert_eq!(cmd_id, 2);
    assert_eq!(s.next_id(), 3);
    let mut wrap = RconSession { packet_id: i32::MAX };
    assert_eq!(wrap.next_id(), i32::MAX);
    assert_eq!(wrap.packet_id, i32::MIN);

    let ok = RconResponse { id: 1, packet_type: 2, payload: String::new() };
    assert!(check_auth_reply(1, &ok).is_ok());
    let refused = check_auth_reply(2, &ok).unwrap_err();
    assert_eq!(refused.code, "AUTH_FAILED");
    assert!(!refused.retryable);
    let reply = RconResponse { id: 2, packet_type: 0, payload: "done".to_string() };
    assert_eq!(check_command_reply(2, reply).unwrap(), "done");
    let stray = RconResponse { id: 9, packet_type: 0, payload: "x".to_string() };
    let e = check_command_reply(2, stray).unwrap_err();
    assert_eq!(e.code, "INVALID_RESPONSE");
    assert!(e.retryable);
}

#[test]
fn trailing_nul_characters_are_dropped() {
    assert_eq!(strip_trailing_nul("ab\0\0"), "ab");
    assert_eq!(strip_trailing_nul("a\0b"), "a\0b");
    assert_eq!(strip_trailing_nul(""), "");
}
