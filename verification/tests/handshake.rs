use rcon::{
    decode, encode, Error, HandshakeState, Response, DEFAULT_TIMEOUT_SECS, RCON,
    SERVERDATA_AUTH, SERVERDATA_AUTH_RESPONSE, SERVERDATA_EXECCOMMAND,
};

fn answer(req_id: i32) -> Response {
    Response { req_id, packet_type: SERVERDATA_AUTH_RESPONSE, body: String::new() }
}

#[test]
fn default_timeout_is_five_seconds() {
    assert_eq!(DEFAULT_TIMEOUT_SECS, 5);
}

#[test]
fn fresh_connection_is_connected() {
    let conn = RCON::new();
    assert_eq!(conn.state(), HandshakeState::Connected);
}

#[test]
fn auth_request_carries_the_password_under_id_one() {
    let mut conn = RCON::new();
    let bytes = conn.auth_request("secret");
    assert_eq!(
        bytes,
        vec![16, 0, 0, 0, 1, 0, 0, 0, 3, 0, 0, 0, b's', b'e', b'c', b'r', b'e', b't', 0, 0]
    );
    assert_eq!(bytes, encode("secret", SERVERDATA_AUTH, 1));
    assert_eq!(conn.state(), HandshakeState::AuthSent);
}

#[test]
fn handshake_succeeds_when_the_server_echoes_id_one() {
    let mut conn = RCON::new();
    conn.auth_request("secret");
    assert!(conn.auth_response(&answer(1)).is_ok());
    assert_eq!(conn.state(), HandshakeState::Authenticated);
    let (id, bytes) = conn.write_cmd("status");
    assert_eq!(id, 2);
    assert!(!bytes.is_empty());
}

#[test]
fn handshake_success_does_not_depend_on_type_or_body() {
    let mut conn = RCON::new();
    conn.auth_request("pw");
    let resp = Response { req_id: 1, packet_type: 0, body: "welcome".to_string() };
    assert!(conn.auth_response(&resp).is_ok());
    assert_eq!(conn.state(), HandshakeState::Authenticated);
}

#[test]
fn handshake_is_rejected_on_the_failure_id() {
    let mut conn = RCON::new();
    conn.auth_request("wrong");
    assert!(matches!(conn.auth_response(&answer(-1)), Err(Error::AuthError)));
    assert_eq!(conn.state(), HandshakeState::Rejected);
}

#[test]
fn handshake_with_an_unknown_id_is_an_invalid_packet() {
    for req_id in [0, 2, 7, -2, i32::MAX, i32::MIN] {
        let mut conn = RCON::new();
        conn.auth_request("secret");
        assert!(matches!(conn.auth_response(&answer(req_id)), Err(Error::InvalidPacket)));
        assert_eq!(conn.state(), HandshakeState::Rejected);
    }
}

#[test]
fn handshake_over_the_wire() {
    let mut conn = RCON::new();
    let sent = conn.auth_request("secret");
    let (seen, _) = decode(&sent).unwrap();
    assert_eq!(seen.body, "secret");
    assert_eq!(seen.packet_type, SERVERDATA_AUTH);

    let reply = encode("", SERVERDATA_AUTH_RESPONSE, seen.req_id);
    let (resp, _) = decode(&reply).unwrap();
    assert!(conn.auth_response(&resp).is_ok());
    assert_eq!(conn.state(), HandshakeState::Authenticated);
}

#[test]
fn end_to_end_first_command_after_auth() {
    let mut conn = RCON::new();
    conn.auth_request("secret");
    conn.auth_response(&answer(1)).unwrap();
    let (id, bytes) = conn.write_cmd("status");
    assert_eq!(id, 2);
    assert_eq!(
        bytes,
        vec![16, 0, 0, 0, 2, 0, 0, 0, 2, 0, 0, 0, b's', b't', b'a', b't', b'u', b's', 0, 0]
    );
}

#[test]
fn commands_are_numbered_in_order() {
    let mut conn = RCON::new();
    conn.auth_request("secret");
    conn.auth_response(&answer(1)).unwrap();
    for expected in 2..50 {
        let (id, bytes) = conn.write_cmd("echo");
        assert_eq!(id, expected);
        assert_eq!(bytes, encode("echo", SERVERDATA_EXECCOMMAND, expected));
    }
    assert_eq!(conn.state(), HandshakeState::Authenticated);
}

#[test]
fn connections_number_their_packets_independently() {
    let mut a = RCON::new();
    let mut b = RCON::new();
    a.auth_request("x");
    a.auth_response(&answer(1)).unwrap();
    assert_eq!(a.write_cmd("one").0, 2);
    assert_eq!(a.write_cmd("two").0, 3);
    b.auth_request("y");
    b.auth_response(&answer(1)).unwrap();
    assert_eq!(b.write_cmd("one").0, 2);
}

#[test]
fn read_response_decodes_whatever_comes_next() {
    let mut conn = RCON::new();
    conn.auth_request("secret");
    conn.auth_response(&answer(1)).unwrap();
    let (id, _) = conn.write_cmd("status");

    // An answer to some other request comes first; it is handed over as it is.
    let mut wire = encode("stale", 0, 77);
    wire.extend_from_slice(&encode("hostname: test", 0, id));

    let (first, used) = conn.read_response(&wire).unwrap();
    assert_eq!(first.req_id, 77);
    assert_eq!(first.body, "stale");
    let (second, _) = conn.read_response(&wire[used..]).unwrap();
    assert_eq!(second.req_id, id);
    assert_eq!(second.body, "hostname: test");
    assert_eq!(conn.state(), HandshakeState::Authenticated);
}

#[test]
fn read_response_reports_the_codec_errors() {
    let mut conn = RCON::new();
    conn.auth_request("secret");
    conn.auth_response(&answer(1)).unwrap();
    assert!(matches!(conn.read_response(&[9, 0, 0, 0, 1, 2, 3]), Err(Error::InvalidPacket)));
    assert!(matches!(conn.read_response(&[10, 0, 0, 0, 1]), Err(Error::IOError(_))));
    assert!(matches!(
        conn.read_response(&[11, 0, 0, 0, 1, 0, 0, 0, 0, 0, 0, 0, 0x80, 0, 0]),
        Err(Error::UTF8Error(_))
    ));
}
