use rcon::{decode, Error};
use std::error::Error as StdError;
use std::io;

#[test]
fn auth_error_text() {
    assert_eq!(Error::AuthError.to_string(), "Error::AuthError");
    assert_eq!(Error::AuthError.description(), "authentication failed");
}

#[test]
fn invalid_packet_text() {
    assert_eq!(Error::InvalidPacket.to_string(), "Error::InvalidPacket");
    assert_eq!(Error::InvalidPacket.description(), "invalid packet");
}

#[test]
#[allow(deprecated)]
fn io_error_shows_the_underlying_error() {
    let inner = io::Error::new(io::ErrorKind::ConnectionReset, "peer went away");
    let shown = format!("{}", inner);
    let described = StdError::description(&inner).to_string();
    let err = Error::IOError(inner);
    assert_eq!(err.to_string(), shown);
    assert_eq!(err.to_string(), "peer went away");
    assert_eq!(err.description(), described);
}

#[test]
#[allow(deprecated)]
fn utf8_error_shows_the_underlying_error() {
    let inner = String::from_utf8(vec![0xff]).unwrap_err();
    let shown = format!("{}", inner);
    let described = StdError::description(&inner).to_string();
    let err = Error::UTF8Error(inner);
    assert_eq!(err.to_string(), shown);
    assert_eq!(err.description(), described);
}

#[test]
fn utf8_error_from_decode_names_the_bad_bytes() {
    let bytes = vec![12, 0, 0, 0, 1, 0, 0, 0, 0, 0, 0, 0, b'a', 0xff, 0, 0];
    match decode(&bytes) {
        Err(Error::UTF8Error(e)) => {
            assert_eq!(e.as_bytes(), &[b'a', 0xff]);
            assert_eq!(e.utf8_error().valid_up_to(), 1);
        }
        other => panic!("expected a UTF-8 error, got {:?}", other),
    }
}

#[test]
fn errors_have_debug_text() {
    assert_eq!(format!("{:?}", Error::AuthError), "AuthError");
    assert_eq!(format!("{:?}", Error::InvalidPacket), "InvalidPacket");
}
