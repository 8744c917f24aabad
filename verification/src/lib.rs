//! Client side of the remote console protocol: packet framing, request ids
//! and the authentication handshake, as pure functions on bytes and values.
//! Sockets, locks and deadlines belong to the caller.

pub mod client;
pub mod error;
pub mod ids;
pub mod packet;
pub mod wire;

pub use client::{HandshakeState, DEFAULT_TIMEOUT_SECS, RCON};
pub use error::Error;
pub use ids::RequestIdGenerator;
pub use packet::{
    decode, decode_payload, encode, payload_len, Response, MAX_BODY_LEN, MIN_PACKET_SIZE,
    SERVERDATA_AUTH, SERVERDATA_AUTH_RESPONSE, SERVERDATA_EXECCOMMAND, SERVERDATA_RESPONSE_VALUE,
};
