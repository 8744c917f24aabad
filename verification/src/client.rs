//! The connection's protocol engine: the handshake and the numbering of
//! commands, with the socket left out.
//!
//! The engine decides and the caller performs. Each step hands back the
//! bytes to put on the wire, or takes what came off it, and moves the
//! state on; the caller owns the socket and the lock around it.

use crate::error::Error;
use crate::ids::{next_id, RequestIdGenerator, AUTH_FAILURE_ID, FIRST_ID};
use crate::packet::{
    decode, encode, packet_bytes, reports_with_len, spec_decode, Response, ResponseView,
    MAX_BODY_LEN, SERVERDATA_AUTH, SERVERDATA_EXECCOMMAND,
};
use vstd::prelude::*;
use vstd::string::StringSliceAdditionalSpecFns;

verus! {

/// Seconds that a read and a write may each take when the caller names no
/// deadline of its own.
pub const DEFAULT_TIMEOUT_SECS: u64 = 5;

/// Where a connection stands in its handshake.
#[derive(Clone, Copy, Debug, PartialEq, Eq, Structural)]
pub enum HandshakeState {
    /// The socket is open; nothing has been sent.
    Connected,
    /// The password is on its way; the answer is awaited.
    AuthSent,
    /// The server accepted the password: commands may be sent.
    Authenticated,
    /// The handshake failed: the connection is to be discarded.
    Rejected,
}

/// What a connection's engine amounts to: its place in the handshake and
/// the id of its next packet.
pub struct ConnectionModel {
    pub state: HandshakeState,
    pub upcoming_id: int,
}

impl ConnectionModel {
    /// A connection on which nothing has happened yet.
    pub open spec fn fresh() -> ConnectionModel {
        ConnectionModel { state: HandshakeState::Connected, upcoming_id: FIRST_ID as int }
    }

    /// The connection once its password packet has been built.
    pub open spec fn auth_request(self) -> ConnectionModel {
        ConnectionModel {
            state: HandshakeState::AuthSent,
            upcoming_id: next_id(self.upcoming_id),
        }
    }

    /// The connection once the answer to the password, with id `req_id`,
    /// has been taken in.
    pub open spec fn auth_response(self, req_id: i32) -> ConnectionModel {
        ConnectionModel {
            state: if req_id == FIRST_ID {
                HandshakeState::Authenticated
            } else {
                HandshakeState::Rejected
            },
            upcoming_id: self.upcoming_id,
        }
    }

    /// The connection once one more command packet has been built.
    pub open spec fn command(self) -> ConnectionModel {
        ConnectionModel { state: self.state, upcoming_id: next_id(self.upcoming_id) }
    }
}

/// The handshake's verdict on an answer with id `req_id`: the first id
/// echoed back is success, the failure id is a refused password, and any
/// other id belongs to no packet that was sent.
pub open spec fn auth_outcome(req_id: i32) -> Result<(), Error> {
    if req_id == FIRST_ID {
        Ok(())
    } else if req_id == AUTH_FAILURE_ID {
        Err(Error::AuthError)
    } else {
        Err(Error::InvalidPacket)
    }
}

/// The protocol engine of one connection.
pub struct RCON {
    state: HandshakeState,
    last_id: RequestIdGenerator,
}

impl View for RCON {
    type V = ConnectionModel;

    closed spec fn view(&self) -> ConnectionModel {
        ConnectionModel { state: self.state, upcoming_id: self.last_id.peek() }
    }
}

impl RCON {
    /// Until the password packet is built, no id has been used.
    #[verifier::type_invariant]
    spec fn untouched_while_connected(self) -> bool {
        self.state == HandshakeState::Connected ==> self.last_id.peek() == FIRST_ID
    }

    /// The engine of a connection that was just opened.
    pub fn new() -> (conn: RCON)
        ensures
            conn@ == ConnectionModel::fresh(),
    {
        RCON { state: HandshakeState::Connected, last_id: RequestIdGenerator::new() }
    }

    /// Where the connection stands in its handshake.
    pub fn state(&self) -> (state: HandshakeState)
        ensures
            state == self@.state,
    {
        self.state
    }

    /// Opens the handshake: builds the packet that carries the password,
    /// under the connection's first id, for the caller to send.
    pub fn auth_request(&mut self, pwd: &str) -> (bytes: Vec<u8>)
        requires
            old(self)@.state == HandshakeState::Connected,
            pwd.len() <= MAX_BODY_LEN,
        ensures
            bytes@ == packet_bytes(pwd.spec_bytes(), SERVERDATA_AUTH, FIRST_ID),
            final(self)@ == ConnectionModel::fresh().auth_request(),
            final(self)@ == old(self)@.auth_request(),
    {
        proof {
            use_type_invariant(&*self);
        }
        self.state = HandshakeState::AuthSent;
        let id = self.last_id.next();
        encode(pwd, SERVERDATA_AUTH, id)
    }

    /// Closes the handshake on the server's answer. It is taken in once:
    /// whatever the verdict, the state it leaves accepts no second answer.
    pub fn auth_response(&mut self, resp: &Response) -> (res: Result<(), Error>)
        requires
            old(self)@.state == HandshakeState::AuthSent,
        ensures
            res == auth_outcome(resp.req_id),
            final(self)@ == old(self)@.auth_response(resp.req_id),
    {
        if resp.req_id == FIRST_ID {
            self.state = HandshakeState::Authenticated;
            Ok(())
        } else if resp.req_id == AUTH_FAILURE_ID {
            self.state = HandshakeState::Rejected;
            Err(Error::AuthError)
        } else {
            self.state = HandshakeState::Rejected;
            Err(Error::InvalidPacket)
        }
    }

    /// Builds the packet of one command under a fresh id, for the caller
    /// to send, and gives the id by which to tell its answer.
    pub fn write_cmd(&mut self, cmd: &str) -> (res: (i32, Vec<u8>))
        requires
            old(self)@.state == HandshakeState::Authenticated,
            cmd.len() <= MAX_BODY_LEN,
        ensures
            res.0 == old(self)@.upcoming_id,
            res.1@ == packet_bytes(cmd.spec_bytes(), SERVERDATA_EXECCOMMAND, res.0),
            final(self)@ == old(self)@.command(),
    {
        let id = self.last_id.next();
        (id, encode(cmd, SERVERDATA_EXECCOMMAND, id))
    }

    /// Decodes the next packet off the wire, whichever request it answers,
    /// and says how many bytes it took. The connection is left as it was.
    pub fn read_response(&self, wire: &[u8]) -> (res: Result<(Response, usize), Error>)
        requires
            self@.state == HandshakeState::Authenticated,
        ensures
            reports_with_len(res, spec_decode(wire@)),
    {
        decode(wire)
    }
}

/// Handshake success: when the server's answer echoes the first id, the
/// handshake that a fresh connection runs ends authenticated, whatever
/// else the answer holds. The connection then takes commands, and numbers
/// the first of them with the id after the password's.
pub proof fn lemma_handshake_success(answer: ResponseView)
    requires
        answer.req_id == FIRST_ID,
    ensures
        auth_outcome(answer.req_id) == Ok::<(), Error>(()),
        ConnectionModel::fresh().auth_request().auth_response(answer.req_id).state
            == HandshakeState::Authenticated,
        ConnectionModel::fresh().auth_request().auth_response(answer.req_id).upcoming_id == 2,
{
}

/// Handshake rejection: when the server's answer carries the failure id,
/// the handshake fails with `AuthError` and the connection is rejected:
/// it never comes to take a command.
pub proof fn lemma_handshake_rejection(before: ConnectionModel, answer: ResponseView)
    requires
        answer.req_id == AUTH_FAILURE_ID,
    ensures
        auth_outcome(answer.req_id) == Err::<(), Error>(Error::AuthError),
        before.auth_response(answer.req_id).state == HandshakeState::Rejected,
{
}

/// Any answer but the two that the handshake knows is an invalid packet,
/// and the handshake succeeds on the first id alone.
pub proof fn lemma_handshake_mismatch(before: ConnectionModel, answer: ResponseView)
    ensures
        answer.req_id != FIRST_ID && answer.req_id != AUTH_FAILURE_ID ==> auth_outcome(
            answer.req_id,
        ) == Err::<(), Error>(Error::InvalidPacket),
        auth_outcome(answer.req_id) is Ok <==> answer.req_id == FIRST_ID,
        before.auth_response(answer.req_id).state == HandshakeState::Authenticated
            <==> answer.req_id == FIRST_ID,
{
}

} // verus!
