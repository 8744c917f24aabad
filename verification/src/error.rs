//! The failures that the protocol engine and its caller report.

use std::error::Error as StdError;
use std::string::FromUtf8Error;
use vstd::prelude::*;
use vstd::string::StringExecFns;

verus! {

#[verifier::external_type_specification]
#[verifier::external_body]
pub struct ExIoError(std::io::Error);

#[verifier::external_type_specification]
#[verifier::external_body]
pub struct ExFromUtf8Error(FromUtf8Error);

/// Why an operation on a connection failed. None of these is recovered
/// from: after any of them the connection is to be discarded.
#[derive(Debug)]
pub enum Error {
    /// The transport failed, or the input ended inside a packet.
    IOError(std::io::Error),
    /// A packet's body is not valid UTF-8.
    UTF8Error(FromUtf8Error),
    /// The server refused the password.
    AuthError,
    /// A packet declares a size under the minimum, or the handshake's
    /// response carries an id that is neither the one sent nor the refusal.
    InvalidPacket,
}

/// `Display` of `std::io::Error`, as a `String`. What the text says is
/// std's business; nothing is claimed of it.
#[verifier::external_body]
fn io_error_text(e: &std::io::Error) -> String {
    format!("{}", e)
}

/// `Display` of `std::string::FromUtf8Error`, as a `String`. Nothing is
/// claimed of the text.
#[verifier::external_body]
fn utf8_error_text(e: &FromUtf8Error) -> String {
    format!("{}", e)
}

/// `std::error::Error::description` of `std::io::Error`. Nothing is
/// claimed of the text.
#[verifier::external_body]
#[allow(deprecated)]
fn io_error_description(e: &std::io::Error) -> &str {
    e.description()
}

/// `std::error::Error::description` of `std::string::FromUtf8Error`.
/// Nothing is claimed of the text.
#[verifier::external_body]
#[allow(deprecated)]
fn utf8_error_description(e: &FromUtf8Error) -> &str {
    e.description()
}

impl Error {
    /// The text shown for the protocol's own two failures.
    pub open spec fn spec_text(self) -> Seq<char>
        recommends
            self is AuthError || self is InvalidPacket,
    {
        if self is AuthError {
            "Error::AuthError"@
        } else {
            "Error::InvalidPacket"@
        }
    }

    /// The short description of the protocol's own two failures.
    pub open spec fn spec_description(self) -> Seq<char>
        recommends
            self is AuthError || self is InvalidPacket,
    {
        if self is AuthError {
            "authentication failed"@
        } else {
            "invalid packet"@
        }
    }

    /// The error as text: the name of the variant for the protocol's own
    /// failures, the underlying error's own text otherwise.
    pub fn to_string(&self) -> (s: String)
        ensures
            self is AuthError || self is InvalidPacket ==> s@ == self.spec_text(),
    {
        match self {
            Error::IOError(e) => io_error_text(e),
            Error::UTF8Error(e) => utf8_error_text(e),
            Error::AuthError => String::from_str("Error::AuthError"),
            Error::InvalidPacket => String::from_str("Error::InvalidPacket"),
        }
    }

    /// A short description of the error.
    pub fn description(&self) -> (s: &str)
        ensures
            self is AuthError || self is InvalidPacket ==> s@ == self.spec_description(),
    {
        match self {
            Error::IOError(e) => io_error_description(e),
            Error::UTF8Error(e) => utf8_error_description(e),
            Error::AuthError => "authentication failed",
            Error::InvalidPacket => "invalid packet",
        }
    }
}

} // verus!
