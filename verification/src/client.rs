//! The client side: what a client sends, and how it reads what comes back.

use vstd::prelude::*;
use vstd::string::*;
use response::{decode_reply, Response};

pub mod actions;
pub mod response;

verus! {

/// Why a client got no reply.
#[derive(Copy, Clone, Debug, PartialEq, Eq, Structural)]
pub enum ClientError {
    /// Nothing listens at the address.
    ServerNotStarted,
    /// The reply could not be read from the connection.
    ReadError,
    /// The request could not be written to the connection.
    WriteError,
    /// What was read is no reply.
    DecodeError,
}

impl ClientError {
    /// The error's name.
    pub open spec fn spec_name(self) -> Seq<char> {
        match self {
            ClientError::ServerNotStarted => "ServerNotStarted"@,
            ClientError::ReadError => "ReadError"@,
            ClientError::WriteError => "WriteError"@,
            ClientError::DecodeError => "DecodeError"@,
        }
    }

    /// The error's name.
    pub fn name(&self) -> (n: &'static str)
        ensures
            n@ == self.spec_name(),
    {
        match self {
            ClientError::ServerNotStarted => "ServerNotStarted",
            ClientError::ReadError => "ReadError",
            ClientError::WriteError => "WriteError",
            ClientError::DecodeError => "DecodeError",
        }
    }
}

/// A client of the server at one address.
#[derive(Clone)]
pub struct Client {
    addr: String,
}

impl Client {
    /// A client of the server at the given address.
    pub fn new(addr: &str) -> (c: Client)
        ensures
            c.spec_addr() == addr@,
    {
        Self { addr: String::from_str(addr) }
    }

    /// The server's address.
    pub closed spec fn spec_addr(&self) -> Seq<char> {
        self.addr@
    }

    /// The server's address.
    pub fn addr(&self) -> (a: &str)
        ensures
            a@ == self.spec_addr(),
    {
        self.addr.as_str()
    }

    /// Reads what the connection gave back, to its end, as a reply.
    pub fn receive(&self, buffer: &[u8]) -> (r: Result<Response, ClientError>)
        ensures
            match decode_reply(buffer@) {
                Ok(v) => r is Ok && r->Ok_0@ == v,
                Err(_) => r == Err::<Response, ClientError>(ClientError::DecodeError),
            },
    {
        match Response::try_from(buffer) {
            Ok(response) => Ok(response),
            Err(_) => Err(ClientError::DecodeError),
        }
    }
}

} // verus!
