//! The server side: wire codec, status taxonomy, session state machine,
//! command handlers, routing, and what the server does with one connection.

use vstd::prelude::*;
use vstd::string::*;
use controllers::{store_unavailable, unavailable_reply};
use request::{decode, Request, RequestView};
use router::{access, access_of, Access};
use response::{Response, ResponseView};
use session::{Session, SessionView};
use status_code::ErrorKind;

pub mod status_code;
pub mod request;
pub mod response;
pub mod session;
pub mod controllers;
pub mod router;
pub mod tcp_handler;
pub mod laws;

verus! {

/// The reply to a buffer that did not decode: a bad request that carries
/// the decoder's message.
pub open spec fn bad_request_reply(e: Seq<char>) -> ResponseView {
    ResponseView { status: ErrorKind::MalformedRequest.spec_status(), body: Some(e) }
}

/// What answers the requests of a server.
pub trait Handler {
    /// The reply that this handler gives to a request on a store.
    spec fn reply(&self, s: SessionView, r: RequestView) -> ResponseView;

    /// The store that this handler leaves behind.
    spec fn next(&self, s: SessionView, r: RequestView) -> SessionView;

    /// Handles a decoded request on the store.
    fn handle_request(&self, session: &mut Session, request: &Request) -> (response: Response)
        ensures
            response@ == self.reply(old(session)@, request@),
            final(session)@ == self.next(old(session)@, request@),
    ;

    /// Answers a buffer that did not decode. No handler of a command is
    /// reached.
    fn handle_bad_request(&self, e: &str) -> (response: Response)
        ensures
            response@ == bad_request_reply(e@),
    {
        Response::with_text(ErrorKind::MalformedRequest.status(), e)
    }
}

/// What the server made of one connection.
pub struct Served {
    /// The bytes to write back.
    pub reply: Vec<u8>,
    /// Whether a session started, so that a timer driver is due.
    pub started: bool,
}

/// The reply that a handler's server gives to a buffer on a store.
pub open spec fn served_reply<H: Handler>(
    handler: &H,
    s: SessionView,
    buffer: Seq<u8>,
) -> ResponseView {
    match decode(buffer) {
        Ok(r) => handler.reply(s, r),
        Err(e) => bad_request_reply(e.spec_message()),
    }
}

/// The store that a handler's server leaves behind.
pub open spec fn served_next<H: Handler>(
    handler: &H,
    s: SessionView,
    buffer: Seq<u8>,
) -> SessionView {
    match decode(buffer) {
        Ok(r) => handler.next(s, r),
        Err(e) => s,
    }
}

/// How a buffer's command has to hold the store while it is served: as
/// its command says, and not at all where the buffer does not decode.
pub open spec fn served_access(buffer: Seq<u8>) -> Access {
    match decode(buffer) {
        Ok(r) => access_of(r),
        Err(_) => Access::Free,
    }
}

/// A server and the address that it listens on.
pub struct Server {
    addr: String,
}

impl Server {
    /// A server for the given address.
    pub fn new(addr: &str) -> (s: Server)
        ensures
            s.spec_addr() == addr@,
    {
        Server { addr: String::from_str(addr) }
    }

    /// The address that the server listens on.
    pub closed spec fn spec_addr(&self) -> Seq<char> {
        self.addr@
    }

    /// The address that the server listens on.
    pub fn addr(&self) -> (a: &str)
        ensures
            a@ == self.spec_addr(),
    {
        self.addr.as_str()
    }

    /// How the store has to be held to serve this buffer.
    pub fn access(&self, buffer: &[u8]) -> (a: Access)
        ensures
            a == served_access(buffer@),
    {
        match Request::try_from(buffer) {
            Ok(request) => access(&request),
            Err(_) => Access::Free,
        }
    }

    /// What a connection gets whose command probed the store and found it
    /// held: an internal error, and no session.
    pub fn unavailable(&self) -> (served: Served)
        ensures
            served.reply@ == unavailable_reply().wire(),
            !served.started,
    {
        let mut reply: Vec<u8> = Vec::new();
        store_unavailable().send(&mut reply);
        assert(reply@ =~= unavailable_reply().wire());
        Served { reply, started: false }
    }

    /// Serves one connection: decodes the buffer once, hands the request to
    /// the handler, or the decoder's error where there is none, and encodes
    /// the reply. A session has started when the store went from pristine
    /// to running.
    pub fn serve<H: Handler>(&self, handler: &H, session: &mut Session, buffer: &[u8]) -> (served:
        Served)
        ensures
            served.reply@ == served_reply(handler, old(session)@, buffer@).wire(),
            final(session)@ == served_next(handler, old(session)@, buffer@),
            served.started == (old(session)@.state is Pristine && final(session)@.state is Running),
    {
        let before = session.state();
        let response = match Request::try_from(buffer) {
            Ok(request) => handler.handle_request(session, &request),
            Err(e) => handler.handle_bad_request(e.as_str()),
        };
        let mut reply: Vec<u8> = Vec::new();
        response.send(&mut reply);
        let after = session.state();
        assert(reply@ =~= response@.wire());
        Served {
            reply,
            started: before == session::CounterState::Pristine && after
                == session::CounterState::Running,
        }
    }
}

} // verus!
