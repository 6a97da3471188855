//! The handler of the protocol's own commands.

use vstd::prelude::*;
use crate::server::request::{Request, RequestView};
use crate::server::response::{Response, ResponseView};
use crate::server::router::{next, reply, router};
use crate::server::session::{Session, SessionView};
use crate::server::Handler;

verus! {

/// Handles requests by routing them to the command handlers.
pub struct TCPHandler;

impl Handler for TCPHandler {
    open spec fn reply(&self, s: SessionView, r: RequestView) -> ResponseView {
        reply(s, r)
    }

    open spec fn next(&self, s: SessionView, r: RequestView) -> SessionView {
        next(s, r)
    }

    fn handle_request(&self, session: &mut Session, request: &Request) -> (response: Response) {
        router(session, request)
    }
}

} // verus!
