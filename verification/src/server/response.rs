//! Replies and their wire form: the status number, then the body if there is
//! one, then `;`.

use vstd::prelude::*;
use vstd::string::*;
use vstd::utf8::*;
use crate::server::status_code::StatusCode;
use crate::server::request::view_opt;

verus! {

/// A reply as a mathematical value.
pub struct ResponseView {
    pub status: StatusCode,
    pub body: Option<Seq<char>>,
}

/// A reply: exactly one status, and a message where there is one.
#[derive(Debug)]
pub struct Response {
    status_code: StatusCode,
    body: Option<String>,
}

impl ResponseView {
    /// The reply as a line of text: `<number> <body>;` with a body,
    /// `<number>;` without.
    pub open spec fn line(self) -> Seq<char> {
        self.status.shown() + match self.body {
            Some(b) => seq![' '] + b,
            None => Seq::<char>::empty(),
        } + seq![';']
    }

    /// The reply as bytes on the wire.
    pub open spec fn wire(self) -> Seq<u8> {
        encode_utf8(self.line())
    }
}

impl View for Response {
    type V = ResponseView;

    closed spec fn view(&self) -> ResponseView {
        ResponseView { status: self.status_code, body: view_opt(self.body) }
    }
}

impl Response {
    /// A reply with the given status and body.
    pub fn new(status_code: StatusCode, body: Option<String>) -> (r: Response)
        ensures
            r@ == (ResponseView { status: status_code, body: view_opt(body) }),
    {
        Response { status_code, body }
    }

    /// A reply with the given status and the given text as its body.
    pub fn with_text(status_code: StatusCode, text: &str) -> (r: Response)
        ensures
            r@ == (ResponseView { status: status_code, body: Some(text@) }),
    {
        Response { status_code, body: Some(String::from_str(text)) }
    }

    /// The reply's status.
    pub fn status_code(&self) -> (s: StatusCode)
        ensures
            s == self@.status,
    {
        self.status_code
    }

    /// The reply's body, if it has one.
    pub fn body(&self) -> (b: Option<&str>)
        ensures
            b is Some <==> self@.body is Some,
            b matches Some(s) ==> Some(s@) == self@.body,
    {
        match &self.body {
            Some(s) => Some(s.as_str()),
            None => None,
        }
    }

    /// Appends the reply's wire form to `stream`. The terminator is always
    /// written.
    pub fn send(&self, stream: &mut Vec<u8>)
        ensures
            final(stream)@ == old(stream)@ + self@.wire(),
    {
        let mut line = self.status_code.to_string();
        proof {
            reveal_strlit(" ");
            reveal_strlit(";");
        }
        match &self.body {
            Some(b) => {
                line.append(" ");
                line.append(b.as_str());
            },
            None => {},
        }
        line.append(";");
        assert(line@ =~= self@.line());
        stream.extend_from_slice(line.as_str().as_bytes());
    }
}

} // verus!
