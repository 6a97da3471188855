//! Replies as a client reads them: a status number, and a message that may
//! be empty.

use vstd::prelude::*;
use vstd::string::*;
use vstd::utf8::*;
use crate::server::response::ResponseView;
use crate::text::{
    cut, decimal, lemma_decimal_plain, lemma_first_index, lemma_last_index, lemma_no_index,
    lemma_parse_decimal, or_empty, parse_number, parse_unsigned, rfind, split_once, to_chars,
    utf8_text,
};

verus! {

broadcast use vstd::utf8::group_utf8_lib;

/// A reply as a client sees it.
pub struct ReplyView {
    pub status: nat,
    pub msg: Seq<char>,
}

/// A reply as a client sees it.
pub struct Response {
    status: u16,
    msg: String,
}

impl View for Response {
    type V = ReplyView;

    closed spec fn view(&self) -> ReplyView {
        ReplyView { status: self.status as nat, msg: self.msg@ }
    }
}

/// `s` up to its last `;`, if it has one.
pub open spec fn before_terminator(s: Seq<char>) -> Option<Seq<char>> {
    match s.index_of_last(';') {
        Some(i) => Some(s.take(i)),
        None => None,
    }
}

/// What a buffer reads as. The text is cut at its first space. With a
/// space, the status stands before it and the message is what follows, up
/// to its last `;`; a message without a `;` is empty. Without a space the
/// message is empty and the status is the text up to its last `;`, or the
/// whole text where it has none. The status is an unsigned decimal numeral
/// that fits 16 bits.
pub open spec fn decode_reply(bytes: Seq<u8>) -> Result<ReplyView, Seq<char>> {
    if !valid_utf8(bytes) {
        Err("Invalid response"@)
    } else {
        let text = decode_utf8(bytes);
        let (head, rest) = split_once(text, ' ');
        let numeral = match (rest, before_terminator(head)) {
            (None, Some(h)) => h,
            _ => head,
        };
        let msg = or_empty(
            match rest {
                Some(r) => before_terminator(r),
                None => None,
            },
        );
        match parse_unsigned(numeral, u16::MAX as nat) {
            Some(status) => Ok(ReplyView { status, msg }),
            None => Err("Could not parse status code"@),
        }
    }
}

impl Response {
    /// The status number.
    pub fn status(&self) -> (s: u16)
        ensures
            s == self@.status,
    {
        self.status
    }

    /// The message; empty where the reply had none.
    pub fn msg(&self) -> (m: &str)
        ensures
            m@ == self@.msg,
    {
        self.msg.as_str()
    }

    /// The message, where the reply had one.
    pub fn valid_msg(&self) -> (r: Result<&str, &str>)
        ensures
            match r {
                Ok(m) => self@.msg.len() > 0 && m@ == self@.msg,
                Err(e) => self@.msg.len() == 0 && e@ == "No message"@,
            },
    {
        if self.msg.as_str().unicode_len() > 0 {
            Ok(self.msg.as_str())
        } else {
            Err("No message")
        }
    }

    /// Reads a reply from what a connection gave back. An error is the
    /// message that reports it.
    pub fn try_from(buf: &[u8]) -> (r: Result<Response, String>)
        ensures
            match decode_reply(buf@) {
                Ok(v) => r is Ok && r->Ok_0@ == v,
                Err(e) => r is Err && r->Err_0@ == e,
            },
    {
        let text = match utf8_text(buf) {
            Some(t) => t,
            None => {
                return Err(String::from_str("Invalid response"));
            },
        };
        assert(text@ == decode_utf8(buf@));
        let chars = to_chars(text);
        let n = chars.len();
        assert(chars@.subrange(0, n as int) =~= text@);
        let (space, rest) = cut(&chars, ' ', 0, n);
        let (head_end, msg) = if space < rest {
            let tail = to_chars(text.substring_char(rest, n));
            match rfind(&tail, ';') {
                Some(i) => (space, String::from_str(text.substring_char(rest, rest + i))),
                None => (space, String::new()),
            }
        } else {
            match rfind(&chars, ';') {
                Some(i) => (i, String::new()),
                None => (n, String::new()),
            }
        };
        assert(chars@.subrange(0, head_end as int) =~= text@.take(head_end as int));
        assert(text@.take(n as int) =~= text@);
        assert(msg@ =~= or_empty(
            match split_once(text@, ' ').1 {
                Some(r) => before_terminator(r),
                None => None,
            },
        ));
        match parse_number(&chars, 0, head_end, 65535) {
            Some(status) => Ok(Response { status: status as u16, msg }),
            None => Err(String::from_str("Could not parse status code")),
        }
    }
}

/// What a server encodes, a client reads back: the status's number, and the
/// body as the message, empty where the reply has no body.
pub proof fn lemma_client_reads_server(v: ResponseView)
    ensures
        decode_reply(v.wire()) == Ok::<ReplyView, Seq<char>>(
            ReplyView {
                status: v.status.spec_code() as nat,
                msg: match v.body {
                    Some(b) => b,
                    None => Seq::<char>::empty(),
                },
            },
        ),
{
    let code = v.status.spec_code() as nat;
    let numeral = decimal(code);
    let text = v.line();
    assert(decode_utf8(v.wire()) == text);
    lemma_decimal_plain(code);
    lemma_parse_decimal(code, u16::MAX as nat);
    match v.body {
        Some(b) => {
            let rest = b + seq![';'];
            assert(text =~= numeral + seq![' '] + rest);
            assert forall|j: int| 0 <= j < numeral.len() implies text[j] != ' ' by {
                assert(numeral.contains(text[j]));
            }
            lemma_first_index(text, ' ', numeral.len() as int);
            assert(text.take(numeral.len() as int) =~= numeral);
            assert(text.skip(numeral.len() as int + 1) =~= rest);
            lemma_last_index(rest, ';', rest.len() - 1);
            assert(rest.take(rest.len() - 1) =~= b);
        },
        None => {
            assert(text =~= numeral + seq![';']);
            assert forall|j: int| 0 <= j < text.len() implies text[j] != ' ' by {
                if j < numeral.len() {
                    assert(numeral.contains(text[j]));
                }
            }
            lemma_no_index(text, ' ');
            assert forall|j: int| 0 <= j < numeral.len() implies text[j] != ';' by {
                assert(numeral.contains(text[j]));
            }
            lemma_last_index(text, ';', text.len() - 1);
            assert(text.take(text.len() - 1) =~= numeral);
        },
    }
}

} // verus!
