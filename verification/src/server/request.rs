//! Requests and their wire form: a UTF-8 line ended by `;`, split on its
//! first two spaces into a path and up to two arguments.

use vstd::prelude::*;
use vstd::string::*;
use vstd::utf8::*;
use crate::text::{cut, or_empty, rfind, split_once, to_chars, utf8_text};

verus! {

broadcast use vstd::utf8::group_utf8_lib;

/// A request as a mathematical value.
pub struct RequestView {
    pub path: Seq<char>,
    pub arg1: Option<Seq<char>>,
    pub arg2: Option<Seq<char>>,
}

/// An inbound command: a path and up to two arguments.
#[derive(Debug)]
pub struct Request {
    path: String,
    arg1: Option<String>,
    arg2: Option<String>,
}

/// Why a buffer could not be read as a request.
#[derive(Copy, Clone, Debug, PartialEq, Eq, Structural)]
pub enum DecodeError {
    /// The buffer is not valid UTF-8.
    InvalidUtf8,
    /// The buffer holds no `;`.
    Unterminated,
}

/// The view of an optional text.
pub open spec fn view_opt(o: Option<String>) -> Option<Seq<char>> {
    match o {
        Some(s) => Some(s@),
        None => None,
    }
}

/// The fields of a line whose terminator has been stripped. The line is cut
/// at its first and second space; what follows the second space, further
/// spaces included, is the second argument. An empty argument with nothing
/// non-empty after it is absent.
pub open spec fn fields(line: Seq<char>) -> RequestView {
    let (path, rest) = split_once(line, ' ');
    let (first, tail) = split_once(or_empty(rest), ' ');
    let second = or_empty(tail);
    if second.len() > 0 {
        RequestView { path, arg1: Some(first), arg2: Some(second) }
    } else if first.len() > 0 {
        RequestView { path, arg1: Some(first), arg2: None }
    } else {
        RequestView { path, arg1: None, arg2: None }
    }
}

/// What a buffer decodes to: the fields of the text before its last `;`.
pub open spec fn decode(bytes: Seq<u8>) -> Result<RequestView, DecodeError> {
    if !valid_utf8(bytes) {
        Err(DecodeError::InvalidUtf8)
    } else {
        let text = decode_utf8(bytes);
        match text.index_of_last(';') {
            Some(i) => Ok(fields(text.take(i))),
            None => Err(DecodeError::Unterminated),
        }
    }
}

impl RequestView {
    /// Whether decoding can produce this request: no space in the path or
    /// the first argument, no empty last argument, no second argument
    /// without a first.
    pub open spec fn canonical(self) -> bool {
        &&& !self.path.contains(' ')
        &&& match self.arg1 {
            Some(a) => !a.contains(' ') && (a.len() > 0 || self.arg2 is Some),
            None => self.arg2 is None,
        }
        &&& match self.arg2 {
            Some(b) => b.len() > 0,
            None => true,
        }
    }

    /// The request as a line of text, terminator included.
    pub open spec fn line(self) -> Seq<char> {
        let args = match (self.arg1, self.arg2) {
            (None, None) => Seq::<char>::empty(),
            (Some(a), None) => seq![' '] + a,
            (Some(a), Some(b)) => seq![' '] + a + seq![' '] + b,
            (None, Some(b)) => seq![' ', ' '] + b,
        };
        self.path + args + seq![';']
    }

    /// The request as bytes on the wire.
    pub open spec fn wire(self) -> Seq<u8> {
        encode_utf8(self.line())
    }

    /// The request described for a log: its path, then each argument that
    /// is present, under its name.
    pub open spec fn description(self) -> Seq<char> {
        "path: "@ + self.path + match self.arg1 {
            Some(a) => ", arg1: "@ + a,
            None => Seq::<char>::empty(),
        } + match self.arg2 {
            Some(b) => ", arg2: "@ + b,
            None => Seq::<char>::empty(),
        }
    }
}

impl View for Request {
    type V = RequestView;

    closed spec fn view(&self) -> RequestView {
        RequestView { path: self.path@, arg1: view_opt(self.arg1), arg2: view_opt(self.arg2) }
    }
}

impl DecodeError {
    /// The text that reports this error to a client.
    pub open spec fn spec_message(self) -> Seq<char> {
        match self {
            DecodeError::InvalidUtf8 => "Invalid request"@,
            DecodeError::Unterminated => "Request not terminated by ';' char"@,
        }
    }

    /// The text that reports this error to a client.
    pub fn message(&self) -> (m: String)
        ensures
            m@ == self.spec_message(),
    {
        match self {
            DecodeError::InvalidUtf8 => String::from_str("Invalid request"),
            DecodeError::Unterminated => String::from_str("Request not terminated by ';' char"),
        }
    }
}

/// Reads the fields of the line that ends before `end`.
fn parse_request(text: &str, chars: &Vec<char>, end: usize) -> (r: Request)
    requires
        chars@ == text@,
        end <= chars.len(),
    ensures
        r@ == fields(text@.take(end as int)),
{
    let (path_end, rest) = cut(chars, ' ', 0, end);
    let (first_end, tail) = cut(chars, ' ', rest, end);
    assert(text@.take(end as int) =~= chars@.subrange(0, end as int));
    let path = String::from_str(text.substring_char(0, path_end));
    let first = text.substring_char(rest, first_end);
    let second = text.substring_char(tail, end);
    if second.unicode_len() > 0 {
        Request { path, arg1: Some(String::from_str(first)), arg2: Some(String::from_str(second)) }
    } else if first.unicode_len() > 0 {
        Request { path, arg1: Some(String::from_str(first)), arg2: None }
    } else {
        Request { path, arg1: None, arg2: None }
    }
}

impl Request {
    /// A request with the given fields.
    pub fn new(path: &str, arg1: Option<&str>, arg2: Option<&str>) -> (r: Request)
        ensures
            r@.path == path@,
            r@.arg1 == match arg1 {
                Some(a) => Some(a@),
                None => None,
            },
            r@.arg2 == match arg2 {
                Some(b) => Some(b@),
                None => None,
            },
    {
        Request {
            path: String::from_str(path),
            arg1: match arg1 {
                Some(a) => Some(String::from_str(a)),
                None => None,
            },
            arg2: match arg2 {
                Some(b) => Some(String::from_str(b)),
                None => None,
            },
        }
    }

    /// Decodes one request from a buffer. What follows the last `;` is
    /// ignored. An error is the message that reports it.
    pub fn try_from(buf: &[u8]) -> (r: Result<Request, String>)
        ensures
            match decode(buf@) {
                Ok(v) => r is Ok && r->Ok_0@ == v,
                Err(e) => r is Err && r->Err_0@ == e.spec_message(),
            },
    {
        let text = match utf8_text(buf) {
            Some(t) => t,
            None => {
                return Err(DecodeError::InvalidUtf8.message());
            },
        };
        assert(text@ == decode_utf8(buf@));
        let chars = to_chars(text);
        match rfind(&chars, ';') {
            Some(end) => Ok(parse_request(text, &chars, end)),
            None => Err(DecodeError::Unterminated.message()),
        }
    }

    /// Appends the request's wire form to `out`.
    pub fn send(&self, out: &mut Vec<u8>)
        ensures
            final(out)@ == old(out)@ + self@.wire(),
    {
        let mut line = String::from_str(self.path.as_str());
        proof {
            reveal_strlit(" ");
            reveal_strlit("  ");
            reveal_strlit(";");
        }
        match (&self.arg1, &self.arg2) {
            (None, None) => {},
            (Some(a), None) => {
                line.append(" ");
                line.append(a.as_str());
            },
            (Some(a), Some(b)) => {
                line.append(" ");
                line.append(a.as_str());
                line.append(" ");
                line.append(b.as_str());
            },
            (None, Some(b)) => {
                line.append("  ");
                line.append(b.as_str());
            },
        }
        line.append(";");
        assert(line@ =~= self@.line());
        out.extend_from_slice(line.as_str().as_bytes());
    }

    /// A one-line description of the request, for logs.
    pub fn display(&self) -> (d: String)
        ensures
            d@ == self@.description(),
    {
        let mut d = String::from_str("path: ");
        d.append(self.path.as_str());
        match &self.arg1 {
            Some(a) => {
                d.append(", arg1: ");
                d.append(a.as_str());
            },
            None => {},
        }
        match &self.arg2 {
            Some(b) => {
                d.append(", arg2: ");
                d.append(b.as_str());
            },
            None => {},
        }
        assert(d@ =~= self@.description());
        d
    }

    /// The command path.
    pub fn path(&self) -> (p: &str)
        ensures
            p@ == self@.path,
    {
        self.path.as_str()
    }

    /// The first argument, if present.
    pub fn arg1(&self) -> (a: Option<&str>)
        ensures
            a is Some <==> self@.arg1 is Some,
            a matches Some(s) ==> Some(s@) == self@.arg1,
    {
        match &self.arg1 {
            Some(s) => Some(s.as_str()),
            None => None,
        }
    }

    /// The second argument, if present.
    pub fn arg2(&self) -> (a: Option<&str>)
        ensures
            a is Some <==> self@.arg2 is Some,
            a matches Some(s) ==> Some(s@) == self@.arg2,
    {
        match &self.arg2 {
            Some(s) => Some(s.as_str()),
            None => None,
        }
    }
}

/// In a text made of a space-free head, a space and a tail, the first space
/// is the one between them.
proof fn lemma_split_joined(head: Seq<char>, tail: Seq<char>)
    requires
        !head.contains(' '),
    ensures
        split_once(head + seq![' '] + tail, ' ') == (head, Some(tail)),
{
    let s = head + seq![' '] + tail;
    let i = head.len() as int;
    assert forall|j: int| 0 <= j < i implies s[j] != ' ' by {
        assert(head.contains(s[j]));
    }
    crate::text::lemma_first_index(s, ' ', i);
    assert(s.take(i) =~= head);
    assert(s.skip(i + 1) =~= tail);
}

/// A text without a space is not cut.
proof fn lemma_split_whole(s: Seq<char>)
    requires
        !s.contains(' '),
    ensures
        split_once(s, ' ') == (s, None::<Seq<char>>),
{
    s.index_of_first_ensures(' ');
}

/// Decoding the wire form of a canonical request gives that request.
pub proof fn lemma_decode_wire(v: RequestView)
    requires
        v.canonical(),
    ensures
        decode(v.wire()) == Ok::<RequestView, DecodeError>(v),
{
    let line = v.line();
    let body = line.drop_last();
    assert(decode_utf8(v.wire()) == line);
    crate::text::lemma_last_index(line, ';', line.len() - 1);
    assert(line.take(line.len() - 1) =~= body);
    match (v.arg1, v.arg2) {
        (None, None) => {
            assert(body =~= v.path);
            lemma_split_whole(v.path);
            lemma_split_whole(Seq::<char>::empty());
        },
        (Some(a), None) => {
            assert(body =~= v.path + seq![' '] + a);
            lemma_split_joined(v.path, a);
            lemma_split_whole(a);
        },
        (Some(a), Some(b)) => {
            assert(body =~= v.path + seq![' '] + (a + seq![' '] + b));
            lemma_split_joined(v.path, a + seq![' '] + b);
            lemma_split_joined(a, b);
        },
        (None, Some(b)) => {},
    }
}

/// Whatever decodes is canonical.
pub proof fn lemma_decode_canonical(bytes: Seq<u8>)
    ensures
        decode(bytes) matches Ok(v) ==> v.canonical(),
{
    if decode(bytes) is Ok {
        let text = decode_utf8(bytes);
        text.index_of_last_ensures(';');
        let line = text.take(text.index_of_last(';')->Some_0);
        line.index_of_first_ensures(' ');
        lemma_split_whole(Seq::<char>::empty());
        if let Some(i) = line.index_of_first(' ') {
            let rest = line.skip(i + 1);
            rest.index_of_first_ensures(' ');
            assert forall|c: char| line.take(i).contains(c) implies c != ' ' by {
                let j = choose|j: int| 0 <= j < i && line.take(i)[j] == c;
                assert(line[j] == c);
            }
            if let Some(k) = rest.index_of_first(' ') {
                assert forall|c: char| rest.take(k).contains(c) implies c != ' ' by {
                    let j = choose|j: int| 0 <= j < k && rest.take(k)[j] == c;
                    assert(rest[j] == c);
                }
            }
        }
    }
}

/// Round trip: a buffer that decodes, encoded again from what it decoded
/// to, decodes to the same path and arguments.
pub proof fn lemma_round_trip(bytes: Seq<u8>)
    requires
        decode(bytes) is Ok,
    ensures
        decode(decode(bytes)->Ok_0.wire()) == decode(bytes),
{
    lemma_decode_canonical(bytes);
    lemma_decode_wire(decode(bytes)->Ok_0);
}

} // verus!
