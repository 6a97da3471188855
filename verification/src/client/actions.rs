//! What each client command sends, and what it prints for the reply that
//! came back.

use vstd::prelude::*;
use vstd::string::*;
use crate::client::response::{ReplyView, Response};
use crate::client::ClientError;
use crate::server::request::{Request, RequestView};
use crate::server::router::Route;
use crate::text::{decimal, decimal_string, parse_number, parse_unsigned, to_chars};
use crate::time::{read_time, Time};

verus! {

/// What a command prints, and how it ends: a failure goes to standard
/// error and ends the process with status 1, anything else goes to
/// standard output and ends it with status 0.
pub struct Report {
    pub text: String,
    pub failed: bool,
}

/// A report as a mathematical value.
pub struct ReportView {
    pub text: Seq<char>,
    pub failed: bool,
}

impl View for Report {
    type V = ReportView;

    open spec fn view(&self) -> ReportView {
        ReportView { text: self.text@, failed: self.failed }
    }
}

/// A report of success.
pub open spec fn printed(text: Seq<char>) -> ReportView {
    ReportView { text, failed: false }
}

/// A report of failure.
pub open spec fn failure(text: Seq<char>) -> ReportView {
    ReportView { text, failed: true }
}

fn stdout(text: &str) -> (r: Report)
    ensures
        r@ == printed(text@),
{
    Report { text: String::from_str(text), failed: false }
}

fn stderr(text: &str) -> (r: Report)
    ensures
        r@ == failure(text@),
{
    Report { text: String::from_str(text), failed: true }
}

/// The address that client and server agree on.
pub fn ip() -> (a: &'static str)
    ensures
        a@ == "127.0.0.1:51789"@,
{
    "127.0.0.1:51789"
}

/// The request of a command that takes no argument.
pub fn request(route: Route) -> (r: Request)
    ensures
        r@ == (RequestView { path: route.spec_path(), arg1: None, arg2: None }),
{
    Request::new(route.path(), None, None)
}

/// The report of a command that got no reply.
pub open spec fn no_reply_report(e: ClientError) -> ReportView {
    match e {
        ClientError::ServerNotStarted => failure("Pdoro server has not been started."@),
        _ => failure("Error: "@ + e.spec_name()),
    }
}

/// Reports that a command got no reply.
pub fn no_reply(e: &ClientError) -> (r: Report)
    ensures
        r@ == no_reply_report(*e),
{
    match e {
        ClientError::ServerNotStarted => stderr("Pdoro server has not been started."),
        _ => {
            let text = String::from_str("Error: ").concat(e.name());
            Report { text, failed: true }
        },
    }
}

/// A reply's message as a report: a success exactly when the reply has the
/// status that the command hopes for.
pub open spec fn echo(v: ReplyView, hoped: nat) -> ReportView {
    ReportView { text: v.msg, failed: v.status != hoped }
}

fn echo_reply(res: &Response, hoped: u16) -> (r: Report)
    ensures
        r@ == echo(res@, hoped as nat),
{
    Report { text: String::from_str(res.msg()), failed: res.status() != hoped }
}

/// The report of the remaining time. The message has to be there and to be
/// a numeral of seconds; no seconds means that no timer runs; a paused
/// session's clock is marked.
pub open spec fn remaining_report(v: ReplyView) -> ReportView {
    if v.msg.len() == 0 {
        failure("Failed to retrieve remaining time."@)
    } else {
        match parse_unsigned(v.msg, u32::MAX as nat) {
            None => failure("Failed to parse remaining time."@),
            Some(seconds) => if seconds == 0 {
                printed("No pomodoro timer is running."@)
            } else if v.status == 304 {
                printed(Time::clock(seconds) + " (paused)"@)
            } else {
                printed(Time::clock(seconds))
            },
        }
    }
}

/// Reports the remaining time.
pub fn remaining(res: &Response) -> (r: Report)
    ensures
        r@ == remaining_report(res@),
{
    let digits = match res.valid_msg() {
        Ok(m) => m,
        Err(_) => {
            return stderr("Failed to retrieve remaining time.");
        },
    };
    let chars = to_chars(digits);
    assert(chars@.subrange(0, chars@.len() as int) =~= digits@);
    let seconds = match parse_number(&chars, 0, chars.len(), u32::MAX) {
        Some(s) => s,
        None => {
            return stderr("Failed to parse remaining time.");
        },
    };
    if seconds == 0 {
        return stdout("No pomodoro timer is running.");
    }
    let clock = Time::get_clock_from_seconds(&seconds);
    if res.status() == 304 {
        Report { text: clock.concat(" (paused)"), failed: false }
    } else {
        Report { text: clock, failed: false }
    }
}

/// The report of whether a counter runs: the reply's message, a success
/// where the status is one of the two booleans.
pub open spec fn is_counter_running_report(v: ReplyView) -> ReportView {
    ReportView { text: v.msg, failed: v.status != 100 && v.status != 102 }
}

/// Reports whether a counter runs.
pub fn is_counter_running(res: &Response) -> (r: Report)
    ensures
        r@ == is_counter_running_report(res@),
{
    let status = res.status();
    Report { text: String::from_str(res.msg()), failed: status != 100 && status != 102 }
}

/// Reports whether a text is a duration of a valid length.
pub fn is_valid_time(input: &str) -> (r: Report)
    ensures
        r@ == printed(
            if read_time(input@) is Ok {
                "true"@
            } else {
                "false"@
            },
        ),
{
    match Time::new(input) {
        Ok(_) => stdout("true"),
        Err(_) => stdout("false"),
    }
}

/// Reports a start: a success where the session was created.
pub fn start(res: &Response) -> (r: Report)
    ensures
        r@ == echo(res@, 201),
{
    echo_reply(res, 201)
}

/// Reports a pause or resume.
pub fn pause_resume_counter(res: &Response) -> (r: Report)
    ensures
        r@ == echo(res@, 200),
{
    echo_reply(res, 200)
}

/// Reports a halt.
pub fn halt_counter(res: &Response) -> (r: Report)
    ensures
        r@ == echo(res@, 200),
{
    echo_reply(res, 200)
}

/// Whether a server may be started, from what a health check gave: a
/// reply means that one runs already, and only the lack of a listener
/// clears the way.
pub open spec fn start_server_report(probe: Result<ReplyView, ClientError>) -> Option<ReportView> {
    match probe {
        Ok(_) => Some(failure("Pomodoro server already running."@)),
        Err(ClientError::ServerNotStarted) => None,
        Err(e) => Some(failure("Error: "@ + e.spec_name())),
    }
}

/// Decides whether a server may be started; a report says why not.
pub fn start_server(probe: &Result<Response, ClientError>) -> (r: Option<Report>)
    ensures
        match start_server_report(
            match *probe {
                Ok(res) => Ok(res@),
                Err(e) => Err(e),
            },
        ) {
            Some(v) => r is Some && r->Some_0@ == v,
            None => r is None,
        },
{
    match probe {
        Ok(_) => Some(stderr("Pomodoro server already running.")),
        Err(ClientError::ServerNotStarted) => None,
        Err(e) => Some(no_reply(e)),
    }
}

/// The start request for a duration and a callback: the duration goes out
/// in seconds.
pub open spec fn start_request(time_arg: Seq<char>, callback_with_args: Seq<char>) -> Result<
    RequestView,
    ReportView,
> {
    match read_time(time_arg) {
        Ok(t) => Ok(
            RequestView {
                path: Route::Start.spec_path(),
                arg1: Some(decimal(t.total_seconds())),
                arg2: Some(callback_with_args),
            },
        ),
        Err(_) => Err(failure("Invalid time format."@)),
    }
}

/// Builds the start request, or reports a bad duration.
pub fn get_start_request(time_arg: &str, callback_with_args: &str) -> (r: Result<Request, Report>)
    ensures
        match start_request(time_arg@, callback_with_args@) {
            Ok(v) => r is Ok && r->Ok_0@ == v,
            Err(v) => r is Err && r->Err_0@ == v,
        },
{
    let time = match Time::new(time_arg) {
        Ok(t) => t,
        Err(_) => {
            return Err(stderr("Invalid time format."));
        },
    };
    proof {
        crate::time::lemma_valid_len_seconds(time);
    }
    let seconds = decimal_string(time.get_seconds());
    Ok(Request::new(Route::Start.path(), Some(seconds.as_str()), Some(callback_with_args)))
}

/// The server reads the client's start request as the client meant it:
/// with a callback that is not empty, the request decodes to itself and
/// asks for the duration's seconds.
pub proof fn lemma_start_request_served(time_arg: Seq<char>, callback_with_args: Seq<char>)
    requires
        start_request(time_arg, callback_with_args) is Ok,
        callback_with_args.len() > 0,
    ensures
        crate::server::request::decode(
            start_request(time_arg, callback_with_args)->Ok_0.wire(),
        ) == Ok::<RequestView, crate::server::request::DecodeError>(
            start_request(time_arg, callback_with_args)->Ok_0,
        ),
        crate::server::router::route_of(start_request(time_arg, callback_with_args)->Ok_0.path)
            == Route::Start,
        crate::server::controllers::start_seconds(
            start_request(time_arg, callback_with_args)->Ok_0,
        ) == Some(read_time(time_arg)->Ok_0.total_seconds()),
{
    let t = read_time(time_arg)->Ok_0;
    crate::time::lemma_valid_len_seconds(t);
    crate::server::router::lemma_route_of_path(Route::Start);
    crate::text::lemma_decimal_plain(t.total_seconds());
    crate::text::lemma_decimal_digits(t.total_seconds());
    crate::text::lemma_parse_decimal(t.total_seconds(), u32::MAX as nat);
    crate::server::request::lemma_decode_wire(start_request(time_arg, callback_with_args)->Ok_0);
}

} // verus!
