//! One handler per command. Each inspects or moves the session store and
//! answers with exactly one status.

use vstd::prelude::*;
use vstd::string::*;
use crate::server::request::{Request, RequestView};
use crate::server::response::{Response, ResponseView};
use crate::server::session::{CounterState, Session, SessionView};
use crate::server::status_code::{ErrorKind, StatusCode};
use crate::text::{decimal, decimal_string, parse_number, parse_unsigned, split, split_all, to_chars, views};

verus! {

/// A reply with a status and a text.
pub open spec fn text_reply(status: StatusCode, text: Seq<char>) -> ResponseView {
    ResponseView { status, body: Some(text) }
}

/// The reply to a health check.
pub open spec fn health_reply() -> ResponseView {
    text_reply(StatusCode::Okay, "I'm alive"@)
}

/// The reply to an unknown path.
pub open spec fn not_found_reply() -> ResponseView {
    text_reply(ErrorKind::NotFound.spec_status(), "Path not found"@)
}

/// The reply when the store could not be acquired for the probe of `start`.
pub open spec fn unavailable_reply() -> ResponseView {
    text_reply(
        ErrorKind::LockAcquisitionFailure.spec_status(),
        "Failed to read counter state."@,
    )
}

/// The duration that a `start` request asks for, where the request is
/// valid: both arguments present, the first a decimal numeral of a positive
/// number of seconds.
pub open spec fn start_seconds(r: RequestView) -> Option<nat> {
    if r.arg1 is Some && r.arg2 is Some {
        match parse_unsigned(r.arg1->Some_0, u32::MAX as nat) {
            Some(d) => if d > 0 {
                Some(d)
            } else {
                None
            },
            None => None,
        }
    } else {
        None
    }
}

/// The reply that turns a `start` request down for what it holds,
/// whatever the store: an argument is missing, or the duration is no
/// positive number of seconds. A valid request is not turned down here.
pub open spec fn start_refusal(r: RequestView) -> Option<ResponseView> {
    if r.arg1 is None || r.arg2 is None {
        Some(text_reply(ErrorKind::ValidationError.spec_status(), "Missing args."@))
    } else if start_seconds(r) is None {
        Some(text_reply(ErrorKind::ValidationError.spec_status(), "Invalid time format."@))
    } else {
        None
    }
}

/// The reply to `start`: a request that is not valid is a bad request,
/// whatever the state; a valid one is a conflict unless the store is
/// pristine, and then it is created.
pub open spec fn start_reply(s: SessionView, r: RequestView) -> ResponseView {
    match start_refusal(r) {
        Some(refusal) => refusal,
        None => if s.state is Pristine {
            text_reply(StatusCode::Created, "Pomodoro started."@)
        } else {
            text_reply(ErrorKind::StateConflict.spec_status(), "Pomodoro already running."@)
        },
    }
}

/// The store after `start`: a valid request starts a session on a pristine
/// store; anything else leaves the store as it is.
pub open spec fn start_next(s: SessionView, r: RequestView) -> SessionView {
    match start_seconds(r) {
        Some(d) => s.start(d, r.arg2->Some_0),
        None => s,
    }
}

/// The reply to `remaining`: the seconds left, flagged when paused.
pub open spec fn remaining_reply(s: SessionView) -> ResponseView {
    text_reply(
        if s.state is Paused {
            StatusCode::NotModified
        } else {
            StatusCode::Okay
        },
        decimal(s.remaining),
    )
}

/// The reply to `halt-counter`.
pub open spec fn halt_reply(s: SessionView) -> ResponseView {
    match s.state {
        CounterState::Halting => text_reply(
            ErrorKind::StateConflict.spec_status(),
            "Pomodoro counter already halting..."@,
        ),
        CounterState::Pristine => text_reply(
            ErrorKind::StateConflict.spec_status(),
            "Nothing to halt."@,
        ),
        _ => text_reply(StatusCode::Okay, "Pomodoro counter halting..."@),
    }
}

/// The reply to `pause-resume-counter`.
pub open spec fn pause_resume_reply(s: SessionView) -> ResponseView {
    match s.state {
        CounterState::Running => text_reply(StatusCode::Okay, "Pomodoro counter paused."@),
        CounterState::Paused => text_reply(StatusCode::Okay, "Pomodoro counter resumed."@),
        _ => text_reply(ErrorKind::StateConflict.spec_status(), "nothing to pause/resume."@),
    }
}

/// The reply to `is-counter-running`: false on a pristine store, true
/// otherwise.
pub open spec fn is_running_reply(s: SessionView) -> ResponseView {
    if s.state is Pristine {
        text_reply(StatusCode::Continue, "false"@)
    } else {
        text_reply(StatusCode::Processing, "true"@)
    }
}

/// Answers a health check. The store is not touched.
pub fn health_check() -> (response: Response)
    ensures
        response@ == health_reply(),
{
    Response::with_text(StatusCode::Okay, "I'm alive")
}

/// Answers a request for an unknown path.
pub fn not_found() -> (response: Response)
    ensures
        response@ == not_found_reply(),
{
    Response::with_text(ErrorKind::NotFound.status(), "Path not found")
}

/// Answers a `start` whose probe found the store held by someone else.
pub fn store_unavailable() -> (response: Response)
    ensures
        response@ == unavailable_reply(),
{
    Response::with_text(
        ErrorKind::LockAcquisitionFailure.status(),
        "Failed to read counter state.",
    )
}

/// Checks what a `start` request holds, without looking at the store:
/// gives the seconds and the callback of a valid request, or the reply that
/// turns the request down.
pub fn validate_start(request: &Request) -> (r: Result<(u32, &str), Response>)
    ensures
        match r {
            Ok((seconds, callback)) => start_seconds(request@) == Some(seconds as nat)
                && request@.arg2 == Some(callback@),
            Err(refusal) => start_refusal(request@) == Some(refusal@),
        },
{
    let (arg1, arg2) = match (request.arg1(), request.arg2()) {
        (Some(a), Some(b)) => (a, b),
        _ => {
            return Err(Response::with_text(ErrorKind::ValidationError.status(), "Missing args."));
        },
    };
    let digits = to_chars(arg1);
    assert(digits@.subrange(0, digits@.len() as int) =~= arg1@);
    match parse_number(&digits, 0, digits.len(), u32::MAX) {
        Some(seconds) if seconds > 0 => Ok((seconds, arg2)),
        _ => Err(
            Response::with_text(ErrorKind::ValidationError.status(), "Invalid time format."),
        ),
    }
}

/// Handles `start <seconds> <callback>`. The check of the state and the
/// commit of the new session happen on the one store handed in, so a second
/// start can only find the session of the first.
pub fn start_pomodoro(session: &mut Session, request: &Request) -> (response: Response)
    ensures
        response@ == start_reply(old(session)@, request@),
        final(session)@ == start_next(old(session)@, request@),
{
    let (seconds, callback) = match validate_start(request) {
        Ok(order) => order,
        Err(refusal) => {
            return refusal;
        },
    };
    if session.start(seconds, callback) {
        Response::with_text(StatusCode::Created, "Pomodoro started.")
    } else {
        Response::with_text(ErrorKind::StateConflict.status(), "Pomodoro already running.")
    }
}

/// The command and the arguments of a callback: its pieces between single
/// spaces, the first being the command.
pub fn parse_callback_with_args(callback_with_args: &str) -> (r: (String, Vec<String>))
    ensures
        r.0@ == split_all(callback_with_args@, ' ')[0],
        views(r.1@) == split_all(callback_with_args@, ' ').skip(1),
{
    let mut pieces = split(callback_with_args, ' ');
    let ghost all = views(pieces@);
    let callback = pieces.remove(0);
    assert(views(pieces@) =~= all.skip(1));
    (callback, pieces)
}

/// Handles `remaining`.
pub fn remaining_pomodoro(session: &Session) -> (response: Response)
    ensures
        response@ == remaining_reply(session@),
{
    let (state, remaining) = session.read();
    let status_code = match state {
        CounterState::Paused => StatusCode::NotModified,
        _ => StatusCode::Okay,
    };
    Response::new(status_code, Some(decimal_string(remaining)))
}

/// Handles `halt-counter`. The halt is only asked for here: the timer
/// zeroes the time and resets the state at its next tick.
pub fn halt_counter(session: &mut Session) -> (response: Response)
    ensures
        response@ == halt_reply(old(session)@),
        final(session)@ == old(session)@.halt(),
{
    let state = session.state();
    if session.halt() {
        Response::with_text(StatusCode::Okay, "Pomodoro counter halting...")
    } else {
        match state {
            CounterState::Halting => Response::with_text(
                ErrorKind::StateConflict.status(),
                "Pomodoro counter already halting...",
            ),
            _ => Response::with_text(ErrorKind::StateConflict.status(), "Nothing to halt."),
        }
    }
}

/// Handles `pause-resume-counter`.
pub fn pause_resume_counter(session: &mut Session) -> (response: Response)
    ensures
        response@ == pause_resume_reply(old(session)@),
        final(session)@ == old(session)@.toggle(),
{
    let state = session.state();
    if session.toggle() {
        match state {
            CounterState::Running => Response::with_text(
                StatusCode::Okay,
                "Pomodoro counter paused.",
            ),
            _ => Response::with_text(StatusCode::Okay, "Pomodoro counter resumed."),
        }
    } else {
        Response::with_text(ErrorKind::StateConflict.status(), "nothing to pause/resume.")
    }
}

/// Handles `is-counter-running`.
pub fn is_counter_running(session: &Session) -> (response: Response)
    ensures
        response@ == is_running_reply(session@),
{
    match session.state() {
        CounterState::Pristine => Response::with_text(StatusCode::Continue, "false"),
        _ => Response::with_text(StatusCode::Processing, "true"),
    }
}

} // verus!
