//! Dispatch of a request to its handler by path, and what each command
//! needs of the session store.

use vstd::prelude::*;
use vstd::string::*;
use crate::server::controllers::{
    halt_counter, halt_reply, health_check, health_reply, is_counter_running, is_running_reply,
    not_found, not_found_reply, pause_resume_counter, pause_resume_reply, remaining_pomodoro,
    remaining_reply, start_next, start_pomodoro, start_reply, start_seconds, validate_start,
};
use crate::server::request::{Request, RequestView};
use crate::server::response::{Response, ResponseView};
use crate::server::session::{Session, SessionView};
use crate::text::text_eq;

verus! {

/// The commands of the protocol.
#[derive(Copy, Clone, Debug, PartialEq, Eq, Structural)]
pub enum Route {
    HealthCheck,
    Start,
    HaltCounter,
    Remaining,
    IsCounterRunning,
    PauseResumeCounter,
    NotFound,
}

/// How a command has to hold the session store while it is handled.
#[derive(Copy, Clone, Debug, PartialEq, Eq, Structural)]
pub enum Access {
    /// The store is not looked at.
    Free,
    /// The store is read and left as it is; readers do not exclude each
    /// other.
    Shared,
    /// The store may change; the holder excludes everyone else and waits
    /// for its turn.
    Exclusive,
    /// The store may change, and the holder does not wait: if the store
    /// cannot be had at once, the command fails.
    Probe,
}

/// The command that a path names.
pub open spec fn route_of(path: Seq<char>) -> Route {
    if path == "healthcheck"@ {
        Route::HealthCheck
    } else if path == "start"@ {
        Route::Start
    } else if path == "halt-counter"@ {
        Route::HaltCounter
    } else if path == "remaining"@ {
        Route::Remaining
    } else if path == "is-counter-running"@ {
        Route::IsCounterRunning
    } else if path == "pause-resume-counter"@ {
        Route::PauseResumeCounter
    } else {
        Route::NotFound
    }
}

impl Route {
    /// The path that names this command; an unknown path has no name.
    pub open spec fn spec_path(self) -> Seq<char> {
        match self {
            Route::HealthCheck => "healthcheck"@,
            Route::Start => "start"@,
            Route::HaltCounter => "halt-counter"@,
            Route::Remaining => "remaining"@,
            Route::IsCounterRunning => "is-counter-running"@,
            Route::PauseResumeCounter => "pause-resume-counter"@,
            Route::NotFound => Seq::<char>::empty(),
        }
    }

    /// The path that names this command; an unknown path has no name.
    pub fn path(self) -> (p: &'static str)
        ensures
            p@ == self.spec_path(),
    {
        proof {
            reveal_strlit("");
        }
        let p = match self {
            Route::HealthCheck => "healthcheck",
            Route::Start => "start",
            Route::HaltCounter => "halt-counter",
            Route::Remaining => "remaining",
            Route::IsCounterRunning => "is-counter-running",
            Route::PauseResumeCounter => "pause-resume-counter",
            Route::NotFound => "",
        };
        assert(p@ =~= self.spec_path());
        p
    }
}

/// How a request has to hold the store while it is handled. A start probes
/// the store only where the request is valid: one that is turned down for
/// what it holds never reaches the store.
pub open spec fn access_of(r: RequestView) -> Access {
    match route_of(r.path) {
        Route::HealthCheck | Route::NotFound => Access::Free,
        Route::Remaining | Route::IsCounterRunning => Access::Shared,
        Route::HaltCounter | Route::PauseResumeCounter => Access::Exclusive,
        Route::Start => if start_seconds(r) is Some {
            Access::Probe
        } else {
            Access::Free
        },
    }
}

/// The reply to a request on a store.
pub open spec fn reply(s: SessionView, r: RequestView) -> ResponseView {
    match route_of(r.path) {
        Route::HealthCheck => health_reply(),
        Route::Start => start_reply(s, r),
        Route::HaltCounter => halt_reply(s),
        Route::Remaining => remaining_reply(s),
        Route::IsCounterRunning => is_running_reply(s),
        Route::PauseResumeCounter => pause_resume_reply(s),
        Route::NotFound => not_found_reply(),
    }
}

/// The store after a request.
pub open spec fn next(s: SessionView, r: RequestView) -> SessionView {
    match route_of(r.path) {
        Route::Start => start_next(s, r),
        Route::HaltCounter => s.halt(),
        Route::PauseResumeCounter => s.toggle(),
        _ => s,
    }
}

/// The command that a request names.
pub fn route(request: &Request) -> (r: Route)
    ensures
        r == route_of(request@.path),
{
    let path = request.path();
    if text_eq(path, "healthcheck") {
        Route::HealthCheck
    } else if text_eq(path, "start") {
        Route::Start
    } else if text_eq(path, "halt-counter") {
        Route::HaltCounter
    } else if text_eq(path, "remaining") {
        Route::Remaining
    } else if text_eq(path, "is-counter-running") {
        Route::IsCounterRunning
    } else if text_eq(path, "pause-resume-counter") {
        Route::PauseResumeCounter
    } else {
        Route::NotFound
    }
}

/// How a request has to hold the store while it is handled.
pub fn access(request: &Request) -> (a: Access)
    ensures
        a == access_of(request@),
{
    match route(request) {
        Route::HealthCheck | Route::NotFound => Access::Free,
        Route::Remaining | Route::IsCounterRunning => Access::Shared,
        Route::HaltCounter | Route::PauseResumeCounter => Access::Exclusive,
        Route::Start => match validate_start(request) {
            Ok(_) => Access::Probe,
            Err(_) => Access::Free,
        },
    }
}

/// Handles a request on the store: the handler is chosen by the path.
pub fn router(session: &mut Session, request: &Request) -> (response: Response)
    ensures
        response@ == reply(old(session)@, request@),
        final(session)@ == next(old(session)@, request@),
{
    match route(request) {
        Route::HealthCheck => health_check(),
        Route::Start => start_pomodoro(session, request),
        Route::HaltCounter => halt_counter(session),
        Route::Remaining => remaining_pomodoro(session),
        Route::IsCounterRunning => is_counter_running(session),
        Route::PauseResumeCounter => pause_resume_counter(session),
        Route::NotFound => not_found(),
    }
}

/// Every command is found again from its path, and no path holds a space.
pub proof fn lemma_route_of_path(route: Route)
    ensures
        route_of(route.spec_path()) == route,
        !route.spec_path().contains(' '),
{
    reveal_strlit("healthcheck");
    reveal_strlit("start");
    reveal_strlit("halt-counter");
    reveal_strlit("remaining");
    reveal_strlit("is-counter-running");
    reveal_strlit("pause-resume-counter");
    let p = route.spec_path();
    assert("healthcheck"@.len() == 11);
    assert("start"@.len() == 5);
    assert("halt-counter"@.len() == 12);
    assert("remaining"@.len() == 9);
    assert("is-counter-running"@.len() == 18);
    assert("pause-resume-counter"@.len() == 20);
    assert forall|i: int| 0 <= i < p.len() implies p[i] != ' ' by {}
}

/// A command that holds the store free or shared leaves it as it is, so
/// that it may be served on a copy; one that holds it free answers the same
/// on every store, so that it may be served on a fresh one.
pub proof fn lemma_access_is_enough(s: SessionView, t: SessionView, r: RequestView)
    ensures
        access_of(r) is Free || access_of(r) is Shared ==> next(s, r) == s,
        access_of(r) is Free ==> reply(s, r) == reply(t, r),
{
}

} // verus!
