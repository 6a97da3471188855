//! What holds of the session state machine and its handlers over whole
//! courses of commands and ticks.

use vstd::prelude::*;
use crate::server::controllers::{
    halt_reply, is_running_reply, pause_resume_reply, remaining_reply, start_next, start_reply,
    start_seconds, text_reply,
};
use crate::server::request::RequestView;
use crate::server::router::{next, reply};
use crate::server::session::{SessionView, TimerActionView};
use crate::server::status_code::StatusCode;
use crate::text::decimal;

verus! {

impl SessionView {
    /// The store after `n` ticks with no command between them.
    pub open spec fn ticks(self, n: nat) -> SessionView
        decreases n,
    {
        if n == 0 {
            self
        } else {
            self.tick().ticks((n - 1) as nat)
        }
    }
}

/// The store's invariant holds at process start and is kept by every
/// command and by the tick. No move adds time to a session that is under
/// way.
pub proof fn lemma_invariant_kept(s: SessionView, r: RequestView)
    requires
        s.wf(),
    ensures
        SessionView::fresh().wf(),
        next(s, r).wf(),
        s.tick().wf(),
        s.active() ==> next(s, r).remaining == s.remaining,
        s.tick().remaining <= s.remaining,
{
}

/// Right after a start is answered with created, the store is running with
/// the full duration, a time query reports exactly that duration, and one
/// tick later it reports one second less: never more than asked for, never
/// below zero.
pub proof fn lemma_remaining_after_start(s: SessionView, r: RequestView)
    requires
        s.wf(),
        start_reply(s, r).status is Created,
    ensures
        start_seconds(r) is Some,
        start_seconds(r)->Some_0 > 0,
        start_next(s, r).state is Running,
        start_next(s, r).remaining == start_seconds(r)->Some_0,
        remaining_reply(start_next(s, r)) == text_reply(
            StatusCode::Okay,
            decimal(start_seconds(r)->Some_0),
        ),
        start_next(s, r).tick().remaining == start_seconds(r)->Some_0 - 1,
        remaining_reply(start_next(s, r).tick()) == text_reply(
            StatusCode::Okay,
            decimal((start_seconds(r)->Some_0 - 1) as nat),
        ),
{
}

/// However many ticks follow, a time query never reports more than the
/// store held before them.
pub proof fn lemma_ticks_never_add(s: SessionView, n: nat)
    requires
        s.wf(),
    ensures
        s.ticks(n).wf(),
        s.ticks(n).remaining <= s.remaining,
    decreases n,
{
    if n > 0 {
        lemma_ticks_never_add(s.tick(), (n - 1) as nat);
    }
}

/// A session starts, the store going from pristine to running, exactly
/// when the reply is created; no other reply carries that status.
pub proof fn lemma_created_means_started(s: SessionView, r: RequestView)
    ensures
        reply(s, r).status is Created <==> s.state is Pristine && next(s, r).state is Running,
        reply(s, r).status is Created ==> next(s, r) == start_next(s, r),
{
}

/// Of two valid starts in a row on a pristine store, the first is created
/// and the second is a conflict that leaves the first session as it is. A
/// start on any store that holds a session changes nothing.
pub proof fn lemma_one_session(s: SessionView, first: RequestView, second: RequestView)
    requires
        s.wf(),
        start_seconds(first) is Some,
        start_seconds(second) is Some,
    ensures
        s.state is Pristine ==> start_reply(s, first).status is Created,
        s.state is Pristine ==> start_reply(start_next(s, first), second).status is Conflict,
        s.state is Pristine ==> start_next(start_next(s, first), second) == start_next(s, first),
        s.active() ==> start_reply(s, first).status is Conflict && start_next(s, first) == s,
{
}

/// The pause command is a toggle: from running, two of them lead back to
/// running with the time that was left, and both are answered with success.
/// While the session is paused, ticks take no time off.
pub proof fn lemma_pause_is_toggle(s: SessionView, n: nat)
    requires
        s.wf(),
        s.state is Running,
    ensures
        pause_resume_reply(s).status is Okay,
        s.toggle().state is Paused,
        pause_resume_reply(s.toggle()).status is Okay,
        s.toggle().ticks(n) == s.toggle(),
        s.toggle().ticks(n).toggle() == s,
        remaining_reply(s.toggle().ticks(n)) == text_reply(
            StatusCode::NotModified,
            decimal(s.remaining),
        ),
    decreases n,
{
    if n > 0 {
        lemma_pause_is_toggle(s, (n - 1) as nat);
        assert(s.toggle().tick() == s.toggle());
    }
}

/// A halt of a running or paused session is accepted and settled by the
/// next tick: the store is then pristine with no time left, the timer
/// stops, and the callback is not invoked. A second halt before that tick
/// is a conflict.
pub proof fn lemma_halt_settles(s: SessionView)
    requires
        s.wf(),
        s.state is Running || s.state is Paused,
    ensures
        halt_reply(s).status is Okay,
        s.halt().state is Halting,
        s.halt().remaining == s.remaining,
        halt_reply(s.halt()).status is Conflict,
        s.halt().action() == TimerActionView::Stop,
        s.halt().tick() == SessionView::fresh(),
        remaining_reply(s.halt().tick()) == text_reply(StatusCode::Okay, decimal(0)),
        is_running_reply(s.halt().tick()).status is Continue,
{
}

/// A running session of `d` seconds that is left alone runs for exactly
/// `d` ticks: before the last of them the store is still running with the
/// time that is left and the driver waits; the last one invokes the
/// callback and leaves the store pristine; after it the driver only stops,
/// so the callback is invoked once.
pub proof fn lemma_countdown(s: SessionView, n: nat)
    requires
        s.wf(),
        s.state is Running,
    ensures
        n < s.remaining ==> s.ticks(n) == (SessionView {
            remaining: (s.remaining - n) as nat,
            ..s
        }),
        n + 1 < s.remaining ==> s.ticks(n).action() == TimerActionView::Wait,
        n + 1 == s.remaining ==> s.ticks(n).action() == TimerActionView::Complete(s.callback),
        n >= s.remaining ==> s.ticks(n) == SessionView::fresh(),
        n >= s.remaining ==> s.ticks(n).action() == TimerActionView::Stop,
    decreases n,
{
    if n > 0 {
        if s.remaining > 1 {
            lemma_countdown(s.tick(), (n - 1) as nat);
        } else {
            lemma_rest(SessionView::fresh(), (n - 1) as nat);
        }
    }
}

/// Ticks change nothing where no session is active.
pub proof fn lemma_rest(s: SessionView, n: nat)
    requires
        s.state is Pristine,
    ensures
        s.ticks(n) == s,
    decreases n,
{
    if n > 0 {
        lemma_rest(s, (n - 1) as nat);
    }
}

/// A session of one second is visible as running with its full second
/// until its first tick; that tick completes it, invokes the callback and
/// leaves the store pristine with nothing remaining.
pub proof fn lemma_one_second_session(s: SessionView, r: RequestView)
    requires
        s.wf(),
        start_reply(s, r).status is Created,
        start_seconds(r) == Some(1nat),
    ensures
        remaining_reply(start_next(s, r)) == text_reply(StatusCode::Okay, decimal(1)),
        is_running_reply(start_next(s, r)).status is Processing,
        start_next(s, r).action() == TimerActionView::Complete(r.arg2->Some_0),
        start_next(s, r).tick() == SessionView::fresh(),
        start_next(s, r).tick().action() == TimerActionView::Stop,
        remaining_reply(start_next(s, r).tick()) == text_reply(StatusCode::Okay, decimal(0)),
        is_running_reply(start_next(s, r).tick()).status is Continue,
{
}

} // verus!
