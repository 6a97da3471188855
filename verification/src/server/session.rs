//! The session state machine: the one countdown that the server holds, the
//! commands that move it, and the timer's tick.

use vstd::prelude::*;
use vstd::string::*;

verus! {

/// Where the one session stands.
#[derive(Copy, Clone, Debug, PartialEq, Eq, Structural)]
pub enum CounterState {
    /// No session is active.
    Pristine,
    /// The countdown is ticking.
    Running,
    /// A halt was asked for and the timer has not yet settled it.
    Halting,
    /// Ticking is suspended; the remaining time is kept.
    Paused,
}

/// What the timer driver does after a tick.
pub enum TimerAction {
    /// Keep ticking.
    Wait,
    /// Stop ticking; the callback is not invoked.
    Stop,
    /// Stop ticking and invoke this callback, once, outside the store.
    Complete(String),
}

/// A timer action as a mathematical value.
pub enum TimerActionView {
    Wait,
    Stop,
    Complete(Seq<char>),
}

impl View for TimerAction {
    type V = TimerActionView;

    open spec fn view(&self) -> TimerActionView {
        match self {
            TimerAction::Wait => TimerActionView::Wait,
            TimerAction::Stop => TimerActionView::Stop,
            TimerAction::Complete(c) => TimerActionView::Complete(c@),
        }
    }
}

/// The session store as a mathematical value.
pub struct SessionView {
    pub state: CounterState,
    pub remaining: nat,
    pub callback: Seq<char>,
}

impl SessionView {
    /// The store with no session: pristine, no time left, no callback.
    pub open spec fn fresh() -> SessionView {
        SessionView { state: CounterState::Pristine, remaining: 0, callback: Seq::empty() }
    }

    /// The invariant of the store: time is left exactly while a session is
    /// active, and only an active session has a callback.
    pub open spec fn wf(self) -> bool {
        &&& self.state is Pristine <==> self.remaining == 0
        &&& self.state is Pristine ==> self.callback.len() == 0
    }

    /// Whether a session is active.
    pub open spec fn active(self) -> bool {
        !(self.state is Pristine)
    }

    /// Starting a session of `seconds` with `callback`: it takes effect on a
    /// pristine store and with a positive duration, and changes nothing
    /// otherwise.
    pub open spec fn start(self, seconds: nat, callback: Seq<char>) -> SessionView {
        if self.state is Pristine && seconds > 0 {
            SessionView { state: CounterState::Running, remaining: seconds, callback }
        } else {
            self
        }
    }

    /// Asking for a halt: a running or paused session becomes halting, with
    /// its time untouched.
    pub open spec fn halt(self) -> SessionView {
        match self.state {
            CounterState::Running | CounterState::Paused => SessionView {
                state: CounterState::Halting,
                ..self
            },
            _ => self,
        }
    }

    /// The pause toggle: running becomes paused, paused becomes running.
    pub open spec fn toggle(self) -> SessionView {
        match self.state {
            CounterState::Running => SessionView { state: CounterState::Paused, ..self },
            CounterState::Paused => SessionView { state: CounterState::Running, ..self },
            _ => self,
        }
    }

    /// The store after one tick of the timer. A paused session is left as
    /// it is; a halting one is reset; a running one loses a second, and is
    /// reset when none is left.
    pub open spec fn tick(self) -> SessionView {
        match self.state {
            CounterState::Pristine | CounterState::Paused => self,
            CounterState::Halting => SessionView::fresh(),
            CounterState::Running => if self.remaining <= 1 {
                SessionView::fresh()
            } else {
                SessionView { remaining: (self.remaining - 1) as nat, ..self }
            },
        }
    }

    /// What the timer driver does after that tick: it goes on while the
    /// session is paused or has time left, stops without the callback on a
    /// halt (or where there is no session), and completes with the callback
    /// when the last second has run out.
    pub open spec fn action(self) -> TimerActionView {
        match self.state {
            CounterState::Pristine | CounterState::Halting => TimerActionView::Stop,
            CounterState::Paused => TimerActionView::Wait,
            CounterState::Running => if self.remaining <= 1 {
                TimerActionView::Complete(self.callback)
            } else {
                TimerActionView::Wait
            },
        }
    }
}

/// The session store: the counter state, the seconds that remain, and the
/// callback captured when the session started.
#[derive(Debug)]
pub struct Session {
    state: CounterState,
    remaining: u32,
    callback: String,
}

impl View for Session {
    type V = SessionView;

    closed spec fn view(&self) -> SessionView {
        SessionView {
            state: self.state,
            remaining: self.remaining as nat,
            callback: self.callback@,
        }
    }
}

impl Session {
    /// The store at process start: no session.
    pub fn new() -> (s: Session)
        ensures
            s@ == SessionView::fresh(),
            s@.wf(),
    {
        Session { state: CounterState::Pristine, remaining: 0, callback: String::new() }
    }

    /// The counter state.
    pub fn state(&self) -> (s: CounterState)
        ensures
            s == self@.state,
    {
        self.state
    }

    /// The seconds that remain.
    pub fn remaining(&self) -> (n: u32)
        ensures
            n == self@.remaining,
    {
        self.remaining
    }

    /// The counter state and the remaining seconds, as they stand together.
    pub fn read(&self) -> (r: (CounterState, u32))
        ensures
            r.0 == self@.state,
            r.1 == self@.remaining,
    {
        (self.state, self.remaining)
    }

    /// A copy of the store as it stands.
    pub fn snapshot(&self) -> (s: Session)
        ensures
            s@ == self@,
    {
        Session {
            state: self.state,
            remaining: self.remaining,
            callback: self.callback.clone(),
        }
    }

    /// Starts a session. Returns whether it started: the store must be
    /// pristine and the duration positive. State and time are set together.
    pub fn start(&mut self, seconds: u32, callback: &str) -> (started: bool)
        ensures
            started == (old(self)@.state is Pristine && seconds > 0),
            final(self)@ == old(self)@.start(seconds as nat, callback@),
            old(self)@.wf() ==> final(self)@.wf(),
    {
        if self.state == CounterState::Pristine && seconds > 0 {
            self.state = CounterState::Running;
            self.remaining = seconds;
            self.callback = String::from_str(callback);
            true
        } else {
            false
        }
    }

    /// Asks for a halt. Returns whether there was a running or paused
    /// session to halt. The timer settles the halt at its next tick.
    pub fn halt(&mut self) -> (halting: bool)
        ensures
            halting == (old(self)@.state is Running || old(self)@.state is Paused),
            final(self)@ == old(self)@.halt(),
            old(self)@.wf() ==> final(self)@.wf(),
    {
        match self.state {
            CounterState::Running | CounterState::Paused => {
                self.state = CounterState::Halting;
                true
            },
            _ => false,
        }
    }

    /// Toggles between running and paused. Returns whether there was a
    /// running or paused session to toggle.
    pub fn toggle(&mut self) -> (toggled: bool)
        ensures
            toggled == (old(self)@.state is Running || old(self)@.state is Paused),
            final(self)@ == old(self)@.toggle(),
            old(self)@.wf() ==> final(self)@.wf(),
    {
        match self.state {
            CounterState::Running => {
                self.state = CounterState::Paused;
                true
            },
            CounterState::Paused => {
                self.state = CounterState::Running;
                true
            },
            _ => false,
        }
    }

    /// One tick of the timer, to be made under one exclusive acquisition of
    /// the store. Returns what the driver does next.
    pub fn tick(&mut self) -> (action: TimerAction)
        ensures
            final(self)@ == old(self)@.tick(),
            action@ == old(self)@.action(),
            old(self)@.wf() ==> final(self)@.wf(),
    {
        match self.state {
            CounterState::Pristine => TimerAction::Stop,
            CounterState::Paused => TimerAction::Wait,
            CounterState::Halting => {
                self.state = CounterState::Pristine;
                self.remaining = 0;
                self.callback = String::new();
                TimerAction::Stop
            },
            CounterState::Running => {
                if self.remaining <= 1 {
                    let callback = self.callback.clone();
                    self.state = CounterState::Pristine;
                    self.remaining = 0;
                    self.callback = String::new();
                    TimerAction::Complete(callback)
                } else {
                    self.remaining = self.remaining - 1;
                    TimerAction::Wait
                }
            },
        }
    }
}

} // verus!
