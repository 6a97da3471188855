//! The command line's options, and the one command that they ask for.

use vstd::prelude::*;
use vstd::string::*;

verus! {

/// The options of the command line.
#[derive(Debug)]
pub struct Args {
    /// time duration of session
    pub time: Option<String>,
    /// callback program with args
    pub callback_with_args: Option<String>,
    /// remaining duration of session
    pub remaining: bool,
    /// start the server
    pub start_server: bool,
    /// halt pomodoro counter
    pub halt_counter: bool,
    /// toggle pause/resume pomodoro counter
    pub pause_resume_counter: bool,
    /// validate time duration
    pub is_valid_time: Option<String>,
    /// check if counter is running
    pub is_counter_running: bool,
}

/// What the command line asks for.
pub enum Command {
    Remaining,
    IsCounterRunning,
    IsValidTime(String),
    Start(String, String),
    /// A duration without a callback, or a callback without a duration.
    IncompleteStart,
    PauseResumeCounter,
    HaltCounter,
    StartServer,
    /// No option was given.
    Nothing,
}

/// A command as a mathematical value.
pub enum CommandView {
    Remaining,
    IsCounterRunning,
    IsValidTime(Seq<char>),
    Start(Seq<char>, Seq<char>),
    IncompleteStart,
    PauseResumeCounter,
    HaltCounter,
    StartServer,
    Nothing,
}

impl View for Command {
    type V = CommandView;

    open spec fn view(&self) -> CommandView {
        match self {
            Command::Remaining => CommandView::Remaining,
            Command::IsCounterRunning => CommandView::IsCounterRunning,
            Command::IsValidTime(t) => CommandView::IsValidTime(t@),
            Command::Start(t, c) => CommandView::Start(t@, c@),
            Command::IncompleteStart => CommandView::IncompleteStart,
            Command::PauseResumeCounter => CommandView::PauseResumeCounter,
            Command::HaltCounter => CommandView::HaltCounter,
            Command::StartServer => CommandView::StartServer,
            Command::Nothing => CommandView::Nothing,
        }
    }
}

impl Command {
    /// What is printed for a command line that asks for nothing that can be
    /// done.
    pub open spec fn spec_complaint(self) -> Option<Seq<char>> {
        match self {
            Command::IncompleteStart => Some(
                "Both time and callback_with_args must be provided."@,
            ),
            Command::Nothing => Some("No arguments provided."@),
            _ => None,
        }
    }

    /// What is printed, on standard error, for a command line that asks for
    /// nothing that can be done.
    pub fn complaint(&self) -> (c: Option<&'static str>)
        ensures
            match self.spec_complaint() {
                Some(t) => c is Some && c->Some_0@ == t,
                None => c is None,
            },
    {
        match self {
            Command::IncompleteStart => Some("Both time and callback_with_args must be provided."),
            Command::Nothing => Some("No arguments provided."),
            _ => None,
        }
    }
}

impl Args {
    /// The command that the options ask for. Where several are given, the
    /// first of these wins: the remaining time, whether a counter runs, the
    /// check of a duration, a start, the pause toggle, a halt, the start of
    /// the server.
    pub open spec fn spec_command(&self) -> CommandView {
        if self.remaining {
            CommandView::Remaining
        } else if self.is_counter_running {
            CommandView::IsCounterRunning
        } else if self.is_valid_time is Some {
            CommandView::IsValidTime(self.is_valid_time->Some_0@)
        } else if self.time is Some && self.callback_with_args is Some {
            CommandView::Start(self.time->Some_0@, self.callback_with_args->Some_0@)
        } else if self.time is Some || self.callback_with_args is Some {
            CommandView::IncompleteStart
        } else if self.pause_resume_counter {
            CommandView::PauseResumeCounter
        } else if self.halt_counter {
            CommandView::HaltCounter
        } else if self.start_server {
            CommandView::StartServer
        } else {
            CommandView::Nothing
        }
    }

    /// The command that the options ask for.
    pub fn command(&self) -> (c: Command)
        ensures
            c@ == self.spec_command(),
    {
        if self.remaining {
            return Command::Remaining;
        }
        if self.is_counter_running {
            return Command::IsCounterRunning;
        }
        if let Some(input) = &self.is_valid_time {
            return Command::IsValidTime(input.clone());
        }
        match (&self.time, &self.callback_with_args) {
            (Some(time), Some(callback_with_args)) => {
                return Command::Start(time.clone(), callback_with_args.clone());
            },
            (Some(_), None) | (None, Some(_)) => {
                return Command::IncompleteStart;
            },
            _ => {},
        }
        if self.pause_resume_counter {
            return Command::PauseResumeCounter;
        }
        if self.halt_counter {
            return Command::HaltCounter;
        }
        if self.start_server {
            return Command::StartServer;
        }
        Command::Nothing
    }
}

} // verus!
