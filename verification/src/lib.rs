//! A single-session countdown timer served over a line-oriented text
//! protocol: the wire codec, the status taxonomy, the session state machine
//! with its timer tick, the command handlers and the client-side reading of
//! replies.

pub mod text;
pub mod time;
pub mod utils;
pub mod args;
pub mod server;
pub mod client;
