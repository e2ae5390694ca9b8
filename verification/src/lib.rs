//! Verified core of an Aeron client library: channel URIs, media driver
//! settings and their configuration names, poll flow-control actions, and the
//! values exchanged with the archive.

pub mod archive;
pub mod channel;
pub mod config;
pub mod driver;
pub mod message;
pub mod poll;
pub mod text;

pub use channel::ChannelBuilder;
pub use driver::{parse_idle_strategy, parse_threading_mode, IdleStrategy, ThreadingMode};
pub use poll::{ControlledAction, PollAction};
pub use text::{decimal_string, signed_decimal_string, str_equals};
