//! Dialog invoker: the decisions behind running an external dialog tool.
//!
//! A caller hands over a message and an optional title. The library builds
//! the tool's argument list, judges what a finished run means, and relays
//! the events of a running tool as notifications, one at a time. Starting
//! the process and delivering the notifications is the caller's business.

pub mod args;
pub mod guarantees;
pub mod outcome;
pub mod stream;
pub mod text;
