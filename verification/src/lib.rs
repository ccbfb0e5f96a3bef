//! A bridge between a host and a conversational agent that runs as a child
//! process.
//!
//! The host sends commands; the bridge starts the agent, reads what it
//! writes, and answers with a small, fixed set of events. This crate holds
//! the decisions and no input or output: what to run, what each line of the
//! agent's output means ([`translator`]), what each command leads to
//! ([`dispatcher`]), how events are written ([`protocol`], [`forwarder`]) and
//! what is remembered between runs ([`session`]).

pub mod claude;
pub mod dispatcher;
pub mod forwarder;
pub mod json;
pub mod protocol;
pub mod session;
pub mod text;
pub mod translator;
