//! A minimal message-relay library for a browser UI that talks to a
//! background worker.
//!
//! The main side formats outbound text, keeps an append-only log of
//! received messages, and constructs its worker handle exactly once;
//! the worker side echoes every payload back with a fixed prefix.
//! The host channel itself (posting and delivering messages, and the
//! rendering of the view) lives outside this crate; everything here is
//! plain data and is verified.

pub mod controller;
pub mod protocol;
pub mod worker;
