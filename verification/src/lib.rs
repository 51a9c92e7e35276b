//! Verified model of a desktop shell's startup sequence.
//!
//! The shell assembles six capability plugins, resolves one native window by
//! name, applies platform-conditional visual chrome, attaches a log sink in
//! debug builds, and hands control to the event loop.  This crate states that
//! sequence as a pure function from the compile-time configuration, the
//! plugin registration order, the window list and the host's replies to the
//! end state of the startup, and proves the properties the sequence is meant
//! to have.  The host itself (the windowing toolkit, the plugins, the event
//! loop) stays outside: a thin unverified shell performs the effects this
//! crate plans and feeds the replies back in as plain values.

pub mod bootstrap;
pub mod laws;
pub mod model;
pub mod plan;
