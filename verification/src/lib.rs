//! Decisions of a light/dark theme switch.
//!
//! The switch reads one personalization flag of the current user, writes
//! its complement to two flags, and tells the running windows that the
//! colour settings changed. Everything that decides lives here and is
//! proved; the caller performs the registry and messaging calls that the
//! [`session::Toggler`] asks for and hands back what they returned.

pub mod notice;
pub mod registry;
pub mod run;
pub mod session;
pub mod toggle;
pub mod wide;
