//! Decision core of a system-wide bracket-substitution keyboard filter.
//!
//! While the focused application is using a Chinese input method in its
//! native conversion mode, Shift+bracket keystrokes are consumed and the
//! corresponding full-width corner bracket is injected instead. The crate
//! verifies the per-keystroke decision rule, the single-instance handoff
//! protocol between process instances, the event-loop step rule, and the
//! exact status messages; the operating-system calls themselves live in
//! the unverified shell around this library.

pub mod cli;
pub mod console;
pub mod event_loop;
pub mod filter;
pub mod handoff;
pub mod instance;
pub mod notify;
