//! Collects the event stream of a package-index refresh into an ordered log,
//! renders each event as one line of text, translates raw backend error text
//! into structured diagnostics, and projects a refreshed index into per-package
//! upgrade records.  The surrounding program (transport, prompts, process
//! wiring) lives outside this library.

pub mod config;
pub mod diag;
pub mod events;
pub mod protocol;
pub mod report;
pub mod sink;
pub mod strings;
pub mod upgrade;
pub mod util;
