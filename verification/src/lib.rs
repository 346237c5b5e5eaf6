//! Turns the diagnostic stream of a build tool into CI annotation commands.
//!
//! The library parses nothing itself: it receives typed diagnostic records
//! (one per accepted input line), classifies their severity, selects the
//! primary source span, renders a canonical one-line annotation command,
//! deduplicates structurally identical annotations across the run, tallies a
//! markdown summary, and decides the run's pass/fail outcome against a
//! severity threshold.

pub mod cargo;
pub mod dedup;
pub mod driver;
pub mod github;
pub mod summary;
pub mod text;
