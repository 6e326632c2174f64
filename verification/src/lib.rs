//! A website health monitor: probes a configured list of URLs over HTTP,
//! classifies each probe as UP or DOWN with staged timings, renders a
//! plain-text report of one polling cycle, and keeps an operational state
//! record (activity flag, event counter, error log) that is persisted by the
//! surrounding application after every mutation.
//!
//! All I/O (the HTTP requests, the state file, the notification transport,
//! the configuration file) lives outside this crate; the functions here take
//! the outcomes of those calls as plain values and are verified.

pub mod config;
pub mod probe;
pub mod report;
pub mod runner;
pub mod state;
pub mod text;
