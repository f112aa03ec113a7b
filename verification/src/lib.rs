//! Scheduling and health-check engine of an uptime monitor.
//!
//! The engine owns the set of monitored targets, decides on every tick which
//! of them are due for a probe, turns probe outcomes into history records and
//! derives availability figures from recent history. Network and storage
//! access are left to the host program, which performs the probes that a tick
//! asks for and hands the outcomes back.
//!
//! - [`monitor`]: the monitored targets and their addresses.
//! - [`pinger`]: the scheduling state of one monitor, and what is proved of
//!   its schedule.
//! - [`manager`]: the registry of monitors and the scheduler's round.
//! - [`probe`]: the outcome of one probe.
//! - [`history`]: the record that is kept of each probe.
//! - [`stats`]: uptime and average duration over recent records.
//! - [`response`]: bodies and errors for a presentation layer.
//! - [`utils`]: fresh identifiers and the current time.
//! - [`decimal`]: decimal text of integers.
//! - [`error`]: why the registry refuses an operation.

pub mod decimal;
pub mod error;
pub mod history;
pub mod manager;
pub mod monitor;
pub mod pinger;
pub mod probe;
pub mod response;
pub mod stats;
pub mod utils;
