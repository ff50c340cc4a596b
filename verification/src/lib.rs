//! A verified core for a SQL benchmark harness: query-file statement
//! splitting, dataset binding over a fixed table list, iteration-controlled
//! timed execution bookkeeping, artifact naming, and result aggregation.
//!
//! The SQL engine itself, the command line, and all file and network I/O are
//! outside collaborators: a thin unverified shell drives them and feeds plain
//! values (statement texts, measured milliseconds, existence flags) into the
//! state machines and pure functions of this crate.

pub mod dataset;
pub mod driver;
pub mod errors;
pub mod names;
pub mod results;
pub mod runner;
pub mod source;
pub mod text;
