//! An embeddable job queue for agent tool calls: idempotency keys, bounded
//! lanes and per-lane concurrency limits.
//!
//! This crate holds the queue's decisions: which push of a key runs, which
//! joins a running job and which is answered from cache; what each lane is
//! configured with; how a job's result becomes its recorded state and the
//! answer a waiting caller gets. The runtime that moves jobs between tasks
//! drives these decisions and performs what they ask for.

mod config;
mod error;
mod job;
mod keymap;
pub mod laws;
mod ledger;
mod outcome;
mod state;

pub use crate::job::{Job, Key, Priority, PRIORITY_COUNT};
pub use crate::outcome::{Outcome, OutcomeView};
pub use crate::state::{State, StateView};
pub use crate::error::{JobLost, PushError, WaitError, wait_output};
pub use crate::ledger::{Accepted, Admission, Ledger, LedgerView, Step};
pub use crate::config::{DEFAULT_CAPACITY, DEFAULT_PERMITS, LaneConfig, QueueBuilder};
