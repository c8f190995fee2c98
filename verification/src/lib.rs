//! Orchestration core for a terminal dashboard that aggregates several
//! backend services into one navigable view.
//!
//! The core is a single-writer state machine: it consumes one message at a
//! time (key input, timer tick, or the completion of a background request)
//! and produces the next application state together with the list of new
//! requests to dispatch. All side effects (HTTP calls, terminal I/O, the
//! event channel itself) live outside this crate; the core only decides.

pub mod app;
pub mod datto;
pub mod datto_av;
pub mod debounce;
pub mod events;
pub mod fetch;
pub mod jobs;
pub mod keys;
pub mod list;
pub mod modal;
pub mod msg;
pub mod rocket_cyber;
pub mod screen;
pub mod sophos;
pub mod stats;
pub mod store;
pub mod strings;

use vstd::prelude::*;

verus! {

} // verus!
