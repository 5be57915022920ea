//! The decision core of a script watcher: which changed script to run, which
//! jobs to stop and start for it, and when the follow-up script may run.
//!
//! The crate decides and never acts. A host feeds it the change
//! notifications of one tick and the outcomes of the effects it performed,
//! and carries out the actions that come back.

pub mod command;
pub mod events;
pub mod filter;
pub mod jobs;
pub mod paths;
pub mod payload;
pub mod probe;
pub mod runner;
pub mod supervisor;
