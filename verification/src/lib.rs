//! Deferred units of work for an incremental build pipeline.
//!
//! A [`Work`] is a computation that has been built but not run: it can be
//! handed to another thread, sequenced with other units, and invoked exactly
//! once with a reporting handle that it borrows for the call. A [`Job`] pairs
//! two units, one to run when a task is dirty and one to run when it is
//! fresh, and runs exactly one of them once the [`Freshness`] of the task is
//! known.
//!
//! The handle type `S` and the failure type `E` belong to the scheduler that
//! drives the units; this crate stores neither. What a unit does to the
//! handle is the effect that the contracts speak of.
pub mod freshness;
pub mod job;
pub mod laws;
pub mod work;

pub use crate::freshness::Freshness;
pub use crate::job::Job;
pub use crate::work::Work;
