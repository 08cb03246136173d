//! Idempotent, time-bounded schema migrations for MongoDB collections.
//!
//! An [`IntervalMigration`] rewrites the documents that match a filter with a
//! `$set` / `$unset` update on every run until its threshold has passed, and is
//! a no-op from then on. Each run is stateless, so any number of service
//! instances may run the same migration concurrently at boot.
//!
//! The library decides; the caller reads the clock and talks to the store.
//! [`IntervalMigration::plan`] says what a run at a given instant sends,
//! [`IntervalMigration::conclude`] what the store's reply makes of the run, and
//! [`runner_step`] how a sequence of migrations goes on after each one.

mod document;
mod indexes;
mod migration;
mod store;
mod time;

pub use document::{doc_keys, doc_subdocument};
pub use indexes::Indexes;
pub use migration::{
    build_update, interpret_outcome, interpret_reply, lemma_same_request_before_threshold,
    lemma_write_exception_fails_run, outcome_result, plans, reply_result, runner_step, set_key,
    unset_key, update_keys, update_shape, IntervalMigration, MigrationError, MigrationFailure,
};
pub use store::{UpdateCounts, UpdateOutcome, UpdateRequest, WriteSettings};
pub use time::Timestamp;
