use vstd::prelude::*;

use bson::ordered::OrderedDocument;
use mongodb::coll::error::WriteException;

use crate::document::{doc_keys, doc_subdocument, empty_document, insert_subdocument};
use crate::store::{UpdateCounts, UpdateOutcome, UpdateRequest, WriteSettings};
use crate::time::Timestamp;

verus! {

/// Why a migration did not complete.
#[derive(Debug)]
pub enum MigrationError {
    /// Neither `set` nor `unset` was given: there is nothing to write.
    Configuration,
    /// The store accepted the update but reported a write failure in its reply.
    Write(WriteException),
    /// The store could not be reached or refused the request.
    Store(mongodb::error::Error),
}

/// The update operator that assigns fields.
pub open spec fn set_key() -> Seq<char> {
    "$set"@
}

/// The update operator that removes fields.
pub open spec fn unset_key() -> Seq<char> {
    "$unset"@
}

/// The operators of the update built from `set` and `unset`, in order.
pub open spec fn update_keys(set: Option<OrderedDocument>, unset: Option<OrderedDocument>) -> Seq<Seq<char>> {
    let assigned = if set is Some { seq![set_key()] } else { Seq::empty() };
    if unset is Some { assigned.push(unset_key()) } else { assigned }
}

/// `u` is the update document for `set` and `unset`: a `$set` clause holding
/// `set` when it is given, an `$unset` clause holding `unset` when it is given,
/// and nothing else.
pub open spec fn update_shape(
    u: OrderedDocument,
    set: Option<OrderedDocument>,
    unset: Option<OrderedDocument>,
) -> bool {
    &&& doc_keys(u) == update_keys(set, unset)
    &&& doc_subdocument(u, set_key()) == set
    &&& doc_subdocument(u, unset_key()) == unset
}

/// Assembles the update document of a migration from its `$set` and `$unset`
/// parts; at least one of them must be given.
pub fn build_update(
    set: Option<OrderedDocument>,
    unset: Option<OrderedDocument>,
) -> (r: Result<OrderedDocument, MigrationError>)
    ensures
        match r {
            Ok(u) => (set is Some || unset is Some) && update_shape(u, set, unset),
            Err(e) => set is None && unset is None && e is Configuration,
        },
{
    proof {
        reveal_strlit("$set");
        reveal_strlit("$unset");
        assert(set_key()[1] != unset_key()[1]);
    }
    if set.is_none() && unset.is_none() {
        return Err(MigrationError::Configuration);
    }
    let mut update = empty_document();
    if let Some(s) = set {
        insert_subdocument(&mut update, "$set".to_owned(), s);
        assert(doc_keys(update) =~= seq![set_key()]);
    }
    assert(doc_keys(update) == update_keys(set, None));
    if let Some(u) = unset {
        assert(!doc_keys(update).contains(unset_key()));
        insert_subdocument(&mut update, "$unset".to_owned(), u);
    }
    Ok(update)
}

/// What an accepted reply means for the migration: a write exception inside
/// it fails the migration, even where other documents were written.
pub open spec fn outcome_result(o: UpdateOutcome) -> Result<UpdateCounts, MigrationError> {
    match o.write_exception {
        Some(e) => Err(MigrationError::Write(e)),
        None => Ok(UpdateCounts { matched: o.matched_count, modified: o.modified_count }),
    }
}

/// What the store's reply to the update means for the migration: an error of
/// the store is passed on as it came, and an accepted reply is read as
/// `outcome_result` reads it.
pub open spec fn reply_result(
    reply: Result<UpdateOutcome, mongodb::error::Error>,
) -> Result<UpdateCounts, MigrationError> {
    match reply {
        Ok(o) => outcome_result(o),
        Err(e) => Err(MigrationError::Store(e)),
    }
}

/// Reads the store's reply to an accepted update.
pub fn interpret_outcome(outcome: UpdateOutcome) -> (r: Result<UpdateCounts, MigrationError>)
    ensures
        r == outcome_result(outcome),
{
    match outcome.write_exception {
        Some(e) => Err(MigrationError::Write(e)),
        None => Ok(UpdateCounts { matched: outcome.matched_count, modified: outcome.modified_count }),
    }
}

/// Reads the store's reply to the update, whether it accepted it or not.
pub fn interpret_reply(reply: Result<UpdateOutcome, mongodb::error::Error>) -> (r: Result<UpdateCounts, MigrationError>)
    ensures
        r == reply_result(reply),
{
    match reply {
        Ok(outcome) => interpret_outcome(outcome),
        Err(e) => Err(MigrationError::Store(e)),
    }
}

/// A migration that rewrites the documents matching `filter` on every run
/// until `threshold` has passed, and does nothing from then on.
#[derive(Debug)]
pub struct IntervalMigration {
    /// The name of the migration, unique per collection.
    pub name: String,
    /// The UTC instant after which the migration no longer runs.
    pub threshold: Timestamp,
    /// Selects the documents to update.
    pub filter: OrderedDocument,
    /// The fields to assign, as the `$set` clause of the update.
    pub set: Option<OrderedDocument>,
    /// The fields to remove, as the `$unset` clause of the update.
    pub unset: Option<OrderedDocument>,
}

/// What a run of `m` at `now` is to do: `Ok(None)` once the threshold has
/// passed; otherwise a configuration error where neither `set` nor `unset` is
/// given, else the one update of the migration, written durably.
pub open spec fn plans(
    m: IntervalMigration,
    now: Timestamp,
    r: Result<Option<UpdateRequest>, MigrationError>,
) -> bool {
    if now.is_after(m.threshold) {
        r matches Ok(None)
    } else if m.set is None && m.unset is None {
        r matches Err(MigrationError::Configuration)
    } else {
        &&& r matches Ok(Some(req))
        &&& req.filter == m.filter
        &&& update_shape(req.update, m.set, m.unset)
        &&& req.settings == WriteSettings::spec_durable()
    }
}

impl IntervalMigration {
    /// Declares a migration; nothing is checked until it runs.
    pub fn new(
        name: String,
        threshold: Timestamp,
        filter: OrderedDocument,
        set: Option<OrderedDocument>,
        unset: Option<OrderedDocument>,
    ) -> (r: IntervalMigration)
        ensures
            r.name == name,
            r.threshold == threshold,
            r.filter == filter,
            r.set == set,
            r.unset == unset,
    {
        IntervalMigration { name, threshold, filter, set, unset }
    }

    /// Decides what a run at `now` does, without touching the store.
    pub fn plan(&self, now: &Timestamp) -> (r: Result<Option<UpdateRequest>, MigrationError>)
        ensures
            plans(*self, *now, r),
    {
        if now.after(&self.threshold) {
            return Ok(None);
        }
        let update = build_update(self.set.clone(), self.unset.clone());
        match update {
            Ok(u) => Ok(Some(UpdateRequest { filter: self.filter.clone(), update: u, settings: WriteSettings::durable() })),
            Err(e) => Err(e),
        }
    }

    /// Whether a run at `now` sends an update to the store.
    pub open spec fn sends_update(self, now: Timestamp) -> bool {
        !now.is_after(self.threshold) && (self.set is Some || self.unset is Some)
    }

    /// The result of a run at `now`, given the store's reply to the update
    /// where one was sent: `Ok(None)` once the threshold has passed; else the
    /// configuration error where neither `set` nor `unset` is given; else what
    /// the reply means.
    pub open spec fn run_result(
        self,
        now: Timestamp,
        reply: Option<Result<UpdateOutcome, mongodb::error::Error>>,
    ) -> Result<Option<UpdateCounts>, MigrationError> {
        if now.is_after(self.threshold) {
            Ok(None)
        } else if self.set is None && self.unset is None {
            Err(MigrationError::Configuration)
        } else {
            match reply_result(reply.unwrap()) {
                Ok(c) => Ok(Some(c)),
                Err(e) => Err(e),
            }
        }
    }

    /// Completes a run at `now`. `reply` is the store's answer to the request
    /// that `plan` gave for the same instant, and is absent where it gave none.
    pub fn conclude(
        &self,
        now: &Timestamp,
        reply: Option<Result<UpdateOutcome, mongodb::error::Error>>,
    ) -> (r: Result<Option<UpdateCounts>, MigrationError>)
        requires
            reply is Some <==> self.sends_update(*now),
        ensures
            r == self.run_result(*now, reply),
    {
        if now.after(&self.threshold) {
            return Ok(None);
        }
        if self.set.is_none() && self.unset.is_none() {
            return Err(MigrationError::Configuration);
        }
        match interpret_reply(reply.unwrap()) {
            Ok(c) => Ok(Some(c)),
            Err(e) => Err(e),
        }
    }
}

/// The migration at `index` failed with `error`; the ones before it succeeded
/// and the ones after it did not run.
#[derive(Debug)]
pub struct MigrationFailure {
    pub index: usize,
    pub error: MigrationError,
}

/// One step of running `count` migrations in order, after the one at `index`
/// has given `result`: a success moves on to the next index, or ends the run
/// after the last one; a failure ends the run with that index and error.
pub fn runner_step(index: usize, count: usize, result: Result<(), MigrationError>) -> (r: Result<Option<usize>, MigrationFailure>)
    requires
        index < count,
    ensures
        match result {
            Ok(()) => r == Ok::<Option<usize>, MigrationFailure>(
                if index + 1 < count { Some((index + 1) as usize) } else { None },
            ),
            Err(e) => r matches Err(f) && f.index == index && f.error == e,
        },
{
    match result {
        Ok(()) => {
            if index + 1 < count {
                Ok(Some(index + 1))
            } else {
                Ok(None)
            }
        },
        Err(e) => Err(MigrationFailure { index, error: e }),
    }
}

/// A write exception inside an accepted reply fails the run with that
/// exception, whatever counts stand beside it.
pub proof fn lemma_write_exception_fails_run(
    m: IntervalMigration,
    now: Timestamp,
    outcome: UpdateOutcome,
    w: WriteException,
)
    requires
        m.sends_update(now),
        outcome.write_exception == Some(w),
    ensures
        m.run_result(now, Some(Ok(outcome))) == Err::<Option<UpdateCounts>, MigrationError>(
            MigrationError::Write(w),
        ),
{
}

/// Before the threshold, every run of a migration hands the store the same
/// request: the same filter, an update with the same clauses holding the same
/// documents, and the same write settings. Re-running it therefore only
/// re-applies what was already applied.
pub proof fn lemma_same_request_before_threshold(
    m: IntervalMigration,
    t1: Timestamp,
    t2: Timestamp,
    r1: Result<Option<UpdateRequest>, MigrationError>,
    r2: Result<Option<UpdateRequest>, MigrationError>,
)
    requires
        plans(m, t1, r1),
        plans(m, t2, r2),
        !t1.is_after(m.threshold),
        !t2.is_after(m.threshold),
        m.set is Some || m.unset is Some,
    ensures
        r1 matches Ok(Some(q1)) && r2 matches Ok(Some(q2)) && {
            &&& q1.filter == q2.filter
            &&& doc_keys(q1.update) == doc_keys(q2.update)
            &&& doc_subdocument(q1.update, set_key()) == doc_subdocument(q2.update, set_key())
            &&& doc_subdocument(q1.update, unset_key()) == doc_subdocument(q2.update, unset_key())
            &&& q1.settings == q2.settings
        },
{
}

} // verus!
