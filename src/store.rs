use vstd::prelude::*;

use bson::ordered::OrderedDocument;
use mongodb::coll::error::WriteException;

verus! {

#[verifier::external_type_specification]
#[verifier::external_body]
pub struct ExWriteException(WriteException);

#[verifier::external_type_specification]
#[verifier::external_body]
pub struct ExStoreError(mongodb::error::Error);

/// How a write is to be carried out and acknowledged.
#[derive(Clone, Copy, Debug, PartialEq, Eq, Structural)]
pub struct WriteSettings {
    /// Whether a filter that matches nothing inserts a new document.
    pub upsert: bool,
    /// How many members must acknowledge the write.
    pub w: i32,
    /// How long to wait for that acknowledgement, in milliseconds; 0 waits on.
    pub w_timeout: i32,
    /// Acknowledge only once the write is in the journal.
    pub journal: bool,
    /// Acknowledge only once the data files are synced to disk.
    pub fsync: bool,
}

impl WriteSettings {
    /// What a migration writes with: never upsert, and favour durability over
    /// latency by waiting for the journal.
    pub open spec fn spec_durable() -> WriteSettings {
        WriteSettings { upsert: false, w: 1, w_timeout: 0, journal: true, fsync: false }
    }

    pub fn durable() -> (r: WriteSettings)
        ensures
            r == Self::spec_durable(),
    {
        WriteSettings { upsert: false, w: 1, w_timeout: 0, journal: true, fsync: false }
    }
}

/// One multi-document update: every document that matches `filter` gets
/// `update`, written with `settings`.
#[derive(Debug)]
pub struct UpdateRequest {
    pub filter: OrderedDocument,
    pub update: OrderedDocument,
    pub settings: WriteSettings,
}

/// What the store answered to an update that it accepted.
#[derive(Debug)]
pub struct UpdateOutcome {
    pub matched_count: i32,
    pub modified_count: i32,
    /// A write failure that the store reported inside an accepted reply.
    pub write_exception: Option<WriteException>,
}

/// The counts of an update that went through.
#[derive(Clone, Copy, Debug, PartialEq, Eq, Structural)]
pub struct UpdateCounts {
    pub matched: i32,
    pub modified: i32,
}

} // verus!
