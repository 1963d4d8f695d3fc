//! The persistent records of the ledger and the error taxonomy.

use vstd::prelude::*;

verus! {

/// Longest statement a prediction entry can hold, in characters.
/// Longer statements do not fit the fixed-size record slot that the
/// storage layer allocates, so creation rejects them.
pub const MAX_STATEMENT_CHARS: usize = 280;

/// Seconds in one hour; deadlines are given in whole hours.
pub const SECONDS_PER_HOUR: i64 = 3600;

/// A caller identity, as the host's authentication layer hands it over:
/// a 32-byte key, held here as four 64-bit words.
///
/// The ledger never inspects an identity beyond comparing it for equality
/// with the stored authority.
#[derive(Clone, Copy, PartialEq, Eq, Structural, Debug)]
pub struct Identity {
    pub w0: u64,
    pub w1: u64,
    pub w2: u64,
    pub w3: u64,
}

/// The singleton registry record: the current authority and the two
/// running counters.
#[derive(Clone, Copy, PartialEq, Eq, Structural, Debug)]
pub struct Oracle {
    /// The sole identity permitted to mutate the ledger.
    pub authority: Identity,
    /// Total predictions ever issued; also the highest entry id in use.
    pub prediction_count: u64,
    /// Number of entries resolved with a correct outcome.
    pub correct_predictions: u64,
}

/// One prediction entry. Created once, resolved at most once, never
/// deleted.
#[derive(Debug)]
pub struct Prediction {
    /// Sequence number, assigned at creation as the registry counter's
    /// new value; entry ids start at 1.
    pub id: u64,
    /// Free-text statement, at most [`MAX_STATEMENT_CHARS`] characters.
    pub statement: String,
    /// Author's stated certainty, 0 to 100; informational only.
    pub confidence: u8,
    /// Absolute time (seconds) from which resolution is permitted.
    pub deadline: i64,
    /// False at creation; set true exactly once by resolution.
    pub resolved: bool,
    /// Meaningful only once `resolved` is true; true means correct.
    pub outcome: bool,
    /// Absolute creation time (seconds), immutable afterwards.
    pub created_at: i64,
}

/// Notification emitted when an entry is created.
#[derive(Debug)]
pub struct PredictionCreated {
    pub id: u64,
    pub statement: String,
    pub confidence: u8,
    pub deadline: i64,
}

/// Notification emitted when an entry is resolved.
#[derive(Clone, Copy, PartialEq, Eq, Structural, Debug)]
pub struct PredictionResolved {
    pub id: u64,
    pub outcome: bool,
    /// Derived accuracy percentage at the moment of resolution.
    pub accuracy: u8,
}

/// Why an operation was rejected. Every error aborts the whole operation
/// with no state changed.
#[derive(Clone, Copy, PartialEq, Eq, Structural, Debug)]
pub enum SibylError {
    /// The caller is not the registry's current authority. This guard is
    /// checked before any of the data validations below.
    Unauthorized,
    /// Confidence above 100.
    InvalidConfidence,
    /// A deadline of zero hours.
    InvalidDeadline,
    /// The supplied id does not name a live entry: it differs from the id
    /// stored in the record the id led to, or no such record exists.
    InvalidPredictionId,
    /// The entry was already resolved; resolution happens exactly once.
    AlreadyResolved,
    /// The entry's deadline lies in the future.
    DeadlineNotReached,
    /// The statement does not fit the fixed-size record slot the storage
    /// layer allocates (more than [`MAX_STATEMENT_CHARS`] characters).
    StatementTooLong,
}

/// Internal consistency of a single entry, as creation establishes it and
/// resolution preserves it.
pub open spec fn entry_wf(p: Prediction) -> bool {
    &&& p.statement@.len() <= MAX_STATEMENT_CHARS
    &&& p.confidence <= 100
    &&& p.created_at as int + SECONDS_PER_HOUR as int <= p.deadline as int
    &&& !p.resolved ==> !p.outcome
}

/// The entry `p` with its one-time resolution transition applied.
pub open spec fn resolved_entry(p: Prediction, was_correct: bool) -> Prediction {
    Prediction { resolved: true, outcome: was_correct, ..p }
}

} // verus!
