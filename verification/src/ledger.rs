//! The ledger as a whole: the registry record plus every entry ever
//! created, with the invariant that ties the counters to the entries.
//!
//! The host stores each entry at an address derived from its sequence
//! number, so the entry with id `i` is found without any index. Here that
//! scheme is the key-value view `entries`, where the entry with id `i`
//! sits at position `i - 1`. The methods wrap the operations of
//! [`crate::ops`] together with the storage layer's part: the size bound
//! on a new record and the lookup of an entry by its id.

use vstd::prelude::*;

use crate::ops;
use crate::ops::accuracy_of;
use crate::ops::created_event_matches;
use crate::ops::deadline_at;
use crate::ops::entry_matches;
use crate::ops::transfer_error;
use crate::state::Identity;
use crate::state::MAX_STATEMENT_CHARS;
use crate::state::Oracle;
use crate::state::Prediction;
use crate::state::PredictionCreated;
use crate::state::PredictionResolved;
use crate::state::SibylError;
use crate::state::entry_wf;
use crate::state::resolved_entry;
use vstd::pervasive::unreached;
use vstd::string::StrSliceExecFns;

verus! {

/// Number of entries in `s` resolved with a correct outcome.
pub open spec fn count_correct(s: Seq<Prediction>) -> nat
    decreases s.len(),
{
    if s.len() == 0 {
        0
    } else {
        count_correct(s.drop_last()) + if s.last().resolved && s.last().outcome {
            1nat
        } else {
            0nat
        }
    }
}

/// Number of resolved entries in `s`.
pub open spec fn count_resolved(s: Seq<Prediction>) -> nat
    decreases s.len(),
{
    if s.len() == 0 {
        0
    } else {
        count_resolved(s.drop_last()) + if s.last().resolved {
            1nat
        } else {
            0nat
        }
    }
}

/// Correct entries are resolved entries, and no more entries are resolved
/// than exist.
pub proof fn lemma_counts_bounded(s: Seq<Prediction>)
    ensures
        count_correct(s) <= count_resolved(s),
        count_resolved(s) <= s.len(),
    decreases s.len(),
{
    if s.len() > 0 {
        lemma_counts_bounded(s.drop_last());
    }
}

/// While an unresolved entry exists, strictly fewer entries are resolved
/// than exist.
pub proof fn lemma_unresolved_keeps_slack(s: Seq<Prediction>, i: int)
    requires
        0 <= i < s.len(),
        !s[i].resolved,
    ensures
        count_resolved(s) < s.len(),
    decreases s.len(),
{
    if i == s.len() - 1 {
        lemma_counts_bounded(s.drop_last());
    } else {
        assert(s.drop_last()[i] == s[i]);
        lemma_unresolved_keeps_slack(s.drop_last(), i);
    }
}

/// Appending an unresolved entry changes neither count.
pub proof fn lemma_counts_push_unresolved(s: Seq<Prediction>, p: Prediction)
    requires
        !p.resolved,
    ensures
        count_correct(s.push(p)) == count_correct(s),
        count_resolved(s.push(p)) == count_resolved(s),
{
    assert(s.push(p).drop_last() =~= s);
    assert(s.push(p).last() == p);
}

/// Replacing entry `i` moves each count by the difference the new entry
/// makes against the old one.
pub proof fn lemma_counts_update(s: Seq<Prediction>, i: int, p: Prediction)
    requires
        0 <= i < s.len(),
    ensures
        count_correct(s.update(i, p)) == count_correct(s) - (if s[i].resolved && s[i].outcome {
            1int
        } else {
            0int
        }) + (if p.resolved && p.outcome {
            1int
        } else {
            0int
        }),
        count_resolved(s.update(i, p)) == count_resolved(s) - (if s[i].resolved {
            1int
        } else {
            0int
        }) + (if p.resolved {
            1int
        } else {
            0int
        }),
    decreases s.len(),
{
    let t = s.update(i, p);
    if i == s.len() - 1 {
        assert(t.drop_last() =~= s.drop_last());
        assert(t.last() == p);
    } else {
        assert(t.drop_last() =~= s.drop_last().update(i, p));
        assert(t.last() == s.last());
        assert(s.drop_last()[i] == s[i]);
        lemma_counts_update(s.drop_last(), i, p);
    }
}

/// The whole persistent state of the system.
pub struct Ledger {
    /// The singleton registry record.
    pub oracle: Oracle,
    /// Every entry ever created, in creation order; the entry with id `i`
    /// sits at position `i - 1`.
    pub entries: Vec<Prediction>,
}

impl Ledger {
    /// Well-formedness, as `initialize` establishes it and every
    /// operation preserves it: the issued-counter counts the entries,
    /// ids are the positions shifted by one, each entry is internally
    /// consistent, and the correct-counter counts exactly the entries
    /// resolved correct.
    pub open spec fn wf(self) -> bool {
        &&& self.entries@.len() == self.oracle.prediction_count as nat
        &&& forall|i: int|
            0 <= i < self.entries@.len() ==> (#[trigger] self.entries@[i]).id as int == i + 1
        &&& forall|i: int| 0 <= i < self.entries@.len() ==> entry_wf(#[trigger] self.entries@[i])
        &&& self.oracle.correct_predictions as nat == count_correct(self.entries@)
    }

    /// The validation outcome of `create_prediction`: the operation's own
    /// checks in their order, then the storage layer's size bound on the
    /// new record.
    pub open spec fn create_error(
        self,
        caller: Identity,
        statement: Seq<char>,
        confidence: u8,
        deadline_hours: u8,
    ) -> Option<SibylError> {
        if caller != self.oracle.authority {
            Some(SibylError::Unauthorized)
        } else if confidence > 100 {
            Some(SibylError::InvalidConfidence)
        } else if deadline_hours == 0 {
            Some(SibylError::InvalidDeadline)
        } else if statement.len() > MAX_STATEMENT_CHARS as nat {
            Some(SibylError::StatementTooLong)
        } else {
            None
        }
    }

    /// The validation outcome of `resolve_prediction`: an id that names
    /// no entry is reported as `InvalidPredictionId`, the rest are the
    /// operation's own checks in their order.
    pub open spec fn resolve_error(self, caller: Identity, id: u64, now: i64) -> Option<
        SibylError,
    > {
        if caller != self.oracle.authority {
            Some(SibylError::Unauthorized)
        } else if id == 0 || id > self.oracle.prediction_count {
            Some(SibylError::InvalidPredictionId)
        } else if self.entries@[id as int - 1].resolved {
            Some(SibylError::AlreadyResolved)
        } else if now < self.entries@[id as int - 1].deadline {
            Some(SibylError::DeadlineNotReached)
        } else {
            None
        }
    }

    /// `Initialize`: the one-time set-up of a fresh ledger with `caller`
    /// as its authority and both counters at zero.
    pub fn initialize(caller: Identity) -> (ledger: Ledger)
        ensures
            ledger.wf(),
            ledger.oracle == (Oracle {
                authority: caller,
                prediction_count: 0,
                correct_predictions: 0,
            }),
            ledger.entries@.len() == 0,
    {
        Ledger { oracle: ops::initialize(caller), entries: Vec::new() }
    }

    /// `CreatePrediction` against the whole ledger: validate, append the
    /// new entry under the next sequence number, and return the creation
    /// notification.
    pub fn create_prediction(
        &mut self,
        caller: Identity,
        statement: String,
        confidence: u8,
        deadline_hours: u8,
        now: i64,
    ) -> (r: Result<PredictionCreated, SibylError>)
        requires
            old(self).wf(),
            old(self).create_error(caller, statement@, confidence, deadline_hours) is None ==> {
                &&& old(self).oracle.prediction_count < u64::MAX
                &&& deadline_at(now, deadline_hours) <= i64::MAX
            },
        ensures
            final(self).wf(),
            match old(self).create_error(caller, statement@, confidence, deadline_hours) {
                Some(e) => {
                    &&& r == Err::<PredictionCreated, SibylError>(e)
                    &&& final(self).oracle == old(self).oracle
                    &&& final(self).entries@ == old(self).entries@
                },
                None => {
                    &&& r is Ok
                    &&& final(self).oracle == (Oracle {
                        prediction_count: (old(self).oracle.prediction_count + 1) as u64,
                        ..old(self).oracle
                    })
                    &&& final(self).entries@.len() == old(self).entries@.len() + 1
                    &&& final(self).entries@.drop_last() == old(self).entries@
                    &&& entry_matches(
                        final(self).entries@.last(),
                        final(self).oracle.prediction_count,
                        statement@,
                        confidence,
                        deadline_hours,
                        now,
                    )
                    &&& created_event_matches(r->Ok_0, final(self).entries@.last())
                },
            },
    {
        if !(caller == self.oracle.authority) {
            return Err(SibylError::Unauthorized);
        }
        if confidence > 100 {
            return Err(SibylError::InvalidConfidence);
        }
        if deadline_hours == 0 {
            return Err(SibylError::InvalidDeadline);
        }
        if statement.as_str().unicode_len() > MAX_STATEMENT_CHARS {
            return Err(SibylError::StatementTooLong);
        }
        let r = ops::create_prediction(
            &mut self.oracle,
            caller,
            statement,
            confidence,
            deadline_hours,
            now,
        );
        match r {
            Ok((entry, event)) => {
                proof {
                    lemma_counts_push_unresolved(self.entries@, entry);
                }
                self.entries.push(entry);
                Ok(event)
            },
            // The checks above match the operation's own, so it cannot
            // have failed here.
            Err(_) => unreached(),
        }
    }

    /// `ResolvePrediction` against the whole ledger: find the entry the
    /// id names, validate, apply its one-time transition, and return the
    /// resolution notification with the accuracy it reports.
    pub fn resolve_prediction(
        &mut self,
        caller: Identity,
        id: u64,
        was_correct: bool,
        now: i64,
    ) -> (r: Result<PredictionResolved, SibylError>)
        requires
            old(self).wf(),
        ensures
            final(self).wf(),
            match old(self).resolve_error(caller, id, now) {
                Some(e) => {
                    &&& r == Err::<PredictionResolved, SibylError>(e)
                    &&& final(self).oracle == old(self).oracle
                    &&& final(self).entries@ == old(self).entries@
                },
                None => {
                    &&& final(self).entries@ == old(self).entries@.update(
                        id as int - 1,
                        resolved_entry(old(self).entries@[id as int - 1], was_correct),
                    )
                    &&& final(self).oracle == (Oracle {
                        correct_predictions: (old(self).oracle.correct_predictions + if was_correct {
                            1int
                        } else {
                            0int
                        }) as u64,
                        ..old(self).oracle
                    })
                    &&& r is Ok
                    &&& r->Ok_0.id == id
                    &&& r->Ok_0.outcome == was_correct
                    &&& r->Ok_0.accuracy as int == accuracy_of(
                        final(self).oracle.prediction_count,
                        final(self).oracle.correct_predictions,
                    )
                },
            },
    {
        if !(caller == self.oracle.authority) {
            return Err(SibylError::Unauthorized);
        }
        if id == 0 || id > self.oracle.prediction_count {
            return Err(SibylError::InvalidPredictionId);
        }
        let stored: usize = self.entries.len();
        let idx: usize = (id - 1) as usize;
        proof {
            assert(id - 1 < stored);
            lemma_counts_bounded(self.entries@);
            if !self.entries@[idx as int].resolved {
                lemma_unresolved_keeps_slack(self.entries@, idx as int);
            }
        }
        let entry = &mut self.entries[idx];
        let r = ops::resolve_prediction(&mut self.oracle, entry, caller, id, was_correct, now);
        match r {
            Ok(event) => {
                proof {
                    lemma_counts_update(
                        old(self).entries@,
                        idx as int,
                        resolved_entry(old(self).entries@[idx as int], was_correct),
                    );
                    assert forall|i: int|
                        0 <= i < self.entries@.len() implies (#[trigger] self.entries@[i]).id
                        as int == i + 1 && entry_wf(self.entries@[i]) by {
                        if i != idx as int {
                            assert(self.entries@[i] == old(self).entries@[i]);
                        }
                    }
                }
                Ok(event)
            },
            Err(e) => {
                proof {
                    assert(self.entries@ =~= old(self).entries@);
                }
                Err(e)
            },
        }
    }

    /// `TransferAuthority` against the whole ledger: check the authority,
    /// then overwrite the authority; the entries and counters stay as
    /// they are.
    pub fn transfer_authority(&mut self, caller: Identity, new_authority: Identity) -> (r: Result<
        (),
        SibylError,
    >)
        requires
            old(self).wf(),
        ensures
            final(self).wf(),
            final(self).entries@ == old(self).entries@,
            match transfer_error(old(self).oracle, caller) {
                Some(e) => r == Err::<(), SibylError>(e) && final(self).oracle == old(
                    self,
                ).oracle,
                None => r is Ok && final(self).oracle == (Oracle {
                    authority: new_authority,
                    ..old(self).oracle
                }),
            },
    {
        ops::transfer_authority(&mut self.oracle, caller, new_authority)
    }

    /// The accuracy percentage the next resolution notification would
    /// report.
    pub fn accuracy(&self) -> (accuracy: u8)
        requires
            self.wf(),
        ensures
            accuracy as int == accuracy_of(
                self.oracle.prediction_count,
                self.oracle.correct_predictions,
            ),
            accuracy <= 100,
    {
        proof {
            lemma_counts_bounded(self.entries@);
        }
        ops::get_accuracy(&self.oracle)
    }
}

/// The registry counters never outrun the entries: the correct-counter is
/// at most the number of resolved entries, which is at most the number of
/// predictions ever issued.
pub proof fn lemma_counter_bounds(ledger: Ledger)
    requires
        ledger.wf(),
    ensures
        ledger.oracle.correct_predictions as nat <= count_resolved(ledger.entries@),
        count_resolved(ledger.entries@) <= ledger.oracle.prediction_count as nat,
{
    lemma_counts_bounded(ledger.entries@);
}

} // verus!
