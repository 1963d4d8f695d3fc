//! The four operations of the prediction ledger, acting on the records the
//! host hands over: the registry and, for resolution, one entry.
//!
//! Each operation validates in a fixed order — the authority check first,
//! then the data checks — and either applies its whole transition or
//! returns the first failing check's error with nothing changed. The spec
//! functions `create_error`, `resolve_error` and `transfer_error` name
//! that first failing check; each operation's contract is exact over them.

use vstd::prelude::*;

use crate::state::Identity;
use crate::state::Oracle;
use crate::state::Prediction;
use crate::state::PredictionCreated;
use crate::state::PredictionResolved;
use crate::state::SibylError;
use crate::state::SECONDS_PER_HOUR;
use crate::state::resolved_entry;
use vstd::arithmetic::div_mod::lemma_div_is_ordered;
use vstd::arithmetic::div_mod::lemma_div_multiples_vanish;
use vstd::arithmetic::mul::lemma_mul_inequality;

verus! {

broadcast use vstd::string::group_string_axioms;

/// The validation outcome of `create_prediction`: the first failing check,
/// or `None` when the operation succeeds.
pub open spec fn create_error(
    oracle: Oracle,
    caller: Identity,
    confidence: u8,
    deadline_hours: u8,
) -> Option<SibylError> {
    if caller != oracle.authority {
        Some(SibylError::Unauthorized)
    } else if confidence > 100 {
        Some(SibylError::InvalidConfidence)
    } else if deadline_hours == 0 {
        Some(SibylError::InvalidDeadline)
    } else {
        None
    }
}

/// The validation outcome of `resolve_prediction`: the first failing
/// check, or `None` when the operation succeeds.
pub open spec fn resolve_error(
    oracle: Oracle,
    entry: Prediction,
    caller: Identity,
    id: u64,
    now: i64,
) -> Option<SibylError> {
    if caller != oracle.authority {
        Some(SibylError::Unauthorized)
    } else if entry.id != id {
        Some(SibylError::InvalidPredictionId)
    } else if entry.resolved {
        Some(SibylError::AlreadyResolved)
    } else if now < entry.deadline {
        Some(SibylError::DeadlineNotReached)
    } else {
        None
    }
}

/// The validation outcome of `transfer_authority`.
pub open spec fn transfer_error(oracle: Oracle, caller: Identity) -> Option<SibylError> {
    if caller != oracle.authority {
        Some(SibylError::Unauthorized)
    } else {
        None
    }
}

/// The deadline an entry created at `now` with `deadline_hours` gets.
pub open spec fn deadline_at(now: i64, deadline_hours: u8) -> int {
    now as int + (deadline_hours as int) * (SECONDS_PER_HOUR as int)
}

/// The fields a freshly created entry holds.
pub open spec fn entry_matches(
    p: Prediction,
    id: u64,
    statement: Seq<char>,
    confidence: u8,
    deadline_hours: u8,
    now: i64,
) -> bool {
    &&& p.id == id
    &&& p.statement@ == statement
    &&& p.confidence == confidence
    &&& p.deadline as int == deadline_at(now, deadline_hours)
    &&& !p.resolved
    &&& !p.outcome
    &&& p.created_at == now
}

/// The creation notification carries the new entry's data verbatim.
pub open spec fn created_event_matches(ev: PredictionCreated, p: Prediction) -> bool {
    &&& ev.id == p.id
    &&& ev.statement@ == p.statement@
    &&& ev.confidence == p.confidence
    &&& ev.deadline == p.deadline
}

/// The accuracy percentage derived from the registry counters: 0 while no
/// prediction was issued or none resolved correct, else
/// `floor(correct * 100 / issued)`.
///
/// The divisor is the number of predictions ever issued, not the number
/// resolved, so the figure under-reports accuracy while unresolved
/// entries exist; the formula is kept exactly as stated.
pub open spec fn accuracy_of(prediction_count: u64, correct_predictions: u64) -> int {
    if prediction_count == 0 {
        0
    } else if correct_predictions == 0 {
        0
    } else {
        (correct_predictions as int * 100) / (prediction_count as int)
    }
}

/// `Initialize`: fill the freshly allocated registry record. The host's
/// storage layer guarantees the allocation happens at most once at the
/// registry's canonical address.
pub fn initialize(caller: Identity) -> (oracle: Oracle)
    ensures
        oracle == (Oracle { authority: caller, prediction_count: 0, correct_predictions: 0 }),
{
    Oracle { authority: caller, prediction_count: 0, correct_predictions: 0 }
}

/// The accuracy percentage of `accuracy_of`, as the resolution
/// notification reports it.
pub fn get_accuracy(oracle: &Oracle) -> (accuracy: u8)
    requires
        oracle.correct_predictions <= oracle.prediction_count,
    ensures
        accuracy as int == accuracy_of(oracle.prediction_count, oracle.correct_predictions),
        accuracy <= 100,
{
    if oracle.prediction_count == 0 {
        return 0;
    }
    if oracle.correct_predictions == 0 {
        return 0;
    }
    let numerator: u128 = (oracle.correct_predictions as u128) * 100;
    let quotient: u128 = numerator / (oracle.prediction_count as u128);
    proof {
        let c = oracle.correct_predictions as int;
        let n = oracle.prediction_count as int;
        lemma_mul_inequality(c, n, 100);
        lemma_div_is_ordered(c * 100, n * 100, n);
        lemma_div_multiples_vanish(100, n);
        assert(quotient as int == (c * 100) / n);
        assert((c * 100) / n <= 100);
    }
    quotient as u8
}

/// `CreatePrediction`: validate, advance the registry counter, and hand
/// back the new entry together with its creation notification. The host
/// stores the entry at the address derived from its id and appends the
/// notification to the event log.
pub fn create_prediction(
    oracle: &mut Oracle,
    caller: Identity,
    statement: String,
    confidence: u8,
    deadline_hours: u8,
    now: i64,
) -> (r: Result<(Prediction, PredictionCreated), SibylError>)
    requires
        create_error(*old(oracle), caller, confidence, deadline_hours) is None ==> {
            &&& old(oracle).prediction_count < u64::MAX
            &&& deadline_at(now, deadline_hours) <= i64::MAX
        },
    ensures
        match create_error(*old(oracle), caller, confidence, deadline_hours) {
            Some(e) => r == Err::<(Prediction, PredictionCreated), SibylError>(e)
                && *final(oracle) == *old(oracle),
            None => {
                &&& r is Ok
                &&& *final(oracle) == (Oracle {
                    prediction_count: (old(oracle).prediction_count + 1) as u64,
                    ..*old(oracle)
                })
                &&& entry_matches(
                    r->Ok_0.0,
                    final(oracle).prediction_count,
                    statement@,
                    confidence,
                    deadline_hours,
                    now,
                )
                &&& created_event_matches(r->Ok_0.1, r->Ok_0.0)
            },
        },
{
    if !(caller == oracle.authority) {
        return Err(SibylError::Unauthorized);
    }
    if confidence > 100 {
        return Err(SibylError::InvalidConfidence);
    }
    if deadline_hours == 0 {
        return Err(SibylError::InvalidDeadline);
    }
    oracle.prediction_count = oracle.prediction_count + 1;
    let id: u64 = oracle.prediction_count;
    let deadline: i64 = now + (deadline_hours as i64) * SECONDS_PER_HOUR;
    let event_statement: String = statement.as_str().to_string();
    let entry = Prediction {
        id,
        statement,
        confidence,
        deadline,
        resolved: false,
        outcome: false,
        created_at: now,
    };
    let event = PredictionCreated { id, statement: event_statement, confidence, deadline };
    Ok((entry, event))
}

/// `ResolvePrediction`: validate, mark the entry resolved with the given
/// outcome, count it when correct, and hand back the resolution
/// notification for the host's event log.
///
/// The registry must be consistent: its correct-counter cannot exceed its
/// issued-counter, strictly so while an unresolved entry exists (the
/// ledger's invariant supplies both).
pub fn resolve_prediction(
    oracle: &mut Oracle,
    entry: &mut Prediction,
    caller: Identity,
    id: u64,
    was_correct: bool,
    now: i64,
) -> (r: Result<PredictionResolved, SibylError>)
    requires
        old(oracle).correct_predictions <= old(oracle).prediction_count,
        resolve_error(*old(oracle), *old(entry), caller, id, now) is None && was_correct
            ==> old(oracle).correct_predictions < old(oracle).prediction_count,
    ensures
        match resolve_error(*old(oracle), *old(entry), caller, id, now) {
            Some(e) => {
                &&& r == Err::<PredictionResolved, SibylError>(e)
                &&& *final(oracle) == *old(oracle)
                &&& *final(entry) == *old(entry)
            },
            None => {
                &&& *final(entry) == resolved_entry(*old(entry), was_correct)
                &&& *final(oracle) == (Oracle {
                    correct_predictions: (old(oracle).correct_predictions
                        + if was_correct { 1int } else { 0int }) as u64,
                    ..*old(oracle)
                })
                &&& r is Ok
                &&& r->Ok_0.id == id
                &&& r->Ok_0.outcome == was_correct
                &&& r->Ok_0.accuracy as int == accuracy_of(
                    final(oracle).prediction_count,
                    final(oracle).correct_predictions,
                )
            },
        },
{
    if !(caller == oracle.authority) {
        return Err(SibylError::Unauthorized);
    }
    if entry.id != id {
        return Err(SibylError::InvalidPredictionId);
    }
    if entry.resolved {
        return Err(SibylError::AlreadyResolved);
    }
    if now < entry.deadline {
        return Err(SibylError::DeadlineNotReached);
    }
    entry.resolved = true;
    entry.outcome = was_correct;
    if was_correct {
        oracle.correct_predictions = oracle.correct_predictions + 1;
    }
    let registry: Oracle = *oracle;
    let accuracy: u8 = get_accuracy(&registry);
    Ok(PredictionResolved { id, outcome: was_correct, accuracy })
}

/// `TransferAuthority`: check the authority, then overwrite the authority
/// unconditionally; nothing checks that the new identity differs from the
/// current one.
pub fn transfer_authority(
    oracle: &mut Oracle,
    caller: Identity,
    new_authority: Identity,
) -> (r: Result<(), SibylError>)
    ensures
        match transfer_error(*old(oracle), caller) {
            Some(e) => r == Err::<(), SibylError>(e) && *final(oracle) == *old(oracle),
            None => r is Ok && *final(oracle) == (Oracle {
                authority: new_authority,
                ..*old(oracle)
            }),
        },
{
    if !(caller == oracle.authority) {
        return Err(SibylError::Unauthorized);
    }
    oracle.authority = new_authority;
    Ok(())
}

} // verus!
