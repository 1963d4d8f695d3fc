//! Laws of the ledger that relate several operations or several calls,
//! stated over the same spec functions the operations' contracts use and
//! proved once for all inputs.

use vstd::prelude::*;

use crate::ledger::Ledger;
use crate::ops::transfer_error;
use crate::state::Identity;
use crate::state::SibylError;
use crate::state::resolved_entry;

verus! {

/// Resolution is not idempotent: once a resolution of `id` has gone
/// through — leaving the ledger in the state its contract describes —
/// a second resolution of the same `id` by the authority fails with
/// `AlreadyResolved`, at any later (or earlier) time and whatever outcome
/// either call carries.
pub proof fn lemma_resolution_not_idempotent(
    before: Ledger,
    after: Ledger,
    caller: Identity,
    id: u64,
    was_correct: bool,
    now_first: i64,
    now_second: i64,
)
    requires
        before.wf(),
        before.resolve_error(caller, id, now_first) is None,
        after.oracle.authority == before.oracle.authority,
        after.oracle.prediction_count == before.oracle.prediction_count,
        after.entries@ == before.entries@.update(
            id as int - 1,
            resolved_entry(before.entries@[id as int - 1], was_correct),
        ),
    ensures
        after.resolve_error(caller, id, now_second) == Some(SibylError::AlreadyResolved),
{
}

/// Every guarded operation is refused to any caller other than the current
/// authority, whatever the rest of its arguments: the authority check is the first
/// check of creation, resolution and transfer alike.
pub proof fn lemma_operations_require_authority(
    ledger: Ledger,
    caller: Identity,
    statement: Seq<char>,
    confidence: u8,
    deadline_hours: u8,
    id: u64,
    now: i64,
)
    requires
        caller != ledger.oracle.authority,
    ensures
        ledger.create_error(caller, statement, confidence, deadline_hours) == Some(
            SibylError::Unauthorized,
        ),
        ledger.resolve_error(caller, id, now) == Some(SibylError::Unauthorized),
        transfer_error(ledger.oracle, caller) == Some(SibylError::Unauthorized),
{
}

/// After a transfer to a distinct identity, the previous authority is
/// refused every guarded operation, while the new authority passes the
/// authority check of each (its calls can still fail the data checks,
/// but never as `Unauthorized`).
pub proof fn lemma_transfer_switches_authority(
    after: Ledger,
    previous_authority: Identity,
    new_authority: Identity,
    statement: Seq<char>,
    confidence: u8,
    deadline_hours: u8,
    id: u64,
    now: i64,
)
    requires
        after.oracle.authority == new_authority,
        previous_authority != new_authority,
    ensures
        after.create_error(previous_authority, statement, confidence, deadline_hours) == Some(
            SibylError::Unauthorized,
        ),
        after.resolve_error(previous_authority, id, now) == Some(SibylError::Unauthorized),
        transfer_error(after.oracle, previous_authority) == Some(SibylError::Unauthorized),
        after.create_error(new_authority, statement, confidence, deadline_hours) != Some(
            SibylError::Unauthorized,
        ),
        after.resolve_error(new_authority, id, now) != Some(SibylError::Unauthorized),
        transfer_error(after.oracle, new_authority) is None,
{
}

} // verus!
