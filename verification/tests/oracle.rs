//! End-to-end tests of the prediction ledger through its public surface.

use sibyl_oracle::ledger::Ledger;
use sibyl_oracle::ops;
use sibyl_oracle::state::Identity;
use sibyl_oracle::state::Oracle;
use sibyl_oracle::state::Prediction;
use sibyl_oracle::state::SibylError;

fn ident(n: u64) -> Identity {
    Identity { w0: n, w1: 0, w2: 0, w3: 0 }
}

const NOW: i64 = 1_000_000;
const HOUR: i64 = 3600;

fn ledger_with_authority() -> (Ledger, Identity) {
    let authority = ident(7);
    (Ledger::initialize(authority), authority)
}

#[test]
fn initialize_sets_authority_and_zero_counters() {
    let authority = ident(42);
    let ledger = Ledger::initialize(authority);
    assert_eq!(ledger.oracle.authority, authority);
    assert_eq!(ledger.oracle.prediction_count, 0);
    assert_eq!(ledger.oracle.correct_predictions, 0);
    assert_eq!(ledger.entries.len(), 0);
}

#[test]
fn create_increments_count_and_assigns_id() {
    let (mut ledger, authority) = ledger_with_authority();
    let event = ledger
        .create_prediction(authority, "it will rain".to_string(), 60, 24, NOW)
        .unwrap();
    assert_eq!(ledger.oracle.prediction_count, 1);
    assert_eq!(event.id, 1);
    assert_eq!(ledger.entries[0].id, 1);

    let event = ledger
        .create_prediction(authority, "it will snow".to_string(), 10, 1, NOW)
        .unwrap();
    assert_eq!(ledger.oracle.prediction_count, 2);
    assert_eq!(event.id, 2);
    assert_eq!(ledger.entries[1].id, 2);
}

#[test]
fn create_populates_entry_and_event() {
    let (mut ledger, authority) = ledger_with_authority();
    let event = ledger
        .create_prediction(authority, "the vote passes".to_string(), 85, 48, NOW)
        .unwrap();
    assert_eq!(event.statement, "the vote passes");
    assert_eq!(event.confidence, 85);
    assert_eq!(event.deadline, NOW + 48 * HOUR);

    let entry = &ledger.entries[0];
    assert_eq!(entry.statement, "the vote passes");
    assert_eq!(entry.confidence, 85);
    assert_eq!(entry.deadline, NOW + 48 * HOUR);
    assert_eq!(entry.created_at, NOW);
    assert!(!entry.resolved);
    assert!(!entry.outcome);
}

#[test]
fn confidence_bounds() {
    let (mut ledger, authority) = ledger_with_authority();
    assert!(ledger
        .create_prediction(authority, "low".to_string(), 0, 1, NOW)
        .is_ok());
    assert!(ledger
        .create_prediction(authority, "high".to_string(), 100, 1, NOW)
        .is_ok());
    let err = ledger
        .create_prediction(authority, "over".to_string(), 101, 1, NOW)
        .unwrap_err();
    assert_eq!(err, SibylError::InvalidConfidence);
    assert_eq!(ledger.oracle.prediction_count, 2);
}

#[test]
fn deadline_hours_bounds() {
    let (mut ledger, authority) = ledger_with_authority();
    let err = ledger
        .create_prediction(authority, "at once".to_string(), 50, 0, NOW)
        .unwrap_err();
    assert_eq!(err, SibylError::InvalidDeadline);
    assert_eq!(ledger.oracle.prediction_count, 0);

    let event = ledger
        .create_prediction(authority, "one hour".to_string(), 50, 1, NOW)
        .unwrap();
    assert_eq!(event.deadline, NOW + HOUR);
    assert_eq!(ledger.entries[0].created_at, NOW);
    assert_eq!(ledger.entries[0].deadline, ledger.entries[0].created_at + HOUR);
}

#[test]
fn statement_of_280_chars_fits_281_does_not() {
    let (mut ledger, authority) = ledger_with_authority();
    let exact = "x".repeat(280);
    assert!(ledger
        .create_prediction(authority, exact, 50, 1, NOW)
        .is_ok());

    let over = "x".repeat(281);
    let err = ledger
        .create_prediction(authority, over, 50, 1, NOW)
        .unwrap_err();
    assert_eq!(err, SibylError::StatementTooLong);
    assert_eq!(ledger.oracle.prediction_count, 1);
}

#[test]
fn statement_limit_counts_characters_not_bytes() {
    let (mut ledger, authority) = ledger_with_authority();
    // 280 two-byte characters: 560 bytes, but within the character limit.
    let wide = "\u{e9}".repeat(280);
    assert!(ledger
        .create_prediction(authority, wide, 50, 1, NOW)
        .is_ok());
    let err = ledger
        .create_prediction(authority, "\u{e9}".repeat(281), 50, 1, NOW)
        .unwrap_err();
    assert_eq!(err, SibylError::StatementTooLong);
}

#[test]
fn resolve_respects_deadline_boundary() {
    let (mut ledger, authority) = ledger_with_authority();
    ledger
        .create_prediction(authority, "deadline test".to_string(), 50, 1, NOW)
        .unwrap();
    let deadline = NOW + HOUR;

    let err = ledger
        .resolve_prediction(authority, 1, true, deadline - 1)
        .unwrap_err();
    assert_eq!(err, SibylError::DeadlineNotReached);
    assert!(!ledger.entries[0].resolved);

    let event = ledger.resolve_prediction(authority, 1, true, deadline).unwrap();
    assert_eq!(event.id, 1);
    assert!(event.outcome);
    assert!(ledger.entries[0].resolved);
    assert!(ledger.entries[0].outcome);
}

#[test]
fn resolve_twice_fails_regardless_of_outcome() {
    let (mut ledger, authority) = ledger_with_authority();
    ledger
        .create_prediction(authority, "once only".to_string(), 50, 1, NOW)
        .unwrap();
    let later = NOW + 2 * HOUR;
    ledger.resolve_prediction(authority, 1, true, later).unwrap();

    let err = ledger.resolve_prediction(authority, 1, true, later).unwrap_err();
    assert_eq!(err, SibylError::AlreadyResolved);
    let err = ledger
        .resolve_prediction(authority, 1, false, later + HOUR)
        .unwrap_err();
    assert_eq!(err, SibylError::AlreadyResolved);
    assert_eq!(ledger.oracle.correct_predictions, 1);
}

#[test]
fn resolve_unknown_id_is_rejected() {
    let (mut ledger, authority) = ledger_with_authority();
    ledger
        .create_prediction(authority, "known".to_string(), 50, 1, NOW)
        .unwrap();
    let later = NOW + 2 * HOUR;

    let err = ledger.resolve_prediction(authority, 0, true, later).unwrap_err();
    assert_eq!(err, SibylError::InvalidPredictionId);
    let err = ledger.resolve_prediction(authority, 7, true, later).unwrap_err();
    assert_eq!(err, SibylError::InvalidPredictionId);
}

#[test]
fn resolve_checks_stored_id_against_supplied_id() {
    let mut oracle = ops::initialize(ident(7));
    let mut entry = Prediction {
        id: 3,
        statement: "mismatch".to_string(),
        confidence: 50,
        deadline: NOW + HOUR,
        resolved: false,
        outcome: false,
        created_at: NOW,
    };
    oracle.prediction_count = 5;
    let err = ops::resolve_prediction(&mut oracle, &mut entry, ident(7), 4, true, NOW + 2 * HOUR)
        .unwrap_err();
    assert_eq!(err, SibylError::InvalidPredictionId);
    assert!(!entry.resolved);
}

#[test]
fn stranger_is_refused_every_guarded_operation() {
    let (mut ledger, authority) = ledger_with_authority();
    ledger
        .create_prediction(authority, "guarded".to_string(), 50, 1, NOW)
        .unwrap();
    let stranger = ident(8);
    let later = NOW + 2 * HOUR;

    let err = ledger
        .create_prediction(stranger, "no".to_string(), 50, 1, NOW)
        .unwrap_err();
    assert_eq!(err, SibylError::Unauthorized);
    let err = ledger.resolve_prediction(stranger, 1, true, later).unwrap_err();
    assert_eq!(err, SibylError::Unauthorized);
    let err = ledger.transfer_authority(stranger, stranger).unwrap_err();
    assert_eq!(err, SibylError::Unauthorized);
    assert_eq!(ledger.oracle.authority, authority);
    assert_eq!(ledger.oracle.prediction_count, 1);
}

#[test]
fn transfer_switches_the_guard() {
    let (mut ledger, old_authority) = ledger_with_authority();
    let new_authority = ident(9);
    ledger.transfer_authority(old_authority, new_authority).unwrap();
    assert_eq!(ledger.oracle.authority, new_authority);

    let err = ledger
        .create_prediction(old_authority, "stale".to_string(), 50, 1, NOW)
        .unwrap_err();
    assert_eq!(err, SibylError::Unauthorized);
    let err = ledger.transfer_authority(old_authority, old_authority).unwrap_err();
    assert_eq!(err, SibylError::Unauthorized);

    assert!(ledger
        .create_prediction(new_authority, "fresh".to_string(), 50, 1, NOW)
        .is_ok());
    let later = NOW + 2 * HOUR;
    assert!(ledger.resolve_prediction(new_authority, 1, false, later).is_ok());
}

#[test]
fn accuracy_one_of_four_resolved_correct_is_25() {
    let (mut ledger, authority) = ledger_with_authority();
    for i in 0..4 {
        ledger
            .create_prediction(authority, format!("p{}", i), 50, 1, NOW)
            .unwrap();
    }
    assert_eq!(ledger.oracle.prediction_count, 4);
    let event = ledger
        .resolve_prediction(authority, 1, true, NOW + 2 * HOUR)
        .unwrap();
    assert_eq!(event.accuracy, 25);
    assert_eq!(ledger.oracle.correct_predictions, 1);
}

#[test]
fn accuracy_with_no_predictions_is_0() {
    let oracle = ops::initialize(ident(1));
    assert_eq!(ops::get_accuracy(&oracle), 0);
    let ledger = Ledger::initialize(ident(1));
    assert_eq!(ledger.accuracy(), 0);
}

#[test]
fn accuracy_with_no_correct_resolutions_is_0() {
    let (mut ledger, authority) = ledger_with_authority();
    ledger
        .create_prediction(authority, "wrong".to_string(), 50, 1, NOW)
        .unwrap();
    let event = ledger
        .resolve_prediction(authority, 1, false, NOW + 2 * HOUR)
        .unwrap();
    assert_eq!(event.accuracy, 0);
    assert_eq!(ledger.accuracy(), 0);
}

#[test]
fn accuracy_rounds_down() {
    let (mut ledger, authority) = ledger_with_authority();
    for i in 0..3 {
        ledger
            .create_prediction(authority, format!("p{}", i), 50, 1, NOW)
            .unwrap();
    }
    let later = NOW + 2 * HOUR;
    ledger.resolve_prediction(authority, 1, true, later).unwrap();
    let event = ledger.resolve_prediction(authority, 2, true, later).unwrap();
    assert_eq!(event.accuracy, 66);
    assert_eq!(ledger.accuracy(), 66);
}

#[test]
fn incorrect_resolution_does_not_move_correct_counter() {
    let (mut ledger, authority) = ledger_with_authority();
    ledger
        .create_prediction(authority, "a".to_string(), 50, 1, NOW)
        .unwrap();
    ledger
        .create_prediction(authority, "b".to_string(), 50, 1, NOW)
        .unwrap();
    let later = NOW + 2 * HOUR;
    ledger.resolve_prediction(authority, 1, false, later).unwrap();
    assert_eq!(ledger.oracle.correct_predictions, 0);
    ledger.resolve_prediction(authority, 2, true, later).unwrap();
    assert_eq!(ledger.oracle.correct_predictions, 1);
}

#[test]
fn direct_operations_mirror_the_ledger() {
    let authority = ident(7);
    let mut oracle: Oracle = ops::initialize(authority);
    let (mut entry, event) =
        ops::create_prediction(&mut oracle, authority, "direct".to_string(), 75, 2, NOW).unwrap();
    assert_eq!(oracle.prediction_count, 1);
    assert_eq!(entry.id, 1);
    assert_eq!(event.id, 1);
    assert_eq!(event.statement, "direct");
    assert_eq!(event.deadline, NOW + 2 * HOUR);

    let resolved = ops::resolve_prediction(
        &mut oracle,
        &mut entry,
        authority,
        1,
        true,
        NOW + 2 * HOUR,
    )
    .unwrap();
    assert!(entry.resolved);
    assert!(entry.outcome);
    assert_eq!(oracle.correct_predictions, 1);
    assert_eq!(resolved.accuracy, 100);

    ops::transfer_authority(&mut oracle, authority, ident(11)).unwrap();
    assert_eq!(oracle.authority, ident(11));
}
