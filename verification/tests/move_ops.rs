use imap_mailbox::moves::{count_successes, BatchMove, MoveAction, SingleMove};
use imap_mailbox::types::ImapError;

fn ids(names: &[&str]) -> Vec<String> {
    names.iter().map(|s| s.to_string()).collect()
}

#[test]
fn batch_expunge_failure_flips_only_previous_successes() {
    let mut mv = BatchMove::new(ids(&["A", "B", "C"]));
    // A: copy + delete succeed
    assert_eq!(mv.next_action(), MoveAction::Copy(0));
    mv.on_copy_result(None);
    assert_eq!(mv.next_action(), MoveAction::MarkDeleted(0));
    mv.on_delete_result(None);
    // B: copy + delete succeed
    assert_eq!(mv.next_action(), MoveAction::Copy(1));
    mv.on_copy_result(None);
    mv.on_delete_result(None);
    // C: copy fails
    assert_eq!(mv.next_action(), MoveAction::Copy(2));
    mv.on_copy_result(Some("boom".to_string()));
    // one shared expunge, which fails
    assert_eq!(mv.next_action(), MoveAction::Expunge);
    mv.on_expunge_result(Some("disk full".to_string()));
    assert_eq!(mv.next_action(), MoveAction::Finished);
    let outcomes = mv.finish();
    assert_eq!(outcomes.len(), 3);
    assert_eq!(outcomes[0].email_id, "A");
    assert!(!outcomes[0].success);
    assert_eq!(
        outcomes[0].error.as_deref(),
        Some("Flag operation failed: Expunge failed: disk full")
    );
    assert_eq!(outcomes[1].email_id, "B");
    assert!(!outcomes[1].success);
    assert_eq!(
        outcomes[1].error.as_deref(),
        Some("Flag operation failed: Expunge failed: disk full")
    );
    // C keeps its original error, not the expunge one
    assert_eq!(outcomes[2].email_id, "C");
    assert!(!outcomes[2].success);
    assert_eq!(outcomes[2].error.as_deref(), Some("Copy failed: boom"));
}

#[test]
fn batch_expunge_success_keeps_outcomes() {
    let mut mv = BatchMove::new(ids(&["1", "2"]));
    mv.on_copy_result(None);
    mv.on_delete_result(None);
    mv.on_copy_result(Some("nope".to_string()));
    assert_eq!(mv.next_action(), MoveAction::Expunge);
    mv.on_expunge_result(None);
    let outcomes = mv.finish();
    assert!(outcomes[0].success);
    assert_eq!(outcomes[0].error, None);
    assert!(!outcomes[1].success);
    assert_eq!(outcomes[1].error.as_deref(), Some("Copy failed: nope"));
}

#[test]
fn batch_delete_failure_records_reason_and_continues() {
    let mut mv = BatchMove::new(ids(&["a", "b"]));
    mv.on_copy_result(None);
    mv.on_delete_result(Some("locked".to_string()));
    // no delete succeeded for "a"; "b" succeeds fully
    assert_eq!(mv.next_action(), MoveAction::Copy(1));
    mv.on_copy_result(None);
    mv.on_delete_result(None);
    assert_eq!(mv.next_action(), MoveAction::Expunge);
    mv.on_expunge_result(None);
    let outcomes = mv.finish();
    assert!(!outcomes[0].success);
    assert_eq!(
        outcomes[0].error.as_deref(),
        Some("Flag operation failed: Delete flag failed: locked")
    );
    assert!(outcomes[1].success);
}

#[test]
fn batch_without_any_delete_skips_expunge() {
    let mut mv = BatchMove::new(ids(&["only"]));
    mv.on_copy_result(Some("denied".to_string()));
    assert_eq!(mv.next_action(), MoveAction::Finished);
    let outcomes = mv.finish();
    assert_eq!(outcomes.len(), 1);
    assert!(!outcomes[0].success);
}

#[test]
fn single_move_runs_copy_delete_expunge() {
    let mut mv = SingleMove::new();
    mv.advance(None);
    mv.advance(None);
    mv.advance(None);
    assert!(mv.outcome().is_ok());
}

#[test]
fn single_move_aborts_on_delete_failure() {
    let mut mv = SingleMove::new();
    mv.advance(None);
    mv.advance(Some("x".to_string()));
    match mv.outcome() {
        Err(e) => {
            assert!(matches!(e, ImapError::FlagOperation(_)));
            assert_eq!(e.message(), "Flag operation failed: Delete flag failed: x");
        }
        Ok(_) => panic!("expected the move to fail"),
    }
}

#[test]
fn single_move_copy_failure_message() {
    let mut mv = SingleMove::new();
    mv.advance(Some("refused".to_string()));
    match mv.outcome() {
        Err(e) => assert_eq!(e.message(), "Flag operation failed: Copy failed: refused"),
        Ok(_) => panic!("expected the move to fail"),
    }
}

#[test]
fn success_count_counts_only_successes() {
    let mut mv = BatchMove::new(ids(&["p", "q", "r"]));
    mv.on_copy_result(None);
    mv.on_delete_result(None);
    mv.on_copy_result(Some("e1".to_string()));
    mv.on_copy_result(None);
    mv.on_delete_result(None);
    mv.on_expunge_result(None);
    let outcomes = mv.finish();
    assert_eq!(count_successes(&outcomes), 2);
}
