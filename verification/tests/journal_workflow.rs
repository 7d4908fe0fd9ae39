use accounting_core::entity::journal_status::JournalStatus;
use accounting_core::journal_workflow::{
    check_voidable, next_status, state_error, void_request, JournalWorkflowError, WorkflowAction,
};
use accounting_core::posting::PostingError;

#[test]
fn lifecycle_transitions() {
    assert_eq!(next_status(JournalStatus::Draft, WorkflowAction::Submit), Some(JournalStatus::PendingApproval));
    assert_eq!(next_status(JournalStatus::PendingApproval, WorkflowAction::Approve), Some(JournalStatus::Approved));
    assert_eq!(next_status(JournalStatus::Approved, WorkflowAction::Post), Some(JournalStatus::Posted));
    assert_eq!(next_status(JournalStatus::Posted, WorkflowAction::Void), Some(JournalStatus::Voided));
    assert_eq!(next_status(JournalStatus::Draft, WorkflowAction::Reject), Some(JournalStatus::Rejected));
    assert_eq!(next_status(JournalStatus::Draft, WorkflowAction::Approve), None);
    assert_eq!(next_status(JournalStatus::Voided, WorkflowAction::Void), None);
    assert_eq!(next_status(JournalStatus::Rejected, WorkflowAction::Submit), None);
}

#[test]
fn void_guard() {
    assert!(matches!(check_voidable(5, None), Err(JournalWorkflowError::NotFound(5))));
    assert!(check_voidable(5, Some("posted".into())).is_ok());
    match check_voidable(5, Some("draft".into())) {
        Err(JournalWorkflowError::InvalidState { id, current, expected }) => {
            assert_eq!((id, current.as_str(), expected), (5, "draft", "posted"));
        }
        _ => panic!("expected InvalidState"),
    }
}

#[test]
fn state_errors_and_codes() {
    let e = state_error(3, None, "draft");
    assert_eq!(e.code(), "journal_not_found");
    assert_eq!(e.http_status(), 404);
    let e = state_error(3, Some("approved".into()), "draft");
    assert_eq!(e.code(), "invalid_journal_state");
    assert_eq!(e.http_status(), 422);
    assert_eq!(JournalWorkflowError::Posting(PostingError::Db("x".into())).http_status(), 500);
    assert_eq!(JournalWorkflowError::Posting(PostingError::Unbalanced).code(), "posting_error");
}

#[test]
fn void_request_shape() {
    let r = void_request(1, 2, "IDR".into(), 9, 739000, "duplicate");
    assert_eq!(r.posting_type, "reversal");
    assert_eq!(r.source_type, "manual");
    assert_eq!(r.reverses_post_id, Some(9));
    assert_eq!(
        r.description.as_deref(),
        Some("Void of journal 00000000-0000-0000-0000-000000000002: duplicate")
    );
    assert_eq!(r.idempotency_key.as_deref(), Some("void:00000000-0000-0000-0000-000000000002"));
    assert!(r.lines.is_empty());
}
