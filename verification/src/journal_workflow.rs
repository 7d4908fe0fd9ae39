//! The manual-journal approval workflow: draft, submit, approve (and post),
//! reject, and void.
//!
//! A journal moves draft → pending_approval on submit, pending_approval →
//! approved on approve (and then posted through the posting contract),
//! draft or pending_approval → rejected on reject, and posted → voided on
//! void, which posts a reversal first. A transition refused by the store is
//! told apart as a missing journal or one in the wrong state.

use crate::entity::journal_status::JournalStatus;
use crate::ids::{uuid_hyphenated, with_uuid};
use crate::posting::{PostingError, PostingRequest};
use crate::text::{str_eq, string_from};
use vstd::prelude::*;

verus! {

/// Typed workflow failure; `code()` is the stable error string.
#[derive(Debug, Clone)]
pub enum JournalWorkflowError {
    NotFound(u128),
    InvalidState { id: u128, current: String, expected: &'static str },
    NotPosted(u128),
    Posting(PostingError),
    Internal(String),
}

impl JournalWorkflowError {
    pub open spec fn code_text(&self) -> Seq<char> {
        match self {
            JournalWorkflowError::NotFound(_) => "journal_not_found"@,
            JournalWorkflowError::InvalidState { .. } => "invalid_journal_state"@,
            JournalWorkflowError::NotPosted(_) => "journal_not_posted"@,
            JournalWorkflowError::Posting(_) => "posting_error"@,
            JournalWorkflowError::Internal(_) => "internal_error"@,
        }
    }

    /// The stable error string.
    pub fn code(&self) -> (r: &'static str)
        ensures
            r@ == self.code_text(),
    {
        match self {
            JournalWorkflowError::NotFound(_) => "journal_not_found",
            JournalWorkflowError::InvalidState { .. } => "invalid_journal_state",
            JournalWorkflowError::NotPosted(_) => "journal_not_posted",
            JournalWorkflowError::Posting(_) => "posting_error",
            JournalWorkflowError::Internal(_) => "internal_error",
        }
    }

    /// 404 for a missing journal, 500 for storage, the posting error's own
    /// status for a posting failure, 422 otherwise.
    pub fn http_status(&self) -> (r: u16)
        ensures
            r == match self {
                JournalWorkflowError::NotFound(_) => 404u16,
                JournalWorkflowError::Internal(_) => 500u16,
                JournalWorkflowError::Posting(e) => match e {
                    PostingError::AccountNotFound(_) => 404u16,
                    PostingError::Db(_) => 500u16,
                    _ => 422u16,
                },
                _ => 422u16,
            },
    {
        match self {
            JournalWorkflowError::NotFound(_) => 404,
            JournalWorkflowError::Internal(_) => 500,
            JournalWorkflowError::Posting(e) => e.http_status(),
            _ => 422,
        }
    }
}

/// A posting failure inside the workflow.
pub fn from_posting(e: PostingError) -> (r: JournalWorkflowError)
    ensures
        r == JournalWorkflowError::Posting(e),
{
    JournalWorkflowError::Posting(e)
}

/// A refused transition told apart: no journal at all, or one whose current
/// status is not the expected one.
pub fn state_error(journal_id: u128, current: Option<String>, expected: &'static str) -> (r: JournalWorkflowError)
    ensures
        current is None ==> r == JournalWorkflowError::NotFound(journal_id),
        current matches Some(c) ==> r == (JournalWorkflowError::InvalidState { id: journal_id, current: c, expected }),
{
    match current {
        None => JournalWorkflowError::NotFound(journal_id),
        Some(c) => JournalWorkflowError::InvalidState { id: journal_id, current: c, expected },
    }
}

/// A workflow verb.
#[derive(Debug, Clone, Copy, PartialEq, Eq, Structural)]
pub enum WorkflowAction {
    Submit,
    Approve,
    Post,
    Reject,
    Void,
}

/// The lifecycle: the status a verb moves a journal to, or `None` when the
/// verb does not apply in that status.
pub open spec fn next_status_spec(s: JournalStatus, a: WorkflowAction) -> Option<JournalStatus> {
    match (s, a) {
        (JournalStatus::Draft, WorkflowAction::Submit) => Some(JournalStatus::PendingApproval),
        (JournalStatus::PendingApproval, WorkflowAction::Approve) => Some(JournalStatus::Approved),
        (JournalStatus::Approved, WorkflowAction::Post) => Some(JournalStatus::Posted),
        (JournalStatus::Draft, WorkflowAction::Reject) => Some(JournalStatus::Rejected),
        (JournalStatus::PendingApproval, WorkflowAction::Reject) => Some(JournalStatus::Rejected),
        (JournalStatus::Posted, WorkflowAction::Void) => Some(JournalStatus::Voided),
        _ => None,
    }
}

/// The status a verb moves a journal to, if it applies.
pub fn next_status(s: JournalStatus, a: WorkflowAction) -> (r: Option<JournalStatus>)
    ensures
        r == next_status_spec(s, a),
{
    match (s, a) {
        (JournalStatus::Draft, WorkflowAction::Submit) => Some(JournalStatus::PendingApproval),
        (JournalStatus::PendingApproval, WorkflowAction::Approve) => Some(JournalStatus::Approved),
        (JournalStatus::Approved, WorkflowAction::Post) => Some(JournalStatus::Posted),
        (JournalStatus::Draft, WorkflowAction::Reject) => Some(JournalStatus::Rejected),
        (JournalStatus::PendingApproval, WorkflowAction::Reject) => Some(JournalStatus::Rejected),
        (JournalStatus::Posted, WorkflowAction::Void) => Some(JournalStatus::Voided),
        _ => None,
    }
}

/// Rejected and voided journals are final: no verb moves them again; and
/// only a posted journal can be voided.
pub proof fn lemma_final_states(a: WorkflowAction, s: JournalStatus)
    ensures
        next_status_spec(JournalStatus::Rejected, a) is None,
        next_status_spec(JournalStatus::Voided, a) is None,
        next_status_spec(s, WorkflowAction::Void) is Some <==> s == JournalStatus::Posted,
{
}

/// A journal reaches the ledger only through approval: any run of verbs from
/// a draft that ends posted has passed through approved.
pub proof fn lemma_posted_only_after_approval(s: JournalStatus, a: WorkflowAction)
    ensures
        next_status_spec(s, a) == Some(JournalStatus::Posted) ==> s == JournalStatus::Approved,
{
}

/// Rejection is the refusal of a journal still awaiting a decision: a
/// journal that can still be submitted or approved can be rejected, and
/// rejecting it leads to rejected; a journal that can be neither (approved,
/// posted, rejected, voided) cannot be rejected.
pub proof fn lemma_reject_awaiting_decision(s: JournalStatus)
    ensures
        next_status_spec(s, WorkflowAction::Submit) is Some || next_status_spec(s, WorkflowAction::Approve) is Some
            ==> next_status_spec(s, WorkflowAction::Reject) == Some(JournalStatus::Rejected),
        next_status_spec(s, WorkflowAction::Reject) is Some ==> next_status_spec(s, WorkflowAction::Reject) == Some(
            JournalStatus::Rejected,
        ) && (next_status_spec(s, WorkflowAction::Submit) is Some || next_status_spec(
            s,
            WorkflowAction::Approve,
        ) is Some),
{
}

/// How far along the lifecycle a status is: draft, then pending approval,
/// approved, posted and voided; rejected ends the line.
pub open spec fn stage(s: JournalStatus) -> int {
    match s {
        JournalStatus::Draft => 0,
        JournalStatus::PendingApproval => 1,
        JournalStatus::Approved => 2,
        JournalStatus::Posted => 3,
        JournalStatus::Voided => 4,
        JournalStatus::Rejected => 5,
    }
}

/// The lifecycle only moves forward: every verb that applies takes a journal
/// to a later stage, and a journal that has been approved can no longer be
/// submitted, approved again or rejected.
pub proof fn lemma_workflow_forward(s: JournalStatus, a: WorkflowAction)
    ensures
        next_status_spec(s, a) matches Some(t) ==> stage(t) > stage(s),
        stage(s) >= 2 ==> next_status_spec(s, WorkflowAction::Submit) is None && next_status_spec(
            s,
            WorkflowAction::Approve,
        ) is None && next_status_spec(s, WorkflowAction::Reject) is None,
{
}

/// Voiding needs a posted journal: a missing one is `NotFound`, any other
/// status `InvalidState` expecting "posted".
pub fn check_voidable(journal_id: u128, status: Option<String>) -> (r: Result<(), JournalWorkflowError>)
    ensures
        status is None ==> r == Err::<(), JournalWorkflowError>(JournalWorkflowError::NotFound(journal_id)),
        status matches Some(s) ==> (s@ == "posted"@ <==> r is Ok),
        status matches Some(s) ==> s@ != "posted"@ ==> r == Err::<(), JournalWorkflowError>(
            JournalWorkflowError::InvalidState { id: journal_id, current: s, expected: "posted" },
        ),
{
    match status {
        None => Err(JournalWorkflowError::NotFound(journal_id)),
        Some(s) => if str_eq(s.as_str(), "posted") {
            Ok(())
        } else {
            Err(JournalWorkflowError::InvalidState { id: journal_id, current: s, expected: "posted" })
        },
    }
}

/// The reversal request that voids a posted journal: a manual reversal of
/// its original post, dated `today`, described "Void of journal <id>:
/// <reason>", keyed "void:<id>"; its lines are derived from the original.
pub fn void_request(company_id: u128, journal_id: u128, currency: String, original_post: u128, today: i32, reason: &str) -> (r: PostingRequest)
    ensures
        r.company_id == company_id,
        r.branch_id is None,
        r.source_type@ == "manual"@,
        r.source_id == journal_id,
        r.source_reference is None,
        r.posting_date == today,
        r.currency@ == currency@,
        r.posting_type@ == "reversal"@,
        r.reverses_post_id == Some(original_post),
        r.description matches Some(d) && d@ == "Void of journal "@ + uuid_hyphenated(journal_id) + ": "@ + reason@,
        r.lines.len() == 0,
        r.idempotency_key matches Some(k) && k@ == "void:"@ + uuid_hyphenated(journal_id),
{
    let head = with_uuid("Void of journal ", journal_id);
    let mut description = head;
    description.append(": ");
    description.append(reason);
    PostingRequest {
        company_id,
        branch_id: None,
        source_type: string_from("manual"),
        source_id: journal_id,
        source_reference: None,
        posting_date: today,
        currency,
        posting_type: string_from("reversal"),
        reverses_post_id: Some(original_post),
        description: Some(description),
        lines: Vec::new(),
        idempotency_key: Some(with_uuid("void:", journal_id)),
    }
}

} // verus!
