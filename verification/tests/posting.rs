use accounting_core::amount::Amount;
use accounting_core::posting::{
    check_balance, dedup_key, journal_description, journal_post_decision, journal_source, map_source,
    plan_ledger_entries, race_outcome, reversal_lines, reversal_target, totals, validate_posting, AccountInfo,
    DedupKey, JournalPostDecision, LedgerAccountState, PostingError, PostingLine, PostingRequest,
};

fn amt(m: i128) -> Amount {
    Amount::new(m, 2)
}

fn line(account_id: u128, debit: i128, credit: i128) -> PostingLine {
    PostingLine {
        account_id,
        debit: amt(debit),
        credit: amt(credit),
        party_type: None,
        party_id: None,
        cost_center_id: None,
        project_id: None,
        department_id: None,
        description: None,
    }
}

fn account(id: u128, number: &str, subtype: &str) -> AccountInfo {
    AccountInfo {
        id,
        number: number.into(),
        name: format!("Account {number}"),
        account_type: "asset".into(),
        subtype: subtype.into(),
        normal_balance: "debit".into(),
        is_detail: true,
        is_header: false,
        status: "active".into(),
        current_balance: amt(0),
    }
}

#[test]
fn too_few_lines_refused() {
    let lines = vec![line(1, 100, 0)];
    let r = validate_posting(&lines, &vec![account(1, "1100", "bank")], false);
    assert!(matches!(r, Some(Err(PostingError::TooFewLines))));
}

#[test]
fn unbalanced_refused() {
    let lines = vec![line(1, 100, 0), line(2, 0, 90)];
    let accts = vec![account(1, "1100", "bank"), account(2, "4100", "revenue")];
    let r = validate_posting(&lines, &accts, false);
    assert!(matches!(r, Some(Err(PostingError::Unbalanced))));
    assert_eq!(r.unwrap().unwrap_err().code(), "unbalanced");
}

#[test]
fn balanced_posting_accepted() {
    let lines = vec![line(1, 100, 0), line(2, 0, 100)];
    let accts = vec![account(1, "1100", "bank"), account(2, "4100", "revenue")];
    assert!(matches!(validate_posting(&lines, &accts, false), Some(Ok(()))));
}

#[test]
fn closed_period_refused() {
    let lines = vec![line(1, 100, 0), line(2, 0, 100)];
    let accts = vec![account(1, "1100", "bank"), account(2, "4100", "revenue")];
    assert!(matches!(validate_posting(&lines, &accts, true), Some(Err(PostingError::PeriodClosed))));
}

#[test]
fn unknown_account_refused() {
    let lines = vec![line(1, 100, 0), line(9, 0, 100)];
    let accts = vec![account(1, "1100", "bank")];
    let r = validate_posting(&lines, &accts, false).unwrap().unwrap_err();
    assert!(matches!(r, PostingError::AccountNotFound(9)));
    assert_eq!(r.http_status(), 404);
}

#[test]
fn header_account_not_postable() {
    let lines = vec![line(1, 100, 0), line(2, 0, 100)];
    let mut header = account(2, "4000", "revenue");
    header.is_header = true;
    header.is_detail = false;
    let accts = vec![account(1, "1100", "bank"), header];
    let r = validate_posting(&lines, &accts, false).unwrap().unwrap_err();
    assert!(matches!(r, PostingError::NonPostableAccount(ref n) if n == "4000"));
    assert_eq!(r.code(), "non_postable_account");
}

#[test]
fn receivable_needs_party() {
    let lines = vec![line(1, 100, 0), line(2, 0, 100)];
    let accts = vec![account(1, "1300", "accounts_receivable"), account(2, "4100", "revenue")];
    let r = validate_posting(&lines, &accts, false).unwrap().unwrap_err();
    assert!(matches!(r, PostingError::PartyRequired(ref n) if n == "1300"));
}

#[test]
fn party_not_allowed_on_bank() {
    let mut l1 = line(1, 100, 0);
    l1.party_type = Some("customer".into());
    l1.party_id = Some(77);
    let lines = vec![l1, line(2, 0, 100)];
    let accts = vec![account(1, "1100", "bank"), account(2, "4100", "revenue")];
    let r = validate_posting(&lines, &accts, false).unwrap().unwrap_err();
    assert!(matches!(r, PostingError::PartyNotAllowed(ref n) if n == "1100"));
}

#[test]
fn totals_and_balance_check() {
    let lines = vec![line(1, 150, 0), line(2, 0, 100), line(3, 0, 50)];
    let (d, c) = totals(&lines).unwrap();
    assert_eq!((d.mantissa, d.scale), (150, 2));
    assert_eq!((c.mantissa, c.scale), (150, 2));
    assert!(matches!(check_balance(&lines), Some(Ok(()))));
}

#[test]
fn reversal_swaps_sides() {
    let lines = vec![line(1, 100, 0), line(2, 0, 100)];
    let rev = reversal_lines(&lines);
    assert_eq!(rev.len(), 2);
    assert_eq!(rev[0].credit.mantissa, 100);
    assert_eq!(rev[0].debit.mantissa, 0);
    assert_eq!(rev[1].debit.mantissa, 100);
    assert_eq!(rev[0].description.as_deref(), Some("Reversal"));
    assert!(matches!(check_balance(&rev), Some(Ok(()))));
}

#[test]
fn source_mapping() {
    assert_eq!(map_source("order", "original"), ("sales", "order"));
    assert_eq!(map_source("payment", "original"), ("cash_receipt", "payment"));
    assert_eq!(map_source("order", "reversal"), ("reversing", "adjustment"));
    assert_eq!(map_source("something", "original"), ("general", "manual"));
}

#[test]
fn ledger_plan_running_balances_and_sequences() {
    let lines = vec![line(1, 100, 0), line(2, 0, 100), line(1, 50, 0), line(2, 0, 50)];
    let states = vec![
        LedgerAccountState { account_id: 1, debit_normal: true, balance: amt(1000), sequence: 4 },
        LedgerAccountState { account_id: 2, debit_normal: false, balance: amt(0), sequence: 0 },
    ];
    let plan = plan_ledger_entries(&lines, states).unwrap();
    assert_eq!(plan.entries.len(), 4);
    assert_eq!(plan.entries[0].balance_before.mantissa, 1000);
    assert_eq!(plan.entries[0].balance_after.mantissa, 1100);
    assert_eq!(plan.entries[0].sequence_number, 5);
    assert_eq!(plan.entries[1].balance_after.mantissa, 100);
    assert_eq!(plan.entries[1].sequence_number, 1);
    assert_eq!(plan.entries[2].balance_before.mantissa, 1100);
    assert_eq!(plan.entries[2].balance_after.mantissa, 1150);
    assert_eq!(plan.entries[2].sequence_number, 6);
    assert_eq!(plan.entries[3].sequence_number, 2);
    assert_eq!(plan.total_debit.mantissa, 150);
    assert_eq!(plan.total_credit.mantissa, 150);
}

#[test]
fn request_builders() {
    let r = PostingRequest::original(5, "order", 9, 739000);
    assert_eq!(r.currency, "IDR");
    assert_eq!(r.posting_type, "original");
    assert!(r.lines.is_empty());
    assert_eq!(journal_description(&r), "order posting");
    let r = r.with_idempotency_key("order:9".into());
    assert!(matches!(dedup_key(&r), DedupKey::Key(ref k) if k == "order:9"));
    assert!(matches!(reversal_target(&r), Err(PostingError::Conflict(ref m)) if m == "reversal requires reverses_post_id"));
}

#[test]
fn manual_journal_decisions() {
    assert!(matches!(journal_post_decision(1, "posted"), JournalPostDecision::Reuse));
    assert!(matches!(journal_post_decision(1, "approved"), JournalPostDecision::Proceed));
    match journal_post_decision(1, "draft") {
        JournalPostDecision::Refuse(PostingError::Conflict(m)) => {
            assert_eq!(m, "journal 00000000-0000-0000-0000-000000000001 is 'draft', must be 'approved' to post")
        }
        _ => panic!("expected a refusal"),
    }
    let (t, id) = journal_source(3, None, None);
    assert_eq!((t.as_str(), id), ("manual", 3));
    let won = race_outcome(Some((10, 11))).unwrap();
    assert!(won.idempotent_reuse);
    assert_eq!(won.posting_status, "posted");
    assert!(matches!(race_outcome(None), Err(PostingError::Conflict(_))));
}
