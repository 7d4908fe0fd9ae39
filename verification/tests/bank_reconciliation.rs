use accounting_core::amount::Amount;
use accounting_core::bank_reconciliation::{
    match_statement, reconciliation_number, references_pair, summarize, BookEntry, ReconcileError,
    ReconcileResult, StatementLine,
};

fn stmt(m: i128, r: Option<&str>) -> StatementLine {
    StatementLine { date: 739000, amount: Amount::new(m, 2), reference: r.map(|s| s.to_string()) }
}

fn book(id: u128, m: i128, r: Option<&str>) -> BookEntry {
    BookEntry { ledger_id: id, amount: Amount::new(m, 2), reference: r.map(|s| s.to_string()) }
}

#[test]
fn reference_key_trims_and_lowercases() {
    assert_eq!(references_pair(Some("  CHQ-001 ")), Some("chq-001".to_string()));
    assert_eq!(references_pair(Some("   ")), None);
    assert_eq!(references_pair(None), None);
}

#[test]
fn reference_wins_over_arrival_order() {
    let b = vec![book(1, 5000, Some("A")), book(2, 5000, Some("B"))];
    let s = vec![stmt(5000, Some(" b ")), stmt(5000, Some("a"))];
    let out = match_statement(&b, &s);
    assert_eq!(out.matched.len(), 2);
    assert_eq!(out.matched[0].ledger_id, 2);
    assert_eq!(out.matched[1].ledger_id, 1);
    assert!(out.unmatched_book.is_empty());
    assert!(out.unmatched_statement.is_empty());
}

#[test]
fn falls_back_to_first_equal_amount() {
    let b = vec![book(1, 700, None), book(2, 5000, Some("X")), book(3, 5000, None)];
    let s = vec![stmt(5000, Some("unknown")), stmt(70, None)];
    let out = match_statement(&b, &s);
    assert_eq!(out.matched.len(), 1);
    assert_eq!(out.matched[0].ledger_id, 2);
    assert_eq!(out.matched[0].statement_reference.as_deref(), Some("unknown"));
    assert_eq!(out.unmatched_statement.len(), 1);
    assert_eq!(out.unmatched_statement[0].amount.mantissa, 70);
    assert_eq!(out.unmatched_book.len(), 2);
    assert_eq!(out.unmatched_book[0].ledger_id, 1);
    assert_eq!(out.unmatched_book[1].ledger_id, 3);
}

#[test]
fn amounts_compare_by_value_across_scales() {
    let b = vec![BookEntry { ledger_id: 1, amount: Amount::new(50, 0), reference: None }];
    let s = vec![StatementLine { date: 1, amount: Amount::new(5000, 2), reference: None }];
    let out = match_statement(&b, &s);
    assert_eq!(out.matched.len(), 1);
}

#[test]
fn each_book_entry_taken_once() {
    let b = vec![book(1, 100, None)];
    let s = vec![stmt(100, None), stmt(100, None)];
    let out = match_statement(&b, &s);
    assert_eq!(out.matched.len(), 1);
    assert_eq!(out.unmatched_statement.len(), 1);
    assert_eq!(out.matched.len() + out.unmatched_statement.len(), s.len());
}

#[test]
fn summary_totals_and_status() {
    let s = vec![stmt(100, None), stmt(-30, None)];
    let b = vec![book(1, 100, None), book(2, -30, None)];
    let out = match_statement(&b, &s);
    let sum = summarize(&s, &out, Amount::new(100, 2)).unwrap();
    assert_eq!(sum.closing_statement_balance.mantissa, 70);
    assert_eq!(sum.difference.mantissa, 30);
    assert!(sum.is_balanced);
    assert_eq!(sum.status, "completed");
    assert_eq!(sum.matched_count, 2);
    let r = ReconcileResult::from_summary(42, &sum);
    assert_eq!(r.reconciliation_id, 42);
    assert_eq!(r.difference.mantissa, 30);
}

#[test]
fn unbalanced_run_in_progress() {
    let s = vec![stmt(100, None)];
    let out = match_statement(&vec![], &s);
    let sum = summarize(&s, &out, Amount::new(0, 0)).unwrap();
    assert!(!sum.is_balanced);
    assert_eq!(sum.status, "in_progress");
    assert_eq!(sum.unmatched_statement, 1);
    assert_eq!(sum.difference.mantissa, -100);
}

#[test]
fn reconciliation_number_shape() {
    let n = reconciliation_number(739000, 0x67e55044_10b1_426f_9247_bb680e5fe0c8).unwrap();
    assert!(n.starts_with("REC-"));
    assert!(n.ends_with("-67e55044"));
    assert_eq!(n.len(), "REC-".len() + 8 + 1 + 8);
}

#[test]
fn reconcile_error_codes() {
    assert_eq!(ReconcileError::AccountNotFound(1).code(), "account_not_found");
    assert_eq!(ReconcileError::Internal("x".into()).code(), "internal_error");
}
