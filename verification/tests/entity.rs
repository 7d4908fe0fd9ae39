use accounting_core::entity::account_subtype::AccountSubtype;
use accounting_core::entity::account_type::AccountType;
use accounting_core::entity::journal_status::JournalStatus;
use accounting_core::entity::posting_type::PostingType;
use accounting_core::entity::reconciliation_status::ReconciliationStatus;

#[test]
fn labels_round_trip() {
    assert_eq!(AccountType::from_str("asset"), Ok(AccountType::Asset));
    assert_eq!(AccountType::from_str("OTHER_INCOME"), Ok(AccountType::OtherIncome));
    assert_eq!(AccountType::OtherExpense.as_str(), "other_expense");
    assert_eq!(AccountType::from_str(AccountType::Cogs.as_str()), Ok(AccountType::Cogs));
    assert_eq!(AccountSubtype::from_str("accounts_receivable"), Ok(AccountSubtype::AccountsReceivable));
    assert_eq!(JournalStatus::PendingApproval.to_string(), "pending_approval");
}

#[test]
fn unknown_label_refused() {
    assert_eq!(AccountType::from_str("nope"), Err("Unknown AccountType variant: nope".to_string()));
    assert!(PostingType::from_str("").is_err());
}

#[test]
fn defaults() {
    assert_eq!(AccountType::default(), AccountType::Asset);
    assert_eq!(ReconciliationStatus::default(), ReconciliationStatus::InProgress);
}
