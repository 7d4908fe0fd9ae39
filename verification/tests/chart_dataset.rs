use accounting_core::chart_dataset::{validate_dataset, ChartAccountDef, ChartDataset, DatasetError};
use accounting_core::entity::account_subtype::AccountSubtype;
use accounting_core::entity::account_type::AccountType;
use accounting_core::entity::normal_balance::NormalBalance;

fn def(number: &str, subtype: AccountSubtype) -> ChartAccountDef {
    ChartAccountDef {
        number: number.to_string(),
        code: number.replace('.', ""),
        name: format!("Account {number}"),
        account_type: AccountType::Asset,
        account_subtype: subtype,
        normal_balance: NormalBalance::Debit,
        parent_code: None,
        is_reconcilable: false,
        currency: "IDR".to_string(),
        sort_order: number.replace('.', "").parse().unwrap_or(0),
    }
}

fn minimal_dataset() -> ChartDataset {
    ChartDataset {
        code: "TEST".into(),
        version: "1".into(),
        name: "Test chart".into(),
        accounts: vec![
            def("1100", AccountSubtype::Bank),
            def("1200", AccountSubtype::Cash),
            def("1300", AccountSubtype::AccountsReceivable),
            def("2100", AccountSubtype::AccountsPayable),
        ],
    }
}

#[test]
fn minimal_dataset_passes() {
    assert_eq!(validate_dataset(&minimal_dataset()), Ok(()));
}

#[test]
fn rejects_duplicate_numbers() {
    let mut ds = minimal_dataset();
    ds.accounts.push(def("1100", AccountSubtype::Tax));
    assert_eq!(validate_dataset(&ds), Err(DatasetError::DuplicateNumber("1100".into())));
}

#[test]
fn rejects_orphan_parent() {
    let mut ds = minimal_dataset();
    let mut child = def("1110", AccountSubtype::Bank);
    child.parent_code = Some("9999".into());
    ds.accounts.push(child);
    assert!(matches!(validate_dataset(&ds), Err(DatasetError::OrphanParent(_, _))));
}

#[test]
fn requires_ar_ap_bank_cash() {
    let mut ds = minimal_dataset();
    ds.accounts.retain(|a| a.account_subtype != AccountSubtype::Cash);
    assert!(matches!(validate_dataset(&ds), Err(DatasetError::MissingRequired("cash"))));
}

#[test]
fn parent_referenced_later_is_orphan() {
    let mut ds = minimal_dataset();
    let mut child = def("1150", AccountSubtype::Bank);
    child.parent_code = Some("1100".into());
    ds.accounts.insert(0, child);
    assert!(matches!(validate_dataset(&ds), Err(DatasetError::OrphanParent(_, _))));
}

#[test]
fn child_after_parent_passes() {
    let mut ds = minimal_dataset();
    let mut child = def("1150", AccountSubtype::Bank);
    child.parent_code = Some("1100".into());
    ds.accounts.push(child);
    assert_eq!(validate_dataset(&ds), Ok(()));
}

#[test]
fn rejects_empty_identifier() {
    let mut ds = minimal_dataset();
    let mut bad = def("1400", AccountSubtype::Bank);
    bad.number = "  ".into();
    bad.code = "".into();
    ds.accounts.push(bad);
    assert_eq!(validate_dataset(&ds), Err(DatasetError::EmptyIdentifier("Account 1400".into())));
}

#[test]
fn rejects_empty_name() {
    let mut ds = minimal_dataset();
    let mut bad = def("1400", AccountSubtype::Bank);
    bad.name = " ".into();
    ds.accounts.push(bad);
    assert_eq!(validate_dataset(&ds), Err(DatasetError::EmptyName("1400".into())));
}

#[test]
fn rejects_code_number_mismatch() {
    let mut ds = minimal_dataset();
    let mut bad = def("1171.000", AccountSubtype::Bank);
    bad.code = "1171".into();
    ds.accounts.push(bad);
    assert_eq!(
        validate_dataset(&ds),
        Err(DatasetError::CodeNumberMismatch("Account 1171.000".into(), "1171".into(), "1171.000".into()))
    );
}

#[test]
fn dotted_number_with_stripped_code_passes() {
    let mut ds = minimal_dataset();
    ds.accounts.push(def("1171.000", AccountSubtype::Bank));
    assert_eq!(validate_dataset(&ds), Ok(()));
}

#[test]
fn rejects_duplicate_code() {
    let mut ds = minimal_dataset();
    let mut a = def("11.00", AccountSubtype::Bank);
    a.sort_order = 7;
    ds.accounts.push(a);
    assert_eq!(validate_dataset(&ds), Err(DatasetError::DuplicateCode("1100".into())));
}

#[test]
fn rejects_duplicate_sort_order() {
    let mut ds = minimal_dataset();
    let mut a = def("1400", AccountSubtype::Bank);
    a.sort_order = 1100;
    ds.accounts.push(a);
    assert_eq!(validate_dataset(&ds), Err(DatasetError::DuplicateSortOrder(1100)));
}

#[test]
fn rejects_bad_currency() {
    let mut ds = minimal_dataset();
    let mut a = def("1400", AccountSubtype::Bank);
    a.currency = "idr".into();
    ds.accounts.push(a);
    assert_eq!(validate_dataset(&ds), Err(DatasetError::InvalidCurrency("Account 1400".into(), "idr".into())));
}

#[test]
fn missing_receivable_reported_first() {
    let mut ds = minimal_dataset();
    ds.accounts.retain(|a| a.account_subtype == AccountSubtype::Bank);
    assert_eq!(validate_dataset(&ds), Err(DatasetError::MissingRequired("accounts_receivable")));
}

#[test]
fn own_parent_is_orphan() {
    let mut ds = minimal_dataset();
    let mut x = def("1400", AccountSubtype::Tax);
    x.parent_code = Some("1400".into());
    ds.accounts.push(x);
    assert_eq!(validate_dataset(&ds), Err(DatasetError::OrphanParent("1400".into(), "1400".into())));
}
