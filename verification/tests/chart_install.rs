use accounting_core::chart_dataset::{ChartAccountDef, ChartDataset};
use accounting_core::chart_install::{
    conflicts, deterministic_id, derive_rows, find_chart, install_report, list_charts, registered_codes, tally,
    OverlapRow, UpsertOutcome,
};
use accounting_core::entity::account_subtype::AccountSubtype;
use accounting_core::entity::account_type::AccountType;
use accounting_core::entity::normal_balance::NormalBalance;

fn def(number: &str, parent: Option<&str>) -> ChartAccountDef {
    ChartAccountDef {
        number: number.to_string(),
        code: number.replace('.', ""),
        name: format!("Account {number}"),
        account_type: AccountType::Asset,
        account_subtype: AccountSubtype::Bank,
        normal_balance: NormalBalance::Debit,
        parent_code: parent.map(|p| p.to_string()),
        is_reconcilable: false,
        currency: "IDR".to_string(),
        sort_order: 0,
    }
}

fn dataset() -> ChartDataset {
    ChartDataset {
        code: "ID_SAK".into(),
        version: "2026.1".into(),
        name: "Indonesian SAK".into(),
        accounts: vec![def("1000", None), def("1100", Some("1000")), def("1110", Some("1100")), def("2000", None)],
    }
}

#[test]
fn rows_carry_tree_facts() {
    let ds = dataset();
    let rows = derive_rows(7, &ds);
    assert_eq!(rows.len(), 4);
    assert_eq!((rows[0].level, rows[0].path.as_str(), rows[0].is_header), (0, "1000", true));
    assert_eq!((rows[1].level, rows[1].path.as_str(), rows[1].is_header), (1, "1000/1100", true));
    assert_eq!((rows[2].level, rows[2].path.as_str(), rows[2].is_header), (2, "1000/1100/1110", false));
    assert!(rows[2].is_detail);
    assert_eq!(rows[3].parent_id, None);
    assert_eq!(rows[1].parent_id, Some(rows[0].id));
    assert_eq!(rows[2].parent_id, Some(rows[1].id));
    assert_eq!(rows[0].chart_code, "ID_SAK");
}

#[test]
fn ids_are_deterministic() {
    let a = deterministic_id(7, "ID_SAK", "1000");
    assert_eq!(a, deterministic_id(7, "ID_SAK", "1000"));
    assert_ne!(a, deterministic_id(8, "ID_SAK", "1000"));
    assert_ne!(a, deterministic_id(7, "ID_SAK", "1100"));
    let expected = uuid::Uuid::new_v5(
        &uuid::Uuid::NAMESPACE_URL,
        format!("account:{}:ID_SAK:1000", uuid::Uuid::from_u128(7)).as_bytes(),
    );
    assert_eq!(a, expected.as_u128());
}

#[test]
fn own_rows_are_not_conflicts() {
    let ds = dataset();
    let rows = derive_rows(7, &ds);
    let overlaps = vec![
        OverlapRow { id: rows[0].id, account_number: "1000".into(), account_code: "1000".into(), chart_code: Some("ID_SAK".into()) },
        OverlapRow { id: 99, account_number: "1100".into(), account_code: "1100".into(), chart_code: None },
        OverlapRow { id: rows[3].id, account_number: "2000".into(), account_code: "2000".into(), chart_code: Some("OTHER".into()) },
    ];
    let c = conflicts(&rows, &overlaps, "ID_SAK");
    assert_eq!(c, vec![("1100".to_string(), "1100".to_string()), ("2000".to_string(), "2000".to_string())]);
}

#[test]
fn registry_lookup_and_listing() {
    let regs = vec![dataset()];
    assert_eq!(find_chart(&regs, "ID_SAK"), Some(0));
    assert_eq!(find_chart(&regs, "XX"), None);
    assert_eq!(registered_codes(&regs), vec!["ID_SAK".to_string()]);
    let info = list_charts(&regs);
    assert_eq!(info[0].accounts, 4);
    assert_eq!(info[0].version, "2026.1");
}

#[test]
fn report_counts_outcomes() {
    let ds = dataset();
    let rows = derive_rows(7, &ds);
    let outcomes = vec![UpsertOutcome::Inserted, UpsertOutcome::Updated, UpsertOutcome::Inserted, UpsertOutcome::Resurrected];
    assert_eq!(tally(&outcomes), (2, 1, 1));
    let rep = install_report(&ds, 7, &rows, &outcomes);
    assert_eq!((rep.accounts_installed, rep.accounts_updated, rep.accounts_resurrected), (2, 1, 1));
    assert_eq!(rep.account_ids.len(), 4);
    assert_eq!(rep.account_ids[1], ("1100".to_string(), rows[1].id));
}
