use accounting_core::amount::Amount;
use accounting_core::reporting::{
    account_kind, aged_rows, balance_sheet_totals, bucket, gl_group, gl_page, income_statement_totals, normal_balance,
    partner_ledger_totals, trial_balance_totals, AccountKind, AccountSum, AgedItem, AgedPartyRow, GeneralLedgerLine,
    GlRow, PartnerLedgerLine,
};

fn a(m: i128) -> Amount {
    Amount::new(m, 2)
}

fn sum(id: u128, t: &str, d: i128, c: i128) -> AccountSum {
    AccountSum {
        account_id: id,
        account_number: format!("{id}"),
        name: format!("Account {id}"),
        account_type: t.into(),
        debit: a(d),
        credit: a(c),
    }
}

fn ledger() -> Vec<AccountSum> {
    vec![
        sum(1, "asset", 1000, 200),
        sum(2, "liability", 0, 300),
        sum(3, "equity", 0, 250),
        sum(4, "revenue", 0, 600),
        sum(5, "expense", 150, 0),
        sum(6, "cogs", 200, 0),
    ]
}

#[test]
fn kinds_and_normal_sides() {
    assert_eq!(account_kind("asset"), AccountKind::Asset);
    assert_eq!(account_kind("other_income"), AccountKind::OtherIncome);
    assert_eq!(account_kind("weird"), AccountKind::Other);
    assert_eq!(normal_balance("asset", a(500), a(200)).unwrap().mantissa, 300);
    assert_eq!(normal_balance("revenue", a(500), a(200)).unwrap().mantissa, -300);
    assert_eq!(normal_balance("weird", a(500), a(200)).unwrap().mantissa, -300);
}

#[test]
fn trial_balance_foots() {
    let tb = trial_balance_totals(&ledger()).unwrap();
    assert_eq!(tb.lines.len(), 6);
    assert_eq!(tb.lines[0].debit.mantissa, 800);
    assert_eq!(tb.lines[1].credit.mantissa, 300);
    assert_eq!(tb.total_debit.mantissa, 1150);
    assert_eq!(tb.total_credit.mantissa, 1150);
    assert!(tb.balanced);
    assert_eq!(tb.detail_net[3].account_id, 4);
}

#[test]
fn trial_balance_skips_zero_nets() {
    let rows = vec![sum(1, "asset", 100, 100), sum(2, "asset", 50, 0)];
    let tb = trial_balance_totals(&rows).unwrap();
    assert_eq!(tb.lines.len(), 1);
    assert_eq!(tb.lines[0].account_number, "2");
    assert!(!tb.balanced);
}

#[test]
fn balance_sheet_balances() {
    let bs = balance_sheet_totals(&ledger()).unwrap();
    assert_eq!(bs.assets.mantissa, 800);
    assert_eq!(bs.liabilities.mantissa, 300);
    assert_eq!(bs.equity.mantissa, 250);
    assert_eq!(bs.current_earnings.mantissa, 250);
    assert_eq!(bs.total_liabilities_and_equity.mantissa, 800);
    assert!(bs.balanced);
}

#[test]
fn income_statement_net() {
    let mut rows = ledger();
    rows.push(sum(7, "other_income", 0, 40));
    rows.push(sum(8, "other_expense", 10, 0));
    let is = income_statement_totals(&rows).unwrap();
    assert_eq!(is.revenue.mantissa, 600);
    assert_eq!(is.other_income.mantissa, 40);
    assert_eq!(is.cogs.mantissa, 200);
    assert_eq!(is.expenses.mantissa, 150);
    assert_eq!(is.other_expense.mantissa, 10);
    assert_eq!(is.net_income.mantissa, 280);
}

#[test]
fn gl_page_clamps() {
    assert_eq!(gl_page(None, -5), (200, 0));
    assert_eq!(gl_page(Some(0), 3), (1, 3));
    assert_eq!(gl_page(Some(5000), 0), (1000, 0));
    assert_eq!(gl_page(Some(50), 10), (50, 10));
}

fn gl_line(d: i128, c: i128, after: i128) -> GeneralLedgerLine {
    GeneralLedgerLine {
        journal_number: "JV-1".into(),
        transaction_date: 1,
        posting_date: 1,
        description: "x".into(),
        reference: None,
        currency: "IDR".into(),
        debit: a(d),
        credit: a(c),
        balance_after: a(after),
        party_type: None,
        party_id: None,
        source_type: None,
        source_reference: None,
        is_reconciled: false,
    }
}

fn gl_row(acct: u128, before: i128, d: i128, c: i128, after: i128) -> GlRow {
    GlRow {
        account_id: acct,
        account_number: format!("{acct}"),
        account_name: format!("Account {acct}"),
        balance_before: a(before),
        line: gl_line(d, c, after),
    }
}

#[test]
fn gl_sections_group_consecutive_accounts() {
    let rows = vec![gl_row(1, 0, 100, 0, 100), gl_row(1, 100, 0, 30, 70), gl_row(2, 500, 10, 0, 510)];
    let secs = gl_group(&rows).unwrap();
    assert_eq!(secs.len(), 2);
    assert_eq!(secs[0].account_id, 1);
    assert_eq!(secs[0].lines.len(), 2);
    assert_eq!(secs[0].opening_balance.mantissa, 0);
    assert_eq!(secs[0].closing_balance.mantissa, 70);
    assert_eq!(secs[0].total_debit.mantissa, 100);
    assert_eq!(secs[0].total_credit.mantissa, 30);
    assert_eq!(secs[1].opening_balance.mantissa, 500);
    assert_eq!(secs[1].closing_balance.mantissa, 510);
    assert!(gl_group(&vec![]).unwrap().is_empty());
}

#[test]
fn partner_totals() {
    let l = |d: i128, c: i128, r: i128| PartnerLedgerLine {
        line_id: 1,
        journal_number: "JV".into(),
        transaction_date: 1,
        account_number: "1300".into(),
        account_name: "AR".into(),
        description: None,
        debit: a(d),
        credit: a(c),
        currency: "IDR".into(),
        residual: a(r),
    };
    let t = partner_ledger_totals(&vec![l(100, 0, 60), l(0, 40, 0)]).unwrap();
    assert_eq!(t.total_debit.mantissa, 100);
    assert_eq!(t.total_credit.mantissa, 40);
    assert_eq!(t.open_residual.mantissa, 60);
}

fn row(t: &str, id: u128) -> AgedPartyRow {
    AgedPartyRow {
        party_type: t.into(),
        party_id: id,
        bucket_0_30: a(0),
        bucket_31_60: a(0),
        bucket_61_90: a(0),
        bucket_91_plus: a(0),
        total: a(0),
    }
}

#[test]
fn buckets_by_age() {
    let mut r = row("customer", 1);
    assert!(bucket(&mut r, 30, a(10)));
    assert!(bucket(&mut r, 31, a(20)));
    assert!(bucket(&mut r, 90, a(30)));
    assert!(bucket(&mut r, 91, a(40)));
    assert!(bucket(&mut r, -3, a(5)));
    assert_eq!(r.bucket_0_30.mantissa, 15);
    assert_eq!(r.bucket_31_60.mantissa, 20);
    assert_eq!(r.bucket_61_90.mantissa, 30);
    assert_eq!(r.bucket_91_plus.mantissa, 40);
    assert_eq!(r.total.mantissa, 105);
}

#[test]
fn aged_rows_sorted_by_party() {
    let item = |t: &str, id: u128, date: i32, m: i128| AgedItem {
        party_type: t.into(),
        party_id: id,
        transaction_date: date,
        residual: a(m),
    };
    let items = vec![
        item("supplier", 2, 100, 10),
        item("customer", 9, 60, 20),
        item("customer", 3, 0, 30),
        item("customer", 9, 99, 5),
    ];
    let (rows, totals) = aged_rows(&items, 100).unwrap();
    assert_eq!(rows.len(), 3);
    assert_eq!((rows[0].party_type.as_str(), rows[0].party_id), ("customer", 3));
    assert_eq!((rows[1].party_type.as_str(), rows[1].party_id), ("customer", 9));
    assert_eq!((rows[2].party_type.as_str(), rows[2].party_id), ("supplier", 2));
    assert_eq!(rows[0].bucket_91_plus.mantissa, 30);
    assert_eq!(rows[1].bucket_31_60.mantissa, 20);
    assert_eq!(rows[1].bucket_0_30.mantissa, 5);
    assert_eq!(rows[1].total.mantissa, 25);
    assert_eq!(totals.total.mantissa, 65);
    assert_eq!(totals.bucket_0_30.mantissa, 15);
}

#[test]
fn aged_totals_add_up() {
    let item = |t: &str, id: u128, date: i32, m: i128| AgedItem {
        party_type: t.into(),
        party_id: id,
        transaction_date: date,
        residual: a(m),
    };
    let items = vec![
        item("customer", 1, 200, 7),
        item("customer", 2, 150, -3),
        item("customer", 1, 100, 11),
        item("supplier", 1, 20, 13),
        item("customer", 2, 199, 17),
    ];
    let (rows, totals) = aged_rows(&items, 200).unwrap();
    let cols = |r: &AgedPartyRow| {
        [r.bucket_0_30.mantissa, r.bucket_31_60.mantissa, r.bucket_61_90.mantissa, r.bucket_91_plus.mantissa, r.total.mantissa]
    };
    for r in rows.iter().chain(std::iter::once(&totals)) {
        let c = cols(r);
        assert_eq!(c[0] + c[1] + c[2] + c[3], c[4]);
    }
    for k in 0..5 {
        let by_party: i128 = rows.iter().map(|r| cols(r)[k]).sum();
        assert_eq!(by_party, cols(&totals)[k]);
    }
    assert_eq!(cols(&totals), [24, -3, 0, 24, 45]);
}

/// An amount in ten-thousandths, for amounts of at most four decimals.
fn units(x: &Amount) -> i128 {
    x.mantissa * 10i128.pow(4 - x.scale)
}

fn mixed_ledger() -> Vec<AccountSum> {
    let mut cash = sum(1, "asset", 0, 0);
    cash.debit = Amount::new(10, 0);
    cash.credit = Amount::new(250, 2);
    let mut sales = sum(2, "revenue", 0, 0);
    sales.debit = Amount::new(0, 0);
    sales.credit = Amount::new(75, 1);
    vec![cash, sales]
}

#[test]
fn trial_balance_foots_across_scales() {
    let tb = trial_balance_totals(&mixed_ledger()).unwrap();
    assert_eq!(tb.lines.len(), 2);
    assert_eq!(units(&tb.lines[0].debit), 75_000);
    assert_eq!(units(&tb.lines[1].credit), 75_000);
    assert_eq!(units(&tb.total_debit), 75_000);
    assert_eq!(units(&tb.total_credit), 75_000);
    assert!(tb.balanced);
}

#[test]
fn balance_sheet_balances_across_scales() {
    let bs = balance_sheet_totals(&mixed_ledger()).unwrap();
    assert_eq!(units(&bs.assets), 75_000);
    assert_eq!(units(&bs.current_earnings), 75_000);
    assert_eq!(units(&bs.total_liabilities_and_equity), 75_000);
    assert!(bs.balanced);
}

#[test]
fn aged_totals_add_up_across_scales() {
    let item = |t: &str, id: u128, date: i32, m: i128, s: u32| AgedItem {
        party_type: t.into(),
        party_id: id,
        transaction_date: date,
        residual: Amount::new(m, s),
    };
    let items = vec![
        item("customer", 1, 200, 7, 0),
        item("customer", 2, 150, -35, 1),
        item("customer", 1, 100, 1125, 3),
        item("supplier", 1, 20, 13, 2),
    ];
    let (rows, totals) = aged_rows(&items, 200).unwrap();
    let cols = |r: &AgedPartyRow| {
        [units(&r.bucket_0_30), units(&r.bucket_31_60), units(&r.bucket_61_90), units(&r.bucket_91_plus), units(&r.total)]
    };
    for r in rows.iter().chain(std::iter::once(&totals)) {
        let c = cols(r);
        assert_eq!(c[0] + c[1] + c[2] + c[3], c[4]);
    }
    for k in 0..5 {
        let by_party: i128 = rows.iter().map(|r| cols(r)[k]).sum();
        assert_eq!(by_party, cols(&totals)[k]);
    }
    assert_eq!(cols(&totals), [70_000, -35_000, 0, 12_550, 47_550]);
}
