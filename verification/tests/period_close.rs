use accounting_core::amount::Amount;
use accounting_core::period_close::{check_closable, closing_plan, PeriodCloseError, PlBalanceRow};

fn row(id: u128, t: &str, d: i128, c: i128) -> PlBalanceRow {
    PlBalanceRow { account_id: id, account_type: t.into(), debit: Amount::new(d, 2), credit: Amount::new(c, 2) }
}

#[test]
fn closed_or_locked_period_refused() {
    assert!(matches!(check_closable("closed"), Err(PeriodCloseError::AlreadyClosed)));
    assert!(matches!(check_closable("locked"), Err(PeriodCloseError::AlreadyClosed)));
    assert!(check_closable("open").is_ok());
}

#[test]
fn closing_entry_zeroes_pl_and_books_net_income() {
    let rows = vec![row(1, "revenue", 0, 1000), row(2, "expense", 300, 0), row(3, "cogs", 200, 0)];
    let plan = closing_plan(&rows, 99).unwrap();
    assert_eq!(plan.net_income.mantissa, 500);
    assert_eq!(plan.lines.len(), 4);
    assert_eq!(plan.lines[0].account_id, 1);
    assert_eq!(plan.lines[0].debit.mantissa, 1000);
    assert_eq!(plan.lines[1].credit.mantissa, 300);
    assert_eq!(plan.lines[2].credit.mantissa, 200);
    assert_eq!(plan.lines[3].account_id, 99);
    assert_eq!(plan.lines[3].credit.mantissa, 500);
    let d: i128 = plan.lines.iter().map(|l| l.debit.mantissa).sum();
    let c: i128 = plan.lines.iter().map(|l| l.credit.mantissa).sum();
    assert_eq!(d, c);
}

#[test]
fn loss_debits_retained_earnings() {
    let rows = vec![row(1, "revenue", 0, 100), row(2, "expense", 400, 0)];
    let plan = closing_plan(&rows, 99).unwrap();
    assert_eq!(plan.net_income.mantissa, -300);
    assert_eq!(plan.lines[2].account_id, 99);
    assert_eq!(plan.lines[2].debit.mantissa, 300);
}

#[test]
fn quiet_period_has_no_lines() {
    let rows = vec![row(1, "revenue", 100, 100)];
    let plan = closing_plan(&rows, 99).unwrap();
    assert!(plan.lines.is_empty());
    assert_eq!(plan.net_income.mantissa, 0);
}

#[test]
fn closing_levels_every_pl_account() {
    let rows = vec![
        row(1, "revenue", 150, 1000),
        row(2, "other_income", 70, 20),
        row(3, "expense", 300, 45),
        row(4, "cogs", 80, 80),
    ];
    let plan = closing_plan(&rows, 99).unwrap();
    for r in &rows {
        let on_account: Vec<_> = plan.lines.iter().filter(|l| l.account_id == r.account_id).collect();
        if r.debit.mantissa == r.credit.mantissa {
            assert!(on_account.is_empty());
        } else {
            assert_eq!(on_account.len(), 1);
            let l = on_account[0];
            assert_eq!(r.debit.mantissa + l.debit.mantissa, r.credit.mantissa + l.credit.mantissa);
        }
    }
}

/// An amount in ten-thousandths, for amounts of at most four decimals.
fn units(x: &Amount) -> i128 {
    x.mantissa * 10i128.pow(4 - x.scale)
}

#[test]
fn closing_balances_across_scales() {
    let rows = vec![
        PlBalanceRow { account_id: 1, account_type: "revenue".into(), debit: Amount::new(0, 0), credit: Amount::new(12, 0) },
        PlBalanceRow { account_id: 2, account_type: "expense".into(), debit: Amount::new(455, 2), credit: Amount::new(5, 1) },
        PlBalanceRow { account_id: 3, account_type: "cogs".into(), debit: Amount::new(30, 1), credit: Amount::new(300, 2) },
    ];
    let plan = closing_plan(&rows, 99).unwrap();
    assert_eq!(units(&plan.net_income), 79_500);
    assert_eq!(plan.lines.len(), 3);
    assert_eq!(plan.lines[0].account_id, 1);
    assert_eq!(units(&plan.lines[0].debit), 120_000);
    assert_eq!(plan.lines[1].account_id, 2);
    assert_eq!(units(&plan.lines[1].credit), 40_500);
    assert_eq!(plan.lines[2].account_id, 99);
    assert_eq!(units(&plan.lines[2].credit), 79_500);
    let d: i128 = plan.lines.iter().map(|l| units(&l.debit)).sum();
    let c: i128 = plan.lines.iter().map(|l| units(&l.credit)).sum();
    assert_eq!(d, c);
}
