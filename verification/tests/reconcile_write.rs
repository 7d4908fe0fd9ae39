use accounting_core::amount::Amount;
use accounting_core::posting::PostingLine;
use accounting_core::reconcile_write::{
    affected_sets, derived_edge, exchange_choice, exchange_difference, exchange_move_write, extend_closure, fx_pair,
    group_decision, no_edge, predicted_difference, rate_order, res_of, reversal_partial, single_closure,
    sorted_unique, swap_lines, unlink_reversal_write, GroupDecision, JournalReversalMeta, PartialRow,
    ReconcileLineSnapshot,
};

fn a(m: i128, s: u32) -> Amount {
    Amount::new(m, s)
}

#[test]
fn residual_lookup() {
    let rs = vec![(5u128, a(100, 2)), (7u128, a(0, 2)), (5u128, a(999, 2))];
    assert_eq!(res_of(&rs, 5).mantissa, 100);
    assert_eq!(res_of(&rs, 7).mantissa, 0);
    assert_eq!(res_of(&rs, 8).mantissa, 0);
    let e = no_edge();
    assert!(e.partial_id.is_none() && e.applied.mantissa == 0);
}

#[test]
fn fx_pair_orientation() {
    let (fx, ar) = fx_pair(1, 2, Some("customer".into()), Some(9), a(250, 2));
    assert_eq!((fx.debit.mantissa, fx.credit.mantissa), (250, 0));
    assert_eq!((ar.debit.mantissa, ar.credit.mantissa), (0, 250));
    assert_eq!(ar.party_id, Some(9));
    assert_eq!(fx.description.as_deref(), Some("exchange difference"));
    let (fx, ar) = fx_pair(1, 2, None, None, a(-250, 2));
    assert_eq!((fx.debit.mantissa, fx.credit.mantissa), (0, 250));
    assert_eq!((ar.debit.mantissa, ar.credit.mantissa), (250, 0));
}

#[test]
fn rates_and_prediction() {
    let (hi, lo) = rate_order(a(15000, 0), a(14000, 0));
    assert_eq!((hi.mantissa, lo.mantissa), (15000, 14000));
    let (hi, lo) = rate_order(a(14000, 0), a(15000, 0));
    assert_eq!((hi.mantissa, lo.mantissa), (15000, 14000));
    // 1400 * (15000 - 14000) / 14000 = 100.00
    let p = predicted_difference(a(1400, 0), a(15000, 0), a(14000, 0)).unwrap();
    assert_eq!(p.mantissa * 10i128.pow(2) / 10i128.pow(p.scale), 10000);
    // banker's rounding to two places: 1 * 1 / 8 = 0.125 -> 0.12
    let p = predicted_difference(a(1, 0), a(9, 0), a(8, 0)).unwrap();
    assert_eq!((p.mantissa, p.scale), (12, 2));
}

#[test]
fn exchange_choices() {
    let pred = a(10000, 2);
    assert!(matches!(exchange_choice(a(100004, 3), a(0, 2), pred), Some(Some(x)) if x.mantissa == 100004));
    assert!(matches!(exchange_choice(a(10100, 2), a(0, 2), pred), Some(None)));
    assert!(matches!(exchange_choice(a(0, 2), a(10000, 2), pred), Some(Some(x)) if x.mantissa == -10000));
    assert!(matches!(exchange_choice(a(5, 2), a(5, 2), pred), Some(None)));
    assert!(matches!(exchange_difference(a(100, 0), a(1, 0), a(1, 0), a(5, 0), a(0, 0)), Some(None)));
}

#[test]
fn derived_edges() {
    let (d, c, amt) = derived_edge(a(50, 2), 1, 2, 3);
    assert_eq!((d, c, amt.mantissa), (1, 3, 50));
    let (d, c, amt) = derived_edge(a(-50, 2), 1, 2, 3);
    assert_eq!((d, c, amt.mantissa), (3, 2, 50));
}

#[test]
fn group_decisions() {
    let zero = vec![(1u128, a(0, 2)), (2u128, a(0, 0))];
    assert_eq!(group_decision(&vec![], &vec![]), GroupDecision::Open);
    assert_eq!(group_decision(&vec![(1u128, a(1, 2))], &vec![]), GroupDecision::Open);
    assert_eq!(group_decision(&zero, &vec![]), GroupDecision::Create);
    assert_eq!(group_decision(&zero, &vec![42]), GroupDecision::Reuse(42));
    assert_eq!(group_decision(&zero, &vec![42, 43]), GroupDecision::Divergent);
}

fn snap(id: u128, debit: i128, base: i128, date: i32) -> ReconcileLineSnapshot {
    ReconcileLineSnapshot {
        id,
        account_id: 7,
        currency: "IDR".into(),
        transaction_date: date,
        exchange_rate: a(1, 0),
        source_type: None,
        source_id: Some(id + 100),
        party_type: None,
        party_id: None,
        debit_amount: a(debit, 2),
        base_amount: a(base, 2),
    }
}

#[test]
fn reversal_pairing_edge() {
    let line = snap(1, 0, 500, 10);
    let counterpart = snap(2, 500, 400, 20);
    let p = reversal_partial(9, &line, &counterpart, "manual");
    assert_eq!((p.debit_move_id, p.credit_move_id), (2, 1));
    assert_eq!(p.amount.mantissa, 400);
    assert_eq!(p.max_date, 20);
    assert_eq!(p.source_id, Some(102));
    assert_eq!(p.origin, "manual");
}

fn partial(id: u128, d: u128, c: u128, g: Option<u128>) -> PartialRow {
    PartialRow { id, debit_move_id: d, credit_move_id: c, full_reconcile_id: g }
}

#[test]
fn unlink_sets_and_closures() {
    assert_eq!(sorted_unique(&vec![5, 1, 5, 3, 1]), vec![1, 3, 5]);
    let closure = vec![partial(1, 30, 10, Some(7)), partial(2, 10, 20, Some(7)), partial(3, 40, 20, None)];
    let (groups, lines) = affected_sets(&closure);
    assert_eq!(groups, vec![7]);
    assert_eq!(lines, vec![10, 20, 30, 40]);
    let grown = extend_closure(vec![partial(1, 1, 2, None)], &vec![partial(5, 1, 9, None), partial(1, 1, 2, None), partial(5, 1, 9, None)]);
    assert_eq!(grown.iter().map(|p| p.id).collect::<Vec<_>>(), vec![1, 5]);
    let single = single_closure(partial(1, 1, 2, None), &vec![partial(1, 1, 2, None), partial(4, 3, 2, None)]);
    assert_eq!(single.iter().map(|p| p.id).collect::<Vec<_>>(), vec![1, 4]);
}

fn pl(acct: u128, d: i128, c: i128) -> PostingLine {
    PostingLine {
        account_id: acct,
        debit: a(d, 2),
        credit: a(c, 2),
        party_type: None,
        party_id: None,
        cost_center_id: None,
        project_id: None,
        department_id: None,
        description: Some("kept".into()),
    }
}

#[test]
fn generated_journals() {
    let w = exchange_move_write(1, 0xab, 739000, "IDR", None, pl(1, 5, 0), pl(2, 0, 5)).unwrap();
    assert_eq!(w.source_type, "reconciliation");
    assert_eq!(w.posting_type, "adjustment");
    assert_eq!(w.source_reference.as_deref(), Some("exch:00000000-0000-0000-0000-0000000000ab"));
    assert_eq!(w.idempotency_key, w.source_reference);
    assert!((1..=12).contains(&w.fiscal_month));
    assert_eq!(w.lines.len(), 2);

    let meta = JournalReversalMeta { journal_id: 0xcd, branch_id: None, currency: "IDR".into(), reverses_post_id: Some(3) };
    assert!(unlink_reversal_write(1, 0xcd, &meta, &vec![], 739000, None).is_none());
    let w = unlink_reversal_write(1, 0xcd, &meta, &vec![pl(1, 5, 0), pl(2, 0, 5)], 739000, Some(4)).unwrap();
    assert_eq!(w.posting_type, "reversal");
    assert_eq!(w.reverses_journal_id, Some(0xcd));
    assert_eq!(w.lines[0].credit.mantissa, 5);
    assert_eq!(w.lines[0].description.as_deref(), Some("kept"));
    let back = swap_lines(&w.lines);
    assert_eq!(back[0].debit.mantissa, 5);
}

use accounting_core::reconcile_write::clamp_applied;

#[test]
fn clamp_takes_the_least_of_request_and_residuals() {
    let a = |m: i128, s: u32| accounting_core::amount::Amount::new(m, s);
    let r = clamp_applied(None, a(500, 2), a(3, 0));
    assert_eq!((r.mantissa, r.scale), (3, 0));
    let r = clamp_applied(None, a(250, 2), a(3, 0));
    assert_eq!((r.mantissa, r.scale), (250, 2));
    let r = clamp_applied(Some(a(12, 1)), a(250, 2), a(3, 0));
    assert_eq!((r.mantissa, r.scale), (12, 1));
    let r = clamp_applied(Some(a(40, 1)), a(250, 2), a(3, 0));
    assert_eq!((r.mantissa, r.scale), (250, 2));
    let r = clamp_applied(None, a(300, 2), a(3, 0));
    assert_eq!((r.mantissa, r.scale), (300, 2));
}
