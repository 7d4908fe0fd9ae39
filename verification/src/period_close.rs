//! Fiscal-period close: zero the profit-and-loss accounts into retained
//! earnings with one balanced closing entry, then lock the period.
//!
//! Revenue and other-income balances (credit-normal) are debited, every other
//! P&L balance (debit-normal) is credited, and the difference, the net income,
//! lands on the retained-earnings account: a profit as a credit, a loss as a
//! debit.

use crate::amount::{
    abs_int, add_spec, all_within, amount_of, dec_add, dec_sub, lemma_add_sub_value, lemma_amount_opt,
    lemma_push_value, lemma_sum_of_value, lemma_value_sign, lemma_value_sum_bound, pow10, sub_spec, sum_of,
    value_mag_sum, value_room, value_sum, Amount, MAX_SCALE,
};
use crate::posting::{PostingError, PostingLine};
use crate::text::{str_eq, string_from};
use vstd::prelude::*;

verus! {

/// The P&L activity of one account over the period.
#[derive(Debug, Clone)]
pub struct PlBalanceRow {
    pub account_id: u128,
    /// revenue | other_income | expense | cogs | other_expense
    pub account_type: String,
    pub debit: Amount,
    pub credit: Amount,
}

/// The closing entry of a period.
#[derive(Debug, Clone)]
pub struct ClosingPlan {
    /// Empty when the period had no P&L activity (nothing to post).
    pub lines: Vec<PostingLine>,
    pub net_income: Amount,
}

/// Outcome of a period close.
#[derive(Debug, Clone)]
pub struct PeriodCloseResult {
    pub period_id: u128,
    pub net_income: Amount,
    /// None when the period had no P&L activity.
    pub closing_post_id: Option<u128>,
    pub closing_journal_id: Option<u128>,
}

#[derive(Debug)]
pub enum PeriodCloseError {
    PeriodNotFound(u128),
    AlreadyClosed,
    Posting(PostingError),
    Internal(String),
}

/// A period in `status` may be closed unless it is already closed or locked.
pub fn check_closable(status: &str) -> (r: Result<(), PeriodCloseError>)
    ensures
        r is Ok <==> !(status@ == "closed"@ || status@ == "locked"@),
        r is Err ==> r matches Err(PeriodCloseError::AlreadyClosed),
{
    if str_eq(status, "closed") || str_eq(status, "locked") {
        return Err(PeriodCloseError::AlreadyClosed);
    }
    Ok(())
}

pub open spec fn zero() -> Amount {
    Amount { mantissa: 0, scale: 0 }
}

/// A credit-normal P&L type.
pub open spec fn is_revenue(t: Seq<char>) -> bool {
    t == "revenue"@ || t == "other_income"@
}

/// The closing lines of the rows (account, debit, credit), with the revenue
/// and expense totals; `None` on decimal overflow.
pub open spec fn closing_scan(rows: Seq<PlBalanceRow>) -> Option<
    (Seq<(u128, Amount, Amount)>, Amount, Amount),
>
    decreases rows.len(),
{
    if rows.len() == 0 {
        Some((seq![], zero(), zero()))
    } else {
        match closing_scan(rows.drop_last()) {
            None => None,
            Some((ls, rev, exp)) => {
                let r = rows.last();
                if is_revenue(r.account_type@) {
                    match sub_spec(r.credit, r.debit) {
                        None => None,
                        Some(bal) => if bal.mantissa != 0 {
                            match add_spec(rev, bal) {
                                None => None,
                                Some(rev2) => Some((ls.push((r.account_id, bal, zero())), rev2, exp)),
                            }
                        } else {
                            Some((ls, rev, exp))
                        },
                    }
                } else {
                    match sub_spec(r.debit, r.credit) {
                        None => None,
                        Some(bal) => if bal.mantissa != 0 {
                            match add_spec(exp, bal) {
                                None => None,
                                Some(exp2) => Some((ls.push((r.account_id, zero(), bal)), rev, exp2)),
                            }
                        } else {
                            Some((ls, rev, exp))
                        },
                    }
                }
            },
        }
    }
}

/// The closing entry: the scanned lines plus the balancing retained-earnings
/// line, and the net income (revenue total - expense total).
pub open spec fn closing_entry(rows: Seq<PlBalanceRow>, retained: u128) -> Option<
    (Seq<(u128, Amount, Amount)>, Amount),
> {
    match closing_scan(rows) {
        None => None,
        Some((ls, rev, exp)) => match sub_spec(rev, exp) {
            None => None,
            Some(net) => if ls.len() == 0 {
                Some((ls, net))
            } else if net.mantissa > 0 {
                Some((ls.push((retained, zero(), net)), net))
            } else if net.mantissa < 0 {
                Some((ls.push((retained, Amount { mantissa: (-net.mantissa) as i128, scale: net.scale }, zero())), net))
            } else {
                Some((ls, net))
            },
        },
    }
}

/// A closing line: the account, its sides, no party or dimensions, described
/// as "Period close".
pub open spec fn is_close_line(l: PostingLine, t: (u128, Amount, Amount)) -> bool {
    &&& l.account_id == t.0
    &&& l.debit == t.1
    &&& l.credit == t.2
    &&& l.party_type is None
    &&& l.party_id is None
    &&& l.cost_center_id is None
    &&& l.project_id is None
    &&& l.department_id is None
    &&& l.description matches Some(d) && d@ == "Period close"@
}

/// One closing line.
pub fn close_line(account_id: u128, debit: Amount, credit: Amount) -> (r: PostingLine)
    ensures
        is_close_line(r, (account_id, debit, credit)),
{
    PostingLine {
        account_id,
        debit,
        credit,
        party_type: None,
        party_id: None,
        cost_center_id: None,
        project_id: None,
        department_id: None,
        description: Some(string_from("Period close")),
    }
}

pub open spec fn rows_wf(rows: Seq<PlBalanceRow>) -> bool {
    forall|i: int| 0 <= i < rows.len() ==> (#[trigger] rows[i]).debit.wf() && rows[i].credit.wf()
}

pub proof fn lemma_scan_none_stays(rows: Seq<PlBalanceRow>, n: int, m: int)
    requires
        0 <= n <= m <= rows.len(),
        closing_scan(rows.subrange(0, n)) is None,
    ensures
        closing_scan(rows.subrange(0, m)) is None,
    decreases m - n,
{
    if m > n {
        lemma_scan_none_stays(rows, n, m - 1);
        assert(rows.subrange(0, m).drop_last() =~= rows.subrange(0, m - 1));
    }
}

/// Build the closing entry of a period from its P&L balances. `None` when the
/// decimal arithmetic overflows.
pub fn closing_plan(rows: &Vec<PlBalanceRow>, retained_earnings_account_id: u128) -> (r: Option<
    ClosingPlan,
>)
    requires
        rows_wf(rows@),
    ensures
        match closing_entry(rows@, retained_earnings_account_id) {
            None => r is None,
            Some((ls, net)) => r matches Some(p) && p.net_income == net && p.lines@.len() == ls.len()
                && forall|k: int| 0 <= k < ls.len() ==> is_close_line(#[trigger] p.lines@[k], ls[k]),
        },
{
    let mut lines: Vec<PostingLine> = Vec::new();
    let mut rev = Amount::zero();
    let mut exp = Amount::zero();
    let ghost mut ls: Seq<(u128, Amount, Amount)> = seq![];
    let mut i: usize = 0;
    while i < rows.len()
        invariant
            i <= rows.len(),
            rows_wf(rows@),
            rev.wf(),
            exp.wf(),
            closing_scan(rows@.subrange(0, i as int)) == Some((ls, rev, exp)),
            lines@.len() == ls.len(),
            forall|k: int| 0 <= k < ls.len() ==> is_close_line(#[trigger] lines@[k], ls[k]),
        decreases rows.len() - i,
    {
        let r = &rows[i];
        proof {
            let t = rows@.subrange(0, i + 1);
            assert(t.drop_last() =~= rows@.subrange(0, i as int));
            assert(t.last() == rows@[i as int]);
            assert(rows@[i as int].debit.wf() && rows@[i as int].credit.wf());
            reveal_strlit("revenue");
            reveal_strlit("other_income");
        }
        let revenue = str_eq(r.account_type.as_str(), "revenue") || str_eq(
            r.account_type.as_str(),
            "other_income",
        );
        let bal = if revenue {
            dec_sub(r.credit, r.debit)
        } else {
            dec_sub(r.debit, r.credit)
        };
        proof {
            lemma_amount_opt(bal);
        }
        let bal = match bal {
            Some(b) => b,
            None => {
                proof {
                    assert(closing_scan(rows@.subrange(0, i + 1)) is None);
                    lemma_scan_none_stays(rows@, i + 1, rows.len() as int);
                    assert(rows@.subrange(0, rows.len() as int) =~= rows@);
                }
                return None;
            },
        };
        if !bal.is_zero() {
            let total = if revenue {
                dec_add(rev, bal)
            } else {
                dec_add(exp, bal)
            };
            proof {
                lemma_amount_opt(total);
            }
            let total = match total {
                Some(t) => t,
                None => {
                    proof {
                        assert(closing_scan(rows@.subrange(0, i + 1)) is None);
                        lemma_scan_none_stays(rows@, i + 1, rows.len() as int);
                        assert(rows@.subrange(0, rows.len() as int) =~= rows@);
                    }
                    return None;
                },
            };
            if revenue {
                lines.push(close_line(r.account_id, bal, Amount::zero()));
                proof {
                    ls = ls.push((r.account_id, bal, zero()));
                }
                rev = total;
            } else {
                lines.push(close_line(r.account_id, Amount::zero(), bal));
                proof {
                    ls = ls.push((r.account_id, zero(), bal));
                }
                exp = total;
            }
        }
        i = i + 1;
    }
    proof {
        assert(rows@.subrange(0, rows.len() as int) =~= rows@);
    }
    let net = dec_sub(rev, exp);
    proof {
        lemma_amount_opt(net);
    }
    let net = match net {
        Some(n) => n,
        None => {
            return None;
        },
    };
    if lines.len() > 0 {
        if net.is_positive() {
            lines.push(close_line(retained_earnings_account_id, Amount::zero(), net));
            proof {
                ls = ls.push((retained_earnings_account_id, zero(), net));
            }
        } else if net.is_negative() {
            lines.push(close_line(retained_earnings_account_id, net.neg(), Amount::zero()));
            proof {
                ls = ls.push(
                    (
                        retained_earnings_account_id,
                        Amount { mantissa: (-net.mantissa) as i128, scale: net.scale },
                        zero(),
                    ),
                );
            }
        }
    }
    Some(ClosingPlan { lines, net_income: net })
}

pub open spec fn col_debits(ls: Seq<(u128, Amount, Amount)>) -> Seq<Amount> {
    ls.map_values(|t: (u128, Amount, Amount)| t.1)
}

pub open spec fn col_credits(ls: Seq<(u128, Amount, Amount)>) -> Seq<Amount> {
    ls.map_values(|t: (u128, Amount, Amount)| t.2)
}

/// Every row amount has a scale of at most `s`.
pub open spec fn rows_within(rows: Seq<PlBalanceRow>, s: u32) -> bool {
    forall|i: int| 0 <= i < rows.len() ==> (#[trigger] rows[i]).debit.scale <= s && rows[i].credit.scale <= s
}

/// The magnitude of an amount's value.
pub open spec fn mag(a: Amount) -> int {
    abs_int(a.value())
}

/// Σ (|debit| + |credit|) over the rows, as values.
pub open spec fn row_magnitude(rows: Seq<PlBalanceRow>) -> int
    decreases rows.len(),
{
    if rows.len() == 0 {
        0
    } else {
        row_magnitude(rows.drop_last()) + mag(rows.last().debit) + mag(rows.last().credit)
    }
}

proof fn lemma_push_cols(ls: Seq<(u128, Amount, Amount)>, t: (u128, Amount, Amount))
    ensures
        col_debits(ls.push(t)) == col_debits(ls).push(t.1),
        col_credits(ls.push(t)) == col_credits(ls).push(t.2),
{
    assert(col_debits(ls.push(t)) =~= col_debits(ls).push(t.1));
    assert(col_credits(ls.push(t)) =~= col_credits(ls).push(t.2));
}

proof fn lemma_row_magnitude_nonneg(rows: Seq<PlBalanceRow>)
    ensures
        row_magnitude(rows) >= 0,
    decreases rows.len(),
{
    if rows.len() > 0 {
        lemma_row_magnitude_nonneg(rows.drop_last());
    }
}

/// The rows before the last keep the rows' bounds.
proof fn lemma_init_rows(rows: Seq<PlBalanceRow>, s: u32)
    requires
        rows.len() > 0,
        rows_wf(rows),
        rows_within(rows, s),
    ensures
        rows_wf(rows.drop_last()),
        rows_within(rows.drop_last(), s),
        rows.last() == rows[rows.len() - 1],
        row_magnitude(rows) == row_magnitude(rows.drop_last()) + mag(rows.last().debit) + mag(rows.last().credit),
        row_magnitude(rows.drop_last()) >= 0,
{
    let init = rows.drop_last();
    assert forall|i: int| 0 <= i < init.len() implies (#[trigger] init[i]).debit.wf() && init[i].credit.wf() by {
        assert(init[i] == rows[i]);
    }
    assert forall|i: int| 0 <= i < init.len() implies (#[trigger] init[i]).debit.scale <= s && init[i].credit.scale
        <= s by {
        assert(init[i] == rows[i]);
    }
    lemma_row_magnitude_nonneg(init);
}

/// The scan is exact on rows whose magnitudes fit the room of a scale at least
/// as fine as theirs: the revenue and expense totals are the value sums of the
/// debit and credit columns.
proof fn lemma_scan_exact(rows: Seq<PlBalanceRow>, s: u32)
    requires
        rows_wf(rows),
        rows_within(rows, s),
        s <= MAX_SCALE,
        row_magnitude(rows) <= value_room(s),
    ensures
        closing_scan(rows) matches Some((ls, rev, exp)) && {
            &&& rev.wf() && exp.wf() && rev.scale <= s && exp.scale <= s
            &&& value_sum(col_debits(ls)) == rev.value()
            &&& value_sum(col_credits(ls)) == exp.value()
            &&& all_within(col_debits(ls), s) && all_within(col_credits(ls), s)
            &&& value_mag_sum(col_debits(ls)) + value_mag_sum(col_credits(ls)) <= row_magnitude(rows)
        },
    decreases rows.len(),
{
    if rows.len() == 0 {
        assert(col_debits(seq![]) =~= Seq::<Amount>::empty());
        assert(col_credits(seq![]) =~= Seq::<Amount>::empty());
        lemma_value_sign(zero());
    } else {
        let init = rows.drop_last();
        lemma_init_rows(rows, s);
        lemma_scan_exact(init, s);
        let (ls, rev, exp) = closing_scan(init).unwrap();
        let r = rows.last();
        lemma_value_sum_bound(col_debits(ls));
        lemma_value_sum_bound(col_credits(ls));
        lemma_value_sign(zero());
        lemma_add_sub_value(r.credit, r.debit, s);
        lemma_add_sub_value(r.debit, r.credit, s);
        if is_revenue(r.account_type@) {
            let bal = sub_spec(r.credit, r.debit).unwrap();
            lemma_value_sign(bal);
            if bal.mantissa != 0 {
                lemma_add_sub_value(rev, bal, s);
                lemma_push_cols(ls, (r.account_id, bal, zero()));
                lemma_push_value(col_debits(ls), bal, s);
                lemma_push_value(col_credits(ls), zero(), s);
            }
        } else {
            let bal = sub_spec(r.debit, r.credit).unwrap();
            lemma_value_sign(bal);
            if bal.mantissa != 0 {
                lemma_add_sub_value(exp, bal, s);
                lemma_push_cols(ls, (r.account_id, zero(), bal));
                lemma_push_value(col_debits(ls), zero(), s);
                lemma_push_value(col_credits(ls), bal, s);
            }
        }
    }
}

/// A row's account is levelled by a closing line: the line is on its account
/// and the row's debit plus the line's debit equals the row's credit plus the
/// line's credit, as numbers.
pub open spec fn levels(r: PlBalanceRow, t: (u128, Amount, Amount)) -> bool {
    t.0 == r.account_id && r.debit.value() + t.1.value() == r.credit.value() + t.2.value()
}

proof fn lemma_scan_levels(rows: Seq<PlBalanceRow>, s: u32)
    requires
        rows_wf(rows),
        rows_within(rows, s),
        s <= MAX_SCALE,
        row_magnitude(rows) <= value_room(s),
    ensures
        closing_scan(rows) matches Some((ls, rev, exp)) && forall|i: int|
            0 <= i < rows.len() && (#[trigger] rows[i]).debit.value() != rows[i].credit.value() ==> exists|j: int|
                0 <= j < ls.len() && levels(rows[i], #[trigger] ls[j]),
    decreases rows.len(),
{
    lemma_scan_exact(rows, s);
    if rows.len() > 0 {
        let init = rows.drop_last();
        lemma_init_rows(rows, s);
        lemma_scan_levels(init, s);
        lemma_scan_exact(init, s);
        let (ls, rev, exp) = closing_scan(init).unwrap();
        let (ls2, rev2, exp2) = closing_scan(rows).unwrap();
        let r = rows.last();
        lemma_value_sign(zero());
        lemma_add_sub_value(r.credit, r.debit, s);
        lemma_add_sub_value(r.debit, r.credit, s);
        let t = if is_revenue(r.account_type@) {
            let bal = sub_spec(r.credit, r.debit).unwrap();
            lemma_value_sign(bal);
            (r.account_id, bal, zero())
        } else {
            let bal = sub_spec(r.debit, r.credit).unwrap();
            lemma_value_sign(bal);
            (r.account_id, zero(), bal)
        };
        assert(r.debit.value() != r.credit.value() ==> ls2 == ls.push(t));
        assert(levels(r, t));
        assert forall|i: int| 0 <= i < rows.len() && (#[trigger] rows[i]).debit.value() != rows[i].credit.value() implies exists|j: int|
            0 <= j < ls2.len() && levels(rows[i], #[trigger] ls2[j]) by {
            if i < init.len() {
                assert(init[i] == rows[i]);
                let j = choose|j: int| 0 <= j < ls.len() && levels(init[i], #[trigger] ls[j]);
                assert(ls2 == ls || ls2 == ls.push(t));
                assert(ls2[j] == ls[j]);
            } else {
                assert(ls2[ls.len() as int] == t);
                assert(levels(rows[i], ls2[ls.len() as int]));
            }
        }
    }
}

/// Closing zeroes the P&L accounts. On P&L rows whose scales are at most `s`
/// and whose magnitudes, doubled, fit the 96-bit decimal range at scale `s`,
/// every row whose debit and credit differ gets a closing line on its account
/// that levels them: the row's debit plus the line's debit equals its credit
/// plus the line's credit, as numbers.
pub proof fn lemma_closing_zeroes_accounts(rows: Seq<PlBalanceRow>, retained: u128, s: u32)
    requires
        rows_wf(rows),
        rows_within(rows, s),
        s <= MAX_SCALE,
        2 * row_magnitude(rows) <= value_room(s),
    ensures
        closing_entry(rows, retained) matches Some((ls, net)) && forall|i: int|
            0 <= i < rows.len() && (#[trigger] rows[i]).debit.value() != rows[i].credit.value() ==> exists|j: int|
                0 <= j < ls.len() && levels(rows[i], #[trigger] ls[j]),
{
    lemma_closing_entry_balanced(rows, retained, s);
    lemma_row_magnitude_nonneg(rows);
    lemma_scan_levels(rows, s);
    let (ls, rev, exp) = closing_scan(rows).unwrap();
    let (ls2, net) = closing_entry(rows, retained).unwrap();
    assert forall|i: int| 0 <= i < rows.len() && (#[trigger] rows[i]).debit.value() != rows[i].credit.value() implies exists|j: int|
        0 <= j < ls2.len() && levels(rows[i], #[trigger] ls2[j]) by {
        let j = choose|j: int| 0 <= j < ls.len() && levels(rows[i], #[trigger] ls[j]);
        assert(ls2[j] == ls[j]);
    }
}

/// The closing entry balances. On P&L rows whose scales are at most `s` and
/// whose magnitudes, doubled, fit the 96-bit decimal range at scale `s`, the
/// closing lines' debits and credits sum to the same number, and the net
/// income is the revenue total minus the expense total.
pub proof fn lemma_closing_entry_balanced(rows: Seq<PlBalanceRow>, retained: u128, s: u32)
    requires
        rows_wf(rows),
        rows_within(rows, s),
        s <= MAX_SCALE,
        2 * row_magnitude(rows) <= value_room(s),
    ensures
        closing_entry(rows, retained) matches Some((ls, net)) && {
            &&& sum_of(col_debits(ls)) is Some
            &&& sum_of(col_credits(ls)) is Some
            &&& amount_of(sum_of(col_debits(ls)).unwrap()).value() == amount_of(
                sum_of(col_credits(ls)).unwrap(),
            ).value()
            &&& net.value() == closing_scan(rows).unwrap().1.value() - closing_scan(rows).unwrap().2.value()
        },
{
    lemma_row_magnitude_nonneg(rows);
    lemma_scan_exact(rows, s);
    let (ls, rev, exp) = closing_scan(rows).unwrap();
    let ds = col_debits(ls);
    let cs = col_credits(ls);
    lemma_value_sum_bound(ds);
    lemma_value_sum_bound(cs);
    lemma_add_sub_value(rev, exp, s);
    let net = sub_spec(rev, exp).unwrap();
    lemma_value_sign(net);
    lemma_value_sign(zero());
    if ls.len() == 0 {
        assert(ds =~= Seq::<Amount>::empty());
        assert(cs =~= Seq::<Amount>::empty());
        lemma_sum_of_value(ds, s);
        lemma_sum_of_value(cs, s);
    } else if net.mantissa > 0 {
        let t = (retained, zero(), net);
        lemma_push_cols(ls, t);
        lemma_push_value(ds, zero(), s);
        lemma_push_value(cs, net, s);
        lemma_sum_of_value(ds.push(zero()), s);
        lemma_sum_of_value(cs.push(net), s);
    } else if net.mantissa < 0 {
        let neg = Amount { mantissa: (-net.mantissa) as i128, scale: net.scale };
        assert(neg.value() == -net.value()) by (nonlinear_arith)
            requires
                neg.value() == (-net.mantissa) * pow10((MAX_SCALE - net.scale) as nat),
                net.value() == net.mantissa * pow10((MAX_SCALE - net.scale) as nat),
        ;
        let t = (retained, neg, zero());
        lemma_push_cols(ls, t);
        lemma_push_value(ds, neg, s);
        lemma_push_value(cs, zero(), s);
        lemma_sum_of_value(ds.push(neg), s);
        lemma_sum_of_value(cs.push(zero()), s);
    } else {
        lemma_sum_of_value(ds, s);
        lemma_sum_of_value(cs, s);
    }
}

} // verus!
