//! Financial reports computed from the immutable ledger: trial balance,
//! balance sheet, income statement, general ledger sections, partner ledger
//! and aged receivables/payables.
//!
//! Sign convention: a debit-normal account's balance is debit minus credit; a
//! credit-normal account's balance is credit minus debit. Since the ledger is
//! balanced (total debit equals total credit), a trial balance always foots
//! and a balance sheet always balances as assets = liabilities + equity +
//! current earnings. Loading the ledger sums is done by the caller.

use crate::amount::{
    add_spec, amount_of, dec_add, dec_eq, dec_sub, lemma_amount_opt, lemma_pow10_positive, pow10, running,
    running_total, sub_spec, Amount, MAX_MANTISSA, MAX_SCALE,
};
use crate::amount::{
    abs_int, lemma_add_sub_value, lemma_running_value, lemma_steps_value_concat, lemma_value_bound, lemma_value_sign,
    signed_value_sum, steps_within, value_magnitude, value_room,
};
use crate::amount::{all_wf, parts_of, sum_amounts, sum_of};
use crate::amount::{all_within, lemma_sum_of_value, value_mag_sum, value_sum};
use crate::text::{clone_opt, ostr, str_eq};
use vstd::prelude::*;

verus! {

/// The reporting class of an account type.
#[derive(Debug, Clone, Copy, PartialEq, Eq, Structural)]
pub enum AccountKind {
    Asset,
    Liability,
    Equity,
    Revenue,
    OtherIncome,
    Cogs,
    Expense,
    OtherExpense,
    /// Any other type: it takes part in no report bucket.
    Other,
}

/// The class of the account type `t`.
pub open spec fn kind_of(t: Seq<char>) -> AccountKind {
    if t == "asset"@ {
        AccountKind::Asset
    } else if t == "liability"@ {
        AccountKind::Liability
    } else if t == "equity"@ {
        AccountKind::Equity
    } else if t == "revenue"@ {
        AccountKind::Revenue
    } else if t == "other_income"@ {
        AccountKind::OtherIncome
    } else if t == "cogs"@ {
        AccountKind::Cogs
    } else if t == "expense"@ {
        AccountKind::Expense
    } else if t == "other_expense"@ {
        AccountKind::OtherExpense
    } else {
        AccountKind::Other
    }
}

/// The class of an account type.
pub fn account_kind(t: &str) -> (r: AccountKind)
    ensures
        r == kind_of(t@),
{
    if str_eq(t, "asset") {
        AccountKind::Asset
    } else if str_eq(t, "liability") {
        AccountKind::Liability
    } else if str_eq(t, "equity") {
        AccountKind::Equity
    } else if str_eq(t, "revenue") {
        AccountKind::Revenue
    } else if str_eq(t, "other_income") {
        AccountKind::OtherIncome
    } else if str_eq(t, "cogs") {
        AccountKind::Cogs
    } else if str_eq(t, "expense") {
        AccountKind::Expense
    } else if str_eq(t, "other_expense") {
        AccountKind::OtherExpense
    } else {
        AccountKind::Other
    }
}

/// Assets and the expense classes are debit-normal; the rest credit-normal.
pub open spec fn debit_normal(k: AccountKind) -> bool {
    k == AccountKind::Asset || k == AccountKind::Expense || k == AccountKind::Cogs || k
        == AccountKind::OtherExpense
}

/// The signed balance on the account's normal side.
pub open spec fn normal_balance_spec(k: AccountKind, debit: Amount, credit: Amount) -> Option<Amount> {
    if debit_normal(k) {
        sub_spec(debit, credit)
    } else {
        sub_spec(credit, debit)
    }
}

/// Signed balance on the account's normal side: debit minus credit for
/// assets and expenses, credit minus debit otherwise. `None` on overflow.
pub fn normal_balance(at: &str, debit: Amount, credit: Amount) -> (r: Option<Amount>)
    requires
        debit.wf(),
        credit.wf(),
    ensures
        r == normal_balance_spec(kind_of(at@), debit, credit),
        r matches Some(b) ==> b.wf(),
{
    let k = account_kind(at);
    let r = match k {
        AccountKind::Asset | AccountKind::Expense | AccountKind::Cogs | AccountKind::OtherExpense => dec_sub(debit, credit),
        _ => dec_sub(credit, debit),
    };
    proof {
        lemma_amount_opt(r);
    }
    r
}

/// One account's ledger totals over the report window.
#[derive(Debug, Clone)]
pub struct AccountSum {
    pub account_id: u128,
    pub account_number: String,
    pub name: String,
    pub account_type: String,
    pub debit: Amount,
    pub credit: Amount,
}

pub open spec fn sums_wf(rows: Seq<AccountSum>) -> bool {
    forall|i: int| 0 <= i < rows.len() ==> (#[trigger] rows[i]).debit.wf() && rows[i].credit.wf()
}

/// Zero, as `Decimal::ZERO` (scale 0).
pub open spec fn zero_amount() -> Amount {
    Amount { mantissa: 0, scale: 0 }
}

/// The amount negated at its scale.
pub open spec fn negated(a: Amount) -> Amount {
    Amount { mantissa: (-a.mantissa) as i128, scale: a.scale }
}

/// One trial-balance line: an account with a nonzero net, on its side.
#[derive(Debug, Clone)]
pub struct TrialBalanceLine {
    pub account_number: String,
    pub name: String,
    pub account_type: String,
    pub debit: Amount,
    pub credit: Amount,
}

/// The net of a detail account, on its side, for the trial-balance tree.
#[derive(Debug, Clone, Copy)]
pub struct DetailNet {
    pub account_id: u128,
    pub debit: Amount,
    pub credit: Amount,
}

/// The flat part of a trial balance.
#[derive(Debug, Clone)]
pub struct TrialBalanceTotals {
    pub lines: Vec<TrialBalanceLine>,
    pub detail_net: Vec<DetailNet>,
    pub total_debit: Amount,
    pub total_credit: Amount,
    pub balanced: bool,
}

/// A nonzero net on its side: a positive net is a debit, a negative one a
/// credit of its magnitude.
pub open spec fn tb_split(net: Amount) -> (Amount, Amount) {
    if net.mantissa > 0 {
        (net, zero_amount())
    } else {
        (zero_amount(), negated(net))
    }
}

/// The trial-balance entries of `rows` as (row index, debit, credit): one per
/// account whose debit minus credit is not zero, in order; `None` when a net
/// overflows.
pub open spec fn tb_entries(rows: Seq<AccountSum>) -> Option<Seq<(int, Amount, Amount)>>
    decreases rows.len(),
{
    if rows.len() == 0 {
        Some(Seq::empty())
    } else {
        match tb_entries(rows.drop_last()) {
            None => None,
            Some(es) => match sub_spec(rows.last().debit, rows.last().credit) {
                None => None,
                Some(net) => if net.mantissa == 0 {
                    Some(es)
                } else {
                    Some(es.push((rows.len() - 1, tb_split(net).0, tb_split(net).1)))
                },
            },
        }
    }
}

/// The debit column of the entries, as additions.
pub open spec fn debit_steps(es: Seq<(int, Amount, Amount)>) -> Seq<(bool, Amount)> {
    es.map_values(|e: (int, Amount, Amount)| (false, e.1))
}

/// The credit column of the entries, as additions.
pub open spec fn credit_steps(es: Seq<(int, Amount, Amount)>) -> Seq<(bool, Amount)> {
    es.map_values(|e: (int, Amount, Amount)| (false, e.2))
}

/// The line at `k` shows row `e.0` with the entry's debit and credit.
pub open spec fn line_shows(line: TrialBalanceLine, net: DetailNet, row: AccountSum, e: (int, Amount, Amount)) -> bool {
    &&& line.account_number@ == row.account_number@
    &&& line.name@ == row.name@
    &&& line.account_type@ == row.account_type@
    &&& line.debit == e.1
    &&& line.credit == e.2
    &&& net.account_id == row.account_id
    &&& net.debit == e.1
    &&& net.credit == e.2
}

/// The trial balance of the account sums: one line per account whose net
/// (debit minus credit) is not zero, a positive net on the debit side and a
/// negative one on the credit side; the column totals; and whether they are
/// equal. `None` when the decimal arithmetic overflows.
pub fn trial_balance_totals(rows: &Vec<AccountSum>) -> (r: Option<TrialBalanceTotals>)
    requires
        sums_wf(rows@),
    ensures
        match tb_entries(rows@) {
            None => r is None,
            Some(es) => match (running(debit_steps(es)), running(credit_steps(es))) {
                (Some(td), Some(tc)) => r matches Some(t) && {
                    &&& t.lines.len() == es.len()
                    &&& t.detail_net.len() == es.len()
                    &&& forall|k: int| 0 <= k < es.len() ==> line_shows(
                        #[trigger] t.lines@[k],
                        t.detail_net@[k],
                        rows@[es[k].0],
                        es[k],
                    )
                    &&& t.total_debit == td
                    &&& t.total_credit == tc
                    &&& t.balanced == (td.value() == tc.value())
                },
                _ => r is None,
            },
        },
{
    let mut lines: Vec<TrialBalanceLine> = Vec::new();
    let mut nets: Vec<DetailNet> = Vec::new();
    let mut dsteps: Vec<(bool, Amount)> = Vec::new();
    let mut csteps: Vec<(bool, Amount)> = Vec::new();
    let ghost mut es: Seq<(int, Amount, Amount)> = Seq::empty();
    let mut i: usize = 0;
    assert(rows@.take(0) =~= Seq::<AccountSum>::empty());
    while i < rows.len()
        invariant
            i <= rows.len(),
            sums_wf(rows@),
            tb_entries(rows@.take(i as int)) == Some(es),
            lines.len() == es.len(),
            nets.len() == es.len(),
            dsteps@ == debit_steps(es),
            csteps@ == credit_steps(es),
            forall|k: int| 0 <= k < es.len() ==> 0 <= (#[trigger] es[k]).0 < i,
            forall|k: int| 0 <= k < es.len() ==> line_shows(
                #[trigger] lines@[k],
                nets@[k],
                rows@[es[k].0],
                es[k],
            ),
            forall|k: int| 0 <= k < dsteps.len() ==> (#[trigger] dsteps@[k]).1.wf(),
            forall|k: int| 0 <= k < csteps.len() ==> (#[trigger] csteps@[k]).1.wf(),
        decreases rows.len() - i,
    {
        let s = &rows[i];
        proof {
            assert(rows@.take(i + 1).drop_last() =~= rows@.take(i as int));
            assert(rows@.take(i + 1).last() == rows@[i as int]);
        }
        let net = match dec_sub(s.debit, s.credit) {
            Some(n) => n,
            None => {
                proof {
                    lemma_tb_none_stays(rows@, i + 1);
                }
                return None;
            },
        };
        if !net.is_zero() {
            let (debit, credit) = if net.is_positive() {
                (net, Amount::zero())
            } else {
                (Amount::zero(), net.neg())
            };
            lines.push(TrialBalanceLine {
                account_number: s.account_number.clone(),
                name: s.name.clone(),
                account_type: s.account_type.clone(),
                debit,
                credit,
            });
            nets.push(DetailNet { account_id: s.account_id, debit, credit });
            dsteps.push((false, debit));
            csteps.push((false, credit));
            proof {
                let e = (i as int, debit, credit);
                es = es.push(e);
                assert(dsteps@ =~= debit_steps(es));
                assert(csteps@ =~= credit_steps(es));
                assert forall|k: int| 0 <= k < es.len() implies line_shows(
                    #[trigger] lines@[k],
                    nets@[k],
                    rows@[es[k].0],
                    es[k],
                ) by {
                    if k < es.len() - 1 {
                    }
                }
            }
        }
        i = i + 1;
    }
    proof {
        assert(rows@.take(rows.len() as int) =~= rows@);
    }
    let total_debit = match running_total(&dsteps) {
        Some(t) => t,
        None => return None,
    };
    let total_credit = match running_total(&csteps) {
        Some(t) => t,
        None => return None,
    };
    let balanced = dec_eq(total_debit, total_credit);
    Some(TrialBalanceTotals { lines, detail_net: nets, total_debit, total_credit, balanced })
}

proof fn lemma_tb_none_stays(rows: Seq<AccountSum>, n: int)
    requires
        0 <= n <= rows.len(),
        tb_entries(rows.take(n)) is None,
    ensures
        tb_entries(rows) is None,
    decreases rows.len() - n,
{
    if n < rows.len() {
        assert(rows.take(n + 1).drop_last() =~= rows.take(n));
        lemma_tb_none_stays(rows, n + 1);
    } else {
        assert(rows.take(n) =~= rows);
    }
}

/// The debit column of the account sums.
pub open spec fn debit_col(rows: Seq<AccountSum>) -> Seq<Amount> {
    rows.map_values(|r: AccountSum| r.debit)
}

/// The credit column of the account sums.
pub open spec fn credit_col(rows: Seq<AccountSum>) -> Seq<Amount> {
    rows.map_values(|r: AccountSum| r.credit)
}

/// The values of the amounts, summed.
pub open spec fn value_total(xs: Seq<Amount>) -> int
    decreases xs.len(),
{
    if xs.len() == 0 {
        0
    } else {
        value_total(xs.drop_last()) + xs.last().value()
    }
}

/// The magnitudes of the amounts' values, summed.
pub open spec fn value_magnitude_total(xs: Seq<Amount>) -> int
    decreases xs.len(),
{
    if xs.len() == 0 {
        0
    } else {
        value_magnitude_total(xs.drop_last()) + abs_int(xs.last().value())
    }
}

/// Every debit and credit is in range, with a scale of at most `s`.
pub open spec fn sums_within(rows: Seq<AccountSum>, s: u32) -> bool {
    forall|i: int| 0 <= i < rows.len() ==> {
        &&& (#[trigger] rows[i]).debit.wf()
        &&& rows[i].credit.wf()
        &&& rows[i].debit.scale <= s
        &&& rows[i].credit.scale <= s
    }
}

/// The magnitudes of all debit and credit values together.
pub open spec fn ledger_value_magnitude(rows: Seq<AccountSum>) -> int {
    value_magnitude_total(debit_col(rows)) + value_magnitude_total(credit_col(rows))
}

proof fn lemma_value_magnitude_total_nonneg(xs: Seq<Amount>)
    ensures
        value_magnitude_total(xs) >= 0,
    decreases xs.len(),
{
    if xs.len() > 0 {
        lemma_value_magnitude_total_nonneg(xs.drop_last());
    }
}

proof fn lemma_sums_within_prefix(rows: Seq<AccountSum>, s: u32)
    requires
        rows.len() > 0,
        sums_within(rows, s),
    ensures
        sums_within(rows.drop_last(), s),
        debit_col(rows).drop_last() == debit_col(rows.drop_last()),
        credit_col(rows).drop_last() == credit_col(rows.drop_last()),
        debit_col(rows).last() == rows.last().debit,
        credit_col(rows).last() == rows.last().credit,
        rows.last().debit.wf(),
        rows.last().credit.wf(),
        rows.last().debit.scale <= s,
        rows.last().credit.scale <= s,
        value_magnitude_total(debit_col(rows.drop_last())) >= 0,
        value_magnitude_total(credit_col(rows.drop_last())) >= 0,
{
    let p = rows.drop_last();
    assert(sums_within(p, s)) by {
        assert forall|i: int| 0 <= i < p.len() implies {
            &&& (#[trigger] p[i]).debit.wf()
            &&& p[i].credit.wf()
            &&& p[i].debit.scale <= s
            &&& p[i].credit.scale <= s
        } by {
            assert(p[i] == rows[i]);
        }
    }
    assert(debit_col(rows).drop_last() =~= debit_col(p));
    assert(credit_col(rows).drop_last() =~= credit_col(p));
    assert(rows[rows.len() - 1] == rows.last());
    lemma_value_magnitude_total_nonneg(debit_col(p));
    lemma_value_magnitude_total_nonneg(credit_col(p));
}

/// The trial-balance entries, in value: their debit column less their credit
/// column is the ledger's debits less its credits, within the ledger's
/// magnitude, at scales of at most `s`.
proof fn lemma_tb_value(rows: Seq<AccountSum>, s: u32)
    requires
        s <= MAX_SCALE,
        sums_within(rows, s),
        ledger_value_magnitude(rows) <= value_room(s),
    ensures
        tb_entries(rows) matches Some(es) && {
            &&& signed_value_sum(debit_steps(es)) - signed_value_sum(credit_steps(es)) == value_total(
                debit_col(rows),
            ) - value_total(credit_col(rows))
            &&& value_magnitude(debit_steps(es)) + value_magnitude(credit_steps(es)) <= ledger_value_magnitude(rows)
            &&& steps_within(debit_steps(es), s)
            &&& steps_within(credit_steps(es), s)
        },
    decreases rows.len(),
{
    if rows.len() == 0 {
        assert(debit_steps(Seq::empty()) =~= Seq::empty());
        assert(credit_steps(Seq::empty()) =~= Seq::empty());
    } else {
        let p = rows.drop_last();
        lemma_sums_within_prefix(rows, s);
        lemma_tb_value(p, s);
        let es = tb_entries(p).unwrap();
        let d = rows.last().debit;
        let c = rows.last().credit;
        lemma_add_sub_value(d, c, s);
        let net = sub_spec(d, c).unwrap();
        lemma_value_sign(net);
        lemma_value_sign(d);
        lemma_value_sign(c);
        if net.mantissa != 0 {
            let e = (rows.len() - 1, tb_split(net).0, tb_split(net).1);
            lemma_value_sign(e.1);
            lemma_value_sign(e.2);
            assert(negated(net).value() == -net.value()) by (nonlinear_arith)
                requires
                    negated(net).value() == (-net.mantissa) * pow10((MAX_SCALE - net.scale) as nat),
                    net.value() == net.mantissa * pow10((MAX_SCALE - net.scale) as nat),
            ;
            assert(debit_steps(es.push(e)) =~= debit_steps(es).push((false, e.1)));
            assert(credit_steps(es.push(e)) =~= credit_steps(es).push((false, e.2)));
            assert(debit_steps(es.push(e)).drop_last() =~= debit_steps(es));
            assert(credit_steps(es.push(e)).drop_last() =~= credit_steps(es));
            let ds = debit_steps(es.push(e));
            let cs = credit_steps(es.push(e));
            assert(steps_within(ds, s)) by {
                assert forall|i: int| 0 <= i < ds.len() implies (#[trigger] ds[i]).1.wf() && ds[i].1.scale <= s by {
                    if i < ds.len() - 1 {
                        assert(ds[i] == debit_steps(es)[i]);
                    }
                }
            }
            assert(steps_within(cs, s)) by {
                assert forall|i: int| 0 <= i < cs.len() implies (#[trigger] cs[i]).1.wf() && cs[i].1.scale <= s by {
                    if i < cs.len() - 1 {
                        assert(cs[i] == credit_steps(es)[i]);
                    }
                }
            }
        }
    }
}

/// The trial balance foots: when the ledger is balanced (its debit values and
/// credit values add up to the same number) and its amounts, at scales of at
/// most `s`, together stay within what 96-bit mantissas at scale `s` hold, the
/// trial balance is computed and its debit and credit totals are equal.
pub proof fn lemma_trial_balance_foots(rows: Seq<AccountSum>, s: u32)
    requires
        s <= MAX_SCALE,
        sums_within(rows, s),
        ledger_value_magnitude(rows) <= value_room(s),
        value_total(debit_col(rows)) == value_total(credit_col(rows)),
    ensures
        tb_entries(rows) matches Some(es) && running(debit_steps(es)) matches Some(td) && running(
            credit_steps(es),
        ) matches Some(tc) && td.value() == tc.value(),
{
    lemma_tb_value(rows, s);
    let es = tb_entries(rows).unwrap();
    lemma_value_bound(debit_steps(es));
    lemma_value_bound(credit_steps(es));
    lemma_running_value(debit_steps(es), s);
    lemma_running_value(credit_steps(es), s);
}

/// A total of a balance sheet or an income statement.
#[derive(Debug, Clone, Copy, PartialEq, Eq, Structural)]
pub enum Bucket {
    Assets,
    Liabilities,
    Equity,
    /// Income classes added, expense classes subtracted.
    CurrentEarnings,
    Revenue,
    OtherIncome,
    Cogs,
    Expenses,
    OtherExpense,
}

/// How an account of class `k` enters bucket `b`: `Some(false)` added,
/// `Some(true)` subtracted, `None` not at all.
pub open spec fn bucket_step(b: Bucket, k: AccountKind) -> Option<bool> {
    match b {
        Bucket::Assets => if k == AccountKind::Asset { Some(false) } else { None },
        Bucket::Liabilities => if k == AccountKind::Liability { Some(false) } else { None },
        Bucket::Equity => if k == AccountKind::Equity { Some(false) } else { None },
        Bucket::CurrentEarnings => if k == AccountKind::Revenue || k == AccountKind::OtherIncome {
            Some(false)
        } else if k == AccountKind::Expense || k == AccountKind::Cogs || k == AccountKind::OtherExpense {
            Some(true)
        } else {
            None
        },
        Bucket::Revenue => if k == AccountKind::Revenue { Some(false) } else { None },
        Bucket::OtherIncome => if k == AccountKind::OtherIncome { Some(false) } else { None },
        Bucket::Cogs => if k == AccountKind::Cogs { Some(false) } else { None },
        Bucket::Expenses => if k == AccountKind::Expense { Some(false) } else { None },
        Bucket::OtherExpense => if k == AccountKind::OtherExpense { Some(false) } else { None },
    }
}

fn bucket_step_exec(b: Bucket, k: AccountKind) -> (r: Option<bool>)
    ensures
        r == bucket_step(b, k),
{
    match b {
        Bucket::Assets => if k == AccountKind::Asset { Some(false) } else { None },
        Bucket::Liabilities => if k == AccountKind::Liability { Some(false) } else { None },
        Bucket::Equity => if k == AccountKind::Equity { Some(false) } else { None },
        Bucket::CurrentEarnings => if k == AccountKind::Revenue || k == AccountKind::OtherIncome {
            Some(false)
        } else if k == AccountKind::Expense || k == AccountKind::Cogs || k == AccountKind::OtherExpense {
            Some(true)
        } else {
            None
        },
        Bucket::Revenue => if k == AccountKind::Revenue { Some(false) } else { None },
        Bucket::OtherIncome => if k == AccountKind::OtherIncome { Some(false) } else { None },
        Bucket::Cogs => if k == AccountKind::Cogs { Some(false) } else { None },
        Bucket::Expenses => if k == AccountKind::Expense { Some(false) } else { None },
        Bucket::OtherExpense => if k == AccountKind::OtherExpense { Some(false) } else { None },
    }
}

/// The class of each row.
pub open spec fn kinds_of(rows: Seq<AccountSum>) -> Seq<AccountKind> {
    rows.map_values(|r: AccountSum| kind_of(r.account_type@))
}

/// The normal-side balance of every row, `None` when one overflows.
pub open spec fn bals_of(rows: Seq<AccountSum>) -> Option<Seq<Amount>>
    decreases rows.len(),
{
    if rows.len() == 0 {
        Some(Seq::empty())
    } else {
        match bals_of(rows.drop_last()) {
            None => None,
            Some(bs) => match normal_balance_spec(
                kind_of(rows.last().account_type@),
                rows.last().debit,
                rows.last().credit,
            ) {
                None => None,
                Some(b) => Some(bs.push(b)),
            },
        }
    }
}

/// The steps of bucket `b` over the first `n` rows.
pub open spec fn bucket_steps(kinds: Seq<AccountKind>, bals: Seq<Amount>, b: Bucket, n: int) -> Seq<(bool, Amount)>
    decreases n,
{
    if n <= 0 {
        Seq::empty()
    } else {
        let prev = bucket_steps(kinds, bals, b, n - 1);
        match bucket_step(b, kinds[n - 1]) {
            Some(sub) => prev.push((sub, bals[n - 1])),
            None => prev,
        }
    }
}

/// The total of bucket `b`.
pub open spec fn bucket_total(kinds: Seq<AccountKind>, bals: Seq<Amount>, b: Bucket) -> Option<Amount> {
    running(bucket_steps(kinds, bals, b, kinds.len() as int))
}

proof fn lemma_bals_none_stays(rows: Seq<AccountSum>, n: int)
    requires
        0 <= n <= rows.len(),
        bals_of(rows.take(n)) is None,
    ensures
        bals_of(rows) is None,
    decreases rows.len() - n,
{
    if n < rows.len() {
        assert(rows.take(n + 1).drop_last() =~= rows.take(n));
        lemma_bals_none_stays(rows, n + 1);
    } else {
        assert(rows.take(n) =~= rows);
    }
}

/// The class and normal-side balance of every row; `None` when a balance
/// overflows.
pub fn row_balances(rows: &Vec<AccountSum>) -> (r: Option<(Vec<AccountKind>, Vec<Amount>)>)
    requires
        sums_wf(rows@),
    ensures
        match bals_of(rows@) {
            None => r is None,
            Some(bs) => r matches Some((ks, vs)) && ks@ == kinds_of(rows@) && vs@ == bs && ks.len()
                == vs.len() && forall|i: int|
                0 <= i < vs.len() ==> (#[trigger] vs@[i]).wf(),
        },
{
    let mut ks: Vec<AccountKind> = Vec::new();
    let mut vs: Vec<Amount> = Vec::new();
    let mut i: usize = 0;
    assert(rows@.take(0) =~= Seq::<AccountSum>::empty());
    while i < rows.len()
        invariant
            i <= rows.len(),
            sums_wf(rows@),
            ks@ == kinds_of(rows@.take(i as int)),
            ks.len() == i,
            vs.len() == i,
            bals_of(rows@.take(i as int)) == Some(vs@),
            forall|k: int| 0 <= k < vs.len() ==> (#[trigger] vs@[k]).wf(),
        decreases rows.len() - i,
    {
        let s = &rows[i];
        proof {
            assert(rows@.take(i + 1).drop_last() =~= rows@.take(i as int));
            assert(rows@.take(i + 1).last() == rows@[i as int]);
        }
        let b = match normal_balance(s.account_type.as_str(), s.debit, s.credit) {
            Some(b) => b,
            None => {
                proof {
                    lemma_bals_none_stays(rows@, i + 1);
                }
                return None;
            },
        };
        ks.push(account_kind(s.account_type.as_str()));
        vs.push(b);
        proof {
            assert(ks@ =~= kinds_of(rows@.take(i + 1)));
        }
        i = i + 1;
    }
    proof {
        assert(rows@.take(rows.len() as int) =~= rows@);
    }
    Some((ks, vs))
}

/// The total of one bucket over the rows' classes and balances.
pub fn bucket_sum(kinds: &Vec<AccountKind>, bals: &Vec<Amount>, b: Bucket) -> (r: Option<Amount>)
    requires
        kinds.len() == bals.len(),
        forall|i: int| 0 <= i < bals.len() ==> (#[trigger] bals@[i]).wf(),
    ensures
        r == bucket_total(kinds@, bals@, b),
        r matches Some(t) ==> t.wf(),
{
    let mut steps: Vec<(bool, Amount)> = Vec::new();
    let mut i: usize = 0;
    while i < kinds.len()
        invariant
            i <= kinds.len() == bals.len(),
            forall|i: int| 0 <= i < bals.len() ==> (#[trigger] bals@[i]).wf(),
            steps@ == bucket_steps(kinds@, bals@, b, i as int),
            forall|k: int| 0 <= k < steps.len() ==> (#[trigger] steps@[k]).1.wf(),
        decreases kinds.len() - i,
    {
        match bucket_step_exec(b, kinds[i]) {
            Some(sub) => {
                steps.push((sub, bals[i]));
            },
            None => {},
        }
        i = i + 1;
    }
    running_total(&steps)
}

/// The balance-sheet totals: assets, liabilities, equity, current earnings,
/// and liabilities + equity + current earnings.
pub open spec fn bs_spec(rows: Seq<AccountSum>) -> Option<(Amount, Amount, Amount, Amount, Amount)> {
    match bals_of(rows) {
        None => None,
        Some(bs) => {
            let ks = kinds_of(rows);
            match (
                bucket_total(ks, bs, Bucket::Assets),
                bucket_total(ks, bs, Bucket::Liabilities),
                bucket_total(ks, bs, Bucket::Equity),
                bucket_total(ks, bs, Bucket::CurrentEarnings),
            ) {
                (Some(a), Some(l), Some(e), Some(ce)) => match add_spec(l, e) {
                    None => None,
                    Some(le) => match add_spec(le, ce) {
                        None => None,
                        Some(t) => Some((a, l, e, ce, t)),
                    },
                },
                _ => None,
            }
        },
    }
}

#[derive(Debug, Clone, Copy)]
pub struct BalanceSheetTotals {
    pub assets: Amount,
    pub liabilities: Amount,
    pub equity: Amount,
    pub current_earnings: Amount,
    pub total_liabilities_and_equity: Amount,
    pub balanced: bool,
}

/// Balance sheet as of the sums' date: each account's normal-side balance
/// goes to assets, liabilities or equity by its type; income classes add to
/// and expense classes subtract from current earnings; it balances when
/// assets equal liabilities + equity + current earnings. `None` on overflow.
pub fn balance_sheet_totals(rows: &Vec<AccountSum>) -> (r: Option<BalanceSheetTotals>)
    requires
        sums_wf(rows@),
    ensures
        match bs_spec(rows@) {
            None => r is None,
            Some((a, l, e, ce, t)) => r matches Some(b) && b.assets == a && b.liabilities == l
                && b.equity == e && b.current_earnings == ce && b.total_liabilities_and_equity == t
                && b.balanced == (a.value() == t.value()),
        },
{
    let (ks, vs) = match row_balances(rows) {
        Some(p) => p,
        None => return None,
    };
    let assets = match bucket_sum(&ks, &vs, Bucket::Assets) {
        Some(t) => t,
        None => return None,
    };
    let liabilities = match bucket_sum(&ks, &vs, Bucket::Liabilities) {
        Some(t) => t,
        None => return None,
    };
    let equity = match bucket_sum(&ks, &vs, Bucket::Equity) {
        Some(t) => t,
        None => return None,
    };
    let current_earnings = match bucket_sum(&ks, &vs, Bucket::CurrentEarnings) {
        Some(t) => t,
        None => return None,
    };
    let le = dec_add(liabilities, equity);
    proof {
        lemma_amount_opt(le);
    }
    let le = match le {
        Some(t) => t,
        None => return None,
    };
    let total = dec_add(le, current_earnings);
    proof {
        lemma_amount_opt(total);
    }
    let total = match total {
        Some(t) => t,
        None => return None,
    };
    Some(BalanceSheetTotals {
        assets,
        liabilities,
        equity,
        current_earnings,
        total_liabilities_and_equity: total,
        balanced: dec_eq(assets, total),
    })
}

/// The income-statement totals: revenue, other income, cost of goods sold,
/// expenses, other expense, and net income.
pub open spec fn is_spec(rows: Seq<AccountSum>) -> Option<(Amount, Amount, Amount, Amount, Amount, Amount)> {
    match bals_of(rows) {
        None => None,
        Some(bs) => {
            let ks = kinds_of(rows);
            match (
                bucket_total(ks, bs, Bucket::Revenue),
                bucket_total(ks, bs, Bucket::OtherIncome),
                bucket_total(ks, bs, Bucket::Cogs),
                bucket_total(ks, bs, Bucket::Expenses),
                bucket_total(ks, bs, Bucket::OtherExpense),
            ) {
                (Some(rv), Some(oi), Some(cg), Some(ex), Some(oe)) => match add_spec(rv, oi) {
                    None => None,
                    Some(n1) => match sub_spec(n1, cg) {
                        None => None,
                        Some(n2) => match sub_spec(n2, ex) {
                            None => None,
                            Some(n3) => match sub_spec(n3, oe) {
                                None => None,
                                Some(n) => Some((rv, oi, cg, ex, oe, n)),
                            },
                        },
                    },
                },
                _ => None,
            }
        },
    }
}

#[derive(Debug, Clone, Copy)]
pub struct IncomeStatementTotals {
    pub revenue: Amount,
    pub other_income: Amount,
    pub cogs: Amount,
    pub expenses: Amount,
    pub other_expense: Amount,
    pub net_income: Amount,
}

/// Income statement over the sums' period: each income or expense class
/// totalled on its normal side, and net income = revenue + other income -
/// cogs - expenses - other expense. `None` on overflow.
pub fn income_statement_totals(rows: &Vec<AccountSum>) -> (r: Option<IncomeStatementTotals>)
    requires
        sums_wf(rows@),
    ensures
        match is_spec(rows@) {
            None => r is None,
            Some((rv, oi, cg, ex, oe, n)) => r matches Some(t) && t.revenue == rv && t.other_income == oi
                && t.cogs == cg && t.expenses == ex && t.other_expense == oe && t.net_income == n,
        },
{
    let (ks, vs) = match row_balances(rows) {
        Some(p) => p,
        None => return None,
    };
    let revenue = match bucket_sum(&ks, &vs, Bucket::Revenue) {
        Some(t) => t,
        None => return None,
    };
    let other_income = match bucket_sum(&ks, &vs, Bucket::OtherIncome) {
        Some(t) => t,
        None => return None,
    };
    let cogs = match bucket_sum(&ks, &vs, Bucket::Cogs) {
        Some(t) => t,
        None => return None,
    };
    let expenses = match bucket_sum(&ks, &vs, Bucket::Expenses) {
        Some(t) => t,
        None => return None,
    };
    let other_expense = match bucket_sum(&ks, &vs, Bucket::OtherExpense) {
        Some(t) => t,
        None => return None,
    };
    let n1 = dec_add(revenue, other_income);
    proof {
        lemma_amount_opt(n1);
    }
    let n1 = match n1 {
        Some(t) => t,
        None => return None,
    };
    let n2 = dec_sub(n1, cogs);
    proof {
        lemma_amount_opt(n2);
    }
    let n2 = match n2 {
        Some(t) => t,
        None => return None,
    };
    let n3 = dec_sub(n2, expenses);
    proof {
        lemma_amount_opt(n3);
    }
    let n3 = match n3 {
        Some(t) => t,
        None => return None,
    };
    let n = dec_sub(n3, other_expense);
    proof {
        lemma_amount_opt(n);
    }
    let net_income = match n {
        Some(t) => t,
        None => return None,
    };
    Some(IncomeStatementTotals { revenue, other_income, cogs, expenses, other_expense, net_income })
}

/// An account's balance on its normal side, in value.
pub open spec fn exact_bal(k: AccountKind, d: Amount, c: Amount) -> int {
    if debit_normal(k) {
        d.value() - c.value()
    } else {
        c.value() - d.value()
    }
}

/// The normal-side balances are exact in value, within their rows'
/// magnitudes, at scales of at most `s`.
pub open spec fn bals_exact(rows: Seq<AccountSum>, bs: Seq<Amount>, s: u32) -> bool {
    &&& bs.len() == rows.len()
    &&& forall|i: int| 0 <= i < bs.len() ==> {
        &&& (#[trigger] bs[i]).wf()
        &&& bs[i].scale <= s
        &&& bs[i].value() == exact_bal(kind_of(rows[i].account_type@), rows[i].debit, rows[i].credit)
        &&& abs_int(bs[i].value()) <= abs_int(rows[i].debit.value()) + abs_int(rows[i].credit.value())
    }
}

proof fn lemma_bals_exact(rows: Seq<AccountSum>, s: u32)
    requires
        s <= MAX_SCALE,
        sums_within(rows, s),
        ledger_value_magnitude(rows) <= value_room(s),
    ensures
        bals_of(rows) matches Some(bs) && bals_exact(rows, bs, s),
    decreases rows.len(),
{
    if rows.len() > 0 {
        let p = rows.drop_last();
        lemma_sums_within_prefix(rows, s);
        lemma_bals_exact(p, s);
        let bs = bals_of(p).unwrap();
        let l = rows.last();
        lemma_add_sub_value(l.debit, l.credit, s);
        lemma_add_sub_value(l.credit, l.debit, s);
        let b = normal_balance_spec(kind_of(l.account_type@), l.debit, l.credit).unwrap();
        let nb = bs.push(b);
        assert forall|i: int| 0 <= i < nb.len() implies {
            &&& (#[trigger] nb[i]).wf()
            &&& nb[i].scale <= s
            &&& nb[i].value() == exact_bal(kind_of(rows[i].account_type@), rows[i].debit, rows[i].credit)
            &&& abs_int(nb[i].value()) <= abs_int(rows[i].debit.value()) + abs_int(rows[i].credit.value())
        } by {
            if i < bs.len() {
                assert(nb[i] == bs[i]);
                assert(p[i] == rows[i]);
            } else {
                assert(rows[i] == l);
            }
        }
    }
}

/// Each row of a known class is in exactly one balance-sheet bucket, so the
/// buckets' signed value totals differ by exactly the ledger's debits less
/// its credits.
proof fn lemma_bs_steps(rows: Seq<AccountSum>, bs: Seq<Amount>, s: u32, n: int)
    requires
        0 <= n <= rows.len(),
        bals_exact(rows, bs, s),
        forall|i: int| 0 <= i < rows.len() ==> kind_of((#[trigger] rows[i]).account_type@) != AccountKind::Other,
    ensures
        ({
            let ks = kinds_of(rows);
            let a = bucket_steps(ks, bs, Bucket::Assets, n);
            let l = bucket_steps(ks, bs, Bucket::Liabilities, n);
            let e = bucket_steps(ks, bs, Bucket::Equity, n);
            let ce = bucket_steps(ks, bs, Bucket::CurrentEarnings, n);
            &&& signed_value_sum(a) - signed_value_sum(l) - signed_value_sum(e) - signed_value_sum(ce)
                == value_total(debit_col(rows.take(n))) - value_total(credit_col(rows.take(n)))
            &&& value_magnitude(a) + value_magnitude(l) + value_magnitude(e) + value_magnitude(ce)
                <= value_magnitude_total(debit_col(rows.take(n))) + value_magnitude_total(credit_col(rows.take(n)))
            &&& steps_within(a, s)
            &&& steps_within(l, s)
            &&& steps_within(e, s)
            &&& steps_within(ce, s)
        }),
    decreases n,
{
    let ks = kinds_of(rows);
    if n == 0 {
        assert(rows.take(0) =~= Seq::<AccountSum>::empty());
        assert(debit_col(rows.take(0)) =~= Seq::<Amount>::empty());
        assert(credit_col(rows.take(0)) =~= Seq::<Amount>::empty());
    } else {
        lemma_bs_steps(rows, bs, s, n - 1);
        let t = rows.take(n);
        assert(t.drop_last() =~= rows.take(n - 1));
        assert(debit_col(t).drop_last() =~= debit_col(rows.take(n - 1)));
        assert(credit_col(t).drop_last() =~= credit_col(rows.take(n - 1)));
        assert(debit_col(t).last() == rows[n - 1].debit);
        assert(credit_col(t).last() == rows[n - 1].credit);
        let k = ks[n - 1];
        assert(k == kind_of(rows[n - 1].account_type@));
        let x = bs[n - 1];
        assert(x.wf() && x.scale <= s);
        let buckets = seq![Bucket::Assets, Bucket::Liabilities, Bucket::Equity, Bucket::CurrentEarnings];
        assert forall|j: int| 0 <= j < 4 implies {
            let b = #[trigger] buckets[j];
            let prev = bucket_steps(ks, bs, b, n - 1);
            let cur = bucket_steps(ks, bs, b, n);
            &&& (bucket_step(b, k) matches Some(sub) ==> cur == prev.push((sub, x)) && cur.drop_last() == prev
                && cur.last() == (sub, x))
            &&& (bucket_step(b, k) is None ==> cur == prev)
            &&& steps_within(prev, s) ==> steps_within(cur, s)
        } by {
            let b = buckets[j];
            let prev = bucket_steps(ks, bs, b, n - 1);
            let cur = bucket_steps(ks, bs, b, n);
            if let Some(sub) = bucket_step(b, k) {
                assert(cur.drop_last() =~= prev);
                if steps_within(prev, s) {
                    assert forall|i: int| 0 <= i < cur.len() implies (#[trigger] cur[i]).1.wf() && cur[i].1.scale <= s by {
                        if i < prev.len() {
                            assert(cur[i] == prev[i]);
                        }
                    }
                }
            }
        }
        assert(buckets[0] == Bucket::Assets);
        assert(buckets[1] == Bucket::Liabilities);
        assert(buckets[2] == Bucket::Equity);
        assert(buckets[3] == Bucket::CurrentEarnings);
    }
}

/// The balance sheet balances: when the ledger is balanced (its debit values
/// and credit values add up to the same number), every account has a known
/// type, and its amounts, at scales of at most `s`, together stay within what
/// 96-bit mantissas at scale `s` hold, the balance sheet is computed and
/// assets equal liabilities + equity + current earnings.
pub proof fn lemma_balance_sheet_balances(rows: Seq<AccountSum>, s: u32)
    requires
        s <= MAX_SCALE,
        sums_within(rows, s),
        ledger_value_magnitude(rows) <= value_room(s),
        value_total(debit_col(rows)) == value_total(credit_col(rows)),
        forall|i: int| 0 <= i < rows.len() ==> kind_of((#[trigger] rows[i]).account_type@) != AccountKind::Other,
    ensures
        bs_spec(rows) matches Some((a, l, e, ce, t)) && a.value() == t.value(),
{
    lemma_bals_exact(rows, s);
    let bs = bals_of(rows).unwrap();
    let ks = kinds_of(rows);
    let n = rows.len() as int;
    lemma_bs_steps(rows, bs, s, n);
    assert(rows.take(n) =~= rows);
    let sa = bucket_steps(ks, bs, Bucket::Assets, n);
    let sl = bucket_steps(ks, bs, Bucket::Liabilities, n);
    let se = bucket_steps(ks, bs, Bucket::Equity, n);
    let sc = bucket_steps(ks, bs, Bucket::CurrentEarnings, n);
    lemma_value_bound(sa);
    lemma_value_bound(sl);
    lemma_value_bound(se);
    lemma_value_bound(sc);
    lemma_running_value(sa, s);
    lemma_running_value(sl, s);
    lemma_running_value(se, s);
    lemma_running_value(sc, s);
    let a = running(sa).unwrap();
    let l = running(sl).unwrap();
    let e = running(se).unwrap();
    let ce = running(sc).unwrap();
    lemma_add_sub_value(l, e, s);
    let le = add_spec(l, e).unwrap();
    lemma_add_sub_value(le, ce, s);
}

/// The normal-side balances, as values, of the rows of class `k`, summed.
pub open spec fn kind_total(rows: Seq<AccountSum>, k: AccountKind) -> int
    decreases rows.len(),
{
    if rows.len() == 0 {
        0
    } else {
        let r = rows.last();
        kind_total(rows.drop_last(), k) + if kind_of(r.account_type@) == k {
            exact_bal(k, r.debit, r.credit)
        } else {
            0
        }
    }
}

/// The magnitudes of the debit and credit values of the rows of class `k`.
pub open spec fn kind_mag(rows: Seq<AccountSum>, k: AccountKind) -> int
    decreases rows.len(),
{
    if rows.len() == 0 {
        0
    } else {
        let r = rows.last();
        kind_mag(rows.drop_last(), k) + if kind_of(r.account_type@) == k {
            abs_int(r.debit.value()) + abs_int(r.credit.value())
        } else {
            0
        }
    }
}

/// A bucket that takes exactly the rows of class `k`, added: its steps add
/// up to their class's balances, within their magnitudes.
proof fn lemma_kind_steps(rows: Seq<AccountSum>, bs: Seq<Amount>, s: u32, n: int, b: Bucket, k: AccountKind)
    requires
        0 <= n <= rows.len(),
        bals_exact(rows, bs, s),
        forall|kk: AccountKind| #[trigger] bucket_step(b, kk) == if kk == k {
            Some(false)
        } else {
            None::<bool>
        },
    ensures
        signed_value_sum(bucket_steps(kinds_of(rows), bs, b, n)) == kind_total(rows.take(n), k),
        value_magnitude(bucket_steps(kinds_of(rows), bs, b, n)) <= kind_mag(rows.take(n), k),
        steps_within(bucket_steps(kinds_of(rows), bs, b, n), s),
    decreases n,
{
    let ks = kinds_of(rows);
    if n == 0 {
        assert(rows.take(0) =~= Seq::<AccountSum>::empty());
    } else {
        lemma_kind_steps(rows, bs, s, n - 1, b, k);
        let t = rows.take(n);
        assert(t.drop_last() =~= rows.take(n - 1));
        assert(t.last() == rows[n - 1]);
        assert(ks[n - 1] == kind_of(rows[n - 1].account_type@));
        let x = bs[n - 1];
        assert(x.wf() && x.scale <= s);
        let prev = bucket_steps(ks, bs, b, n - 1);
        let cur = bucket_steps(ks, bs, b, n);
        assert(bucket_step(b, ks[n - 1]) == if ks[n - 1] == k {
            Some(false)
        } else {
            None::<bool>
        });
        if ks[n - 1] == k {
            assert(cur == prev.push((false, x)));
            assert(cur.drop_last() =~= prev);
            assert(cur.last() == (false, x));
            assert forall|i: int| 0 <= i < cur.len() implies (#[trigger] cur[i]).1.wf() && cur[i].1.scale <= s by {
                if i < prev.len() {
                    assert(cur[i] == prev[i]);
                }
            }
        }
    }
}

proof fn lemma_kind_mag_bound(rows: Seq<AccountSum>)
    ensures
        kind_mag(rows, AccountKind::Revenue) >= 0,
        kind_mag(rows, AccountKind::OtherIncome) >= 0,
        kind_mag(rows, AccountKind::Cogs) >= 0,
        kind_mag(rows, AccountKind::Expense) >= 0,
        kind_mag(rows, AccountKind::OtherExpense) >= 0,
        kind_mag(rows, AccountKind::Revenue) + kind_mag(rows, AccountKind::OtherIncome) + kind_mag(
            rows,
            AccountKind::Cogs,
        ) + kind_mag(rows, AccountKind::Expense) + kind_mag(rows, AccountKind::OtherExpense)
            <= ledger_value_magnitude(rows),
    decreases rows.len(),
{
    if rows.len() > 0 {
        let p = rows.drop_last();
        lemma_kind_mag_bound(p);
        assert(debit_col(rows).drop_last() =~= debit_col(p));
        assert(credit_col(rows).drop_last() =~= credit_col(p));
        assert(debit_col(rows).last() == rows.last().debit);
        assert(credit_col(rows).last() == rows.last().credit);
    }
}

/// The income statement's net income is revenue plus other income less cost
/// of goods sold, expenses and other expense, as numbers, and each of those
/// is the sum of its class's normal-side balances (credit less debit for the
/// income classes, debit less credit for the others). This holds whenever
/// the amounts, at scales of at most `s`, together fit what 96-bit mantissas
/// at scale `s` hold; a period whose costs exceed its income therefore shows
/// a negative net income.
pub proof fn lemma_net_income(rows: Seq<AccountSum>, s: u32)
    requires
        s <= MAX_SCALE,
        sums_within(rows, s),
        ledger_value_magnitude(rows) <= value_room(s),
    ensures
        is_spec(rows) matches Some((rv, oi, cg, ex, oe, n)) && {
            &&& n.value() == rv.value() + oi.value() - cg.value() - ex.value() - oe.value()
            &&& rv.value() == kind_total(rows, AccountKind::Revenue)
            &&& oi.value() == kind_total(rows, AccountKind::OtherIncome)
            &&& cg.value() == kind_total(rows, AccountKind::Cogs)
            &&& ex.value() == kind_total(rows, AccountKind::Expense)
            &&& oe.value() == kind_total(rows, AccountKind::OtherExpense)
        },
{
    lemma_bals_exact(rows, s);
    let bs = bals_of(rows).unwrap();
    let ks = kinds_of(rows);
    let n = rows.len() as int;
    assert(rows.take(n) =~= rows);
    lemma_kind_steps(rows, bs, s, n, Bucket::Revenue, AccountKind::Revenue);
    lemma_kind_steps(rows, bs, s, n, Bucket::OtherIncome, AccountKind::OtherIncome);
    lemma_kind_steps(rows, bs, s, n, Bucket::Cogs, AccountKind::Cogs);
    lemma_kind_steps(rows, bs, s, n, Bucket::Expenses, AccountKind::Expense);
    lemma_kind_steps(rows, bs, s, n, Bucket::OtherExpense, AccountKind::OtherExpense);
    lemma_kind_mag_bound(rows);
    let srv = bucket_steps(ks, bs, Bucket::Revenue, n);
    let soi = bucket_steps(ks, bs, Bucket::OtherIncome, n);
    let scg = bucket_steps(ks, bs, Bucket::Cogs, n);
    let sex = bucket_steps(ks, bs, Bucket::Expenses, n);
    let soe = bucket_steps(ks, bs, Bucket::OtherExpense, n);
    lemma_value_bound(srv);
    lemma_value_bound(soi);
    lemma_value_bound(scg);
    lemma_value_bound(sex);
    lemma_value_bound(soe);
    lemma_running_value(srv, s);
    lemma_running_value(soi, s);
    lemma_running_value(scg, s);
    lemma_running_value(sex, s);
    lemma_running_value(soe, s);
    let rv = running(srv).unwrap();
    let oi = running(soi).unwrap();
    let cg = running(scg).unwrap();
    let ex = running(sex).unwrap();
    let oe = running(soe).unwrap();
    lemma_add_sub_value(rv, oi, s);
    let n1 = add_spec(rv, oi).unwrap();
    lemma_add_sub_value(n1, cg, s);
    let n2 = sub_spec(n1, cg).unwrap();
    lemma_add_sub_value(n2, ex, s);
    let n3 = sub_spec(n2, ex).unwrap();
    lemma_add_sub_value(n3, oe, s);
}

/// One party-stamped ledger line with its residual as of the report date.
#[derive(Debug, Clone)]
pub struct PartnerLedgerLine {
    pub line_id: u128,
    pub journal_number: String,
    pub transaction_date: i32,
    pub account_number: String,
    pub account_name: String,
    pub description: Option<String>,
    pub debit: Amount,
    pub credit: Amount,
    pub currency: String,
    pub residual: Amount,
}

#[derive(Debug, Clone, Copy)]
pub struct PartnerLedgerTotals {
    pub total_debit: Amount,
    pub total_credit: Amount,
    /// The sum of the line residuals: the party's open position.
    pub open_residual: Amount,
}

pub open spec fn partner_col(lines: Seq<PartnerLedgerLine>, c: int) -> Seq<Amount> {
    lines.map_values(|l: PartnerLedgerLine| if c == 0 {
        l.debit
    } else if c == 1 {
        l.credit
    } else {
        l.residual
    })
}

pub open spec fn partner_wf(lines: Seq<PartnerLedgerLine>) -> bool {
    forall|i: int| 0 <= i < lines.len() ==> (#[trigger] lines[i]).debit.wf() && lines[i].credit.wf()
        && lines[i].residual.wf()
}

fn partner_column(lines: &Vec<PartnerLedgerLine>, c: u8) -> (r: Vec<Amount>)
    requires
        partner_wf(lines@),
    ensures
        r@ == partner_col(lines@, c as int),
        all_wf(r@),
{
    let mut out: Vec<Amount> = Vec::new();
    let mut i: usize = 0;
    while i < lines.len()
        invariant
            i <= lines.len(),
            partner_wf(lines@),
            out@ == partner_col(lines@.take(i as int), c as int),
            all_wf(out@),
        decreases lines.len() - i,
    {
        let l = &lines[i];
        let a = if c == 0 {
            l.debit
        } else if c == 1 {
            l.credit
        } else {
            l.residual
        };
        out.push(a);
        proof {
            assert(partner_col(lines@.take(i + 1), c as int) =~= partner_col(lines@.take(i as int), c as int).push(a));
        }
        i = i + 1;
    }
    proof {
        assert(lines@.take(lines.len() as int) =~= lines@);
    }
    out
}

/// The partner ledger's totals: the sums of the debits, the credits and the
/// residuals of its lines. `None` on overflow.
pub fn partner_ledger_totals(lines: &Vec<PartnerLedgerLine>) -> (r: Option<PartnerLedgerTotals>)
    requires
        partner_wf(lines@),
    ensures
        match (sum_of(partner_col(lines@, 0)), sum_of(partner_col(lines@, 1)), sum_of(partner_col(lines@, 2))) {
            (Some(d), Some(c), Some(o)) => r matches Some(t) && t.total_debit == amount_of(d) && t.total_credit
                == amount_of(c) && t.open_residual == amount_of(o),
            _ => r is None,
        },
{
    let d = partner_column(lines, 0);
    let c = partner_column(lines, 1);
    let o = partner_column(lines, 2);
    let td = match sum_amounts(&d) {
        Some(t) => t,
        None => return None,
    };
    let tc = match sum_amounts(&c) {
        Some(t) => t,
        None => return None,
    };
    let to = match sum_amounts(&o) {
        Some(t) => t,
        None => return None,
    };
    Some(PartnerLedgerTotals { total_debit: td, total_credit: tc, open_residual: to })
}

/// The debits (`c == 0`), credits (`c == 1`) or residuals (`c == 2`) of the
/// lines, as values, summed over every line.
pub open spec fn partner_value_total(lines: Seq<PartnerLedgerLine>, c: int) -> int
    decreases lines.len(),
{
    if lines.len() == 0 {
        0
    } else {
        let l = lines.last();
        partner_value_total(lines.drop_last(), c) + if c == 0 {
            l.debit.value()
        } else if c == 1 {
            l.credit.value()
        } else {
            l.residual.value()
        }
    }
}

/// Every amount of the lines is in range, with a scale of at most `s`, and
/// the magnitudes of each kind (debits, credits, residuals) add up to at most
/// `room`.
pub open spec fn partner_within(lines: Seq<PartnerLedgerLine>, s: u32, room: int) -> bool {
    &&& forall|i: int| 0 <= i < lines.len() ==> {
        &&& (#[trigger] lines[i]).debit.wf() && lines[i].debit.scale <= s
        &&& lines[i].credit.wf() && lines[i].credit.scale <= s
        &&& lines[i].residual.wf() && lines[i].residual.scale <= s
    }
    &&& partner_mag(lines, 0) <= room
    &&& partner_mag(lines, 1) <= room
    &&& partner_mag(lines, 2) <= room
}

/// The magnitudes of the debit, credit or residual values, summed.
pub open spec fn partner_mag(lines: Seq<PartnerLedgerLine>, c: int) -> int
    decreases lines.len(),
{
    if lines.len() == 0 {
        0
    } else {
        let l = lines.last();
        partner_mag(lines.drop_last(), c) + abs_int(if c == 0 {
            l.debit.value()
        } else if c == 1 {
            l.credit.value()
        } else {
            l.residual.value()
        })
    }
}

proof fn lemma_partner_col_value(lines: Seq<PartnerLedgerLine>, c: int, s: u32)
    requires
        0 <= c < 3,
        forall|i: int| 0 <= i < lines.len() ==> {
            &&& (#[trigger] lines[i]).debit.wf() && lines[i].debit.scale <= s
            &&& lines[i].credit.wf() && lines[i].credit.scale <= s
            &&& lines[i].residual.wf() && lines[i].residual.scale <= s
        },
    ensures
        value_sum(partner_col(lines, c)) == partner_value_total(lines, c),
        value_mag_sum(partner_col(lines, c)) == partner_mag(lines, c),
        all_within(partner_col(lines, c), s),
    decreases lines.len(),
{
    if lines.len() > 0 {
        let init = lines.drop_last();
        assert forall|i: int| 0 <= i < init.len() implies {
            &&& (#[trigger] init[i]).debit.wf() && init[i].debit.scale <= s
            &&& init[i].credit.wf() && init[i].credit.scale <= s
            &&& init[i].residual.wf() && init[i].residual.scale <= s
        } by {
            assert(init[i] == lines[i]);
        }
        lemma_partner_col_value(init, c, s);
        assert(partner_col(lines, c).drop_last() =~= partner_col(init, c));
        assert(lines[lines.len() - 1] == lines.last());
        let col = partner_col(lines, c);
        assert forall|i: int| 0 <= i < col.len() implies (#[trigger] col[i]).wf() && col[i].scale <= s by {
            assert(col[i] == partner_col(lines, c)[i]);
        }
    } else {
        assert(partner_col(lines, c) =~= Seq::<Amount>::empty());
    }
}

/// The partner ledger's totals add up every line. When its amounts, at
/// scales of at most `s`, fit what 96-bit mantissas at scale `s` hold, the
/// totals are computed, and the total debit, total credit and open residual
/// are, as numbers, the sums over all lines of their debits, credits and
/// residuals: every line's residual counts, whichever side it is on.
pub proof fn lemma_partner_totals(lines: Seq<PartnerLedgerLine>, s: u32)
    requires
        s <= MAX_SCALE,
        partner_within(lines, s, value_room(s)),
    ensures
        sum_of(partner_col(lines, 0)) matches Some(d) && amount_of(d).value() == partner_value_total(lines, 0),
        sum_of(partner_col(lines, 1)) matches Some(c) && amount_of(c).value() == partner_value_total(lines, 1),
        sum_of(partner_col(lines, 2)) matches Some(o) && amount_of(o).value() == partner_value_total(lines, 2),
{
    lemma_partner_col_value(lines, 0, s);
    lemma_partner_col_value(lines, 1, s);
    lemma_partner_col_value(lines, 2, s);
    lemma_sum_of_value(partner_col(lines, 0), s);
    lemma_sum_of_value(partner_col(lines, 1), s);
    lemma_sum_of_value(partner_col(lines, 2), s);
}

/// The page of a general-ledger read: the limit defaults to 200 and is
/// clamped to 1..=1000; a negative offset reads as 0.
pub fn gl_page(limit: Option<i64>, offset: i64) -> (r: (i64, i64))
    ensures
        r.0 == (match limit {
            Some(l) => if l < 1 {
                1
            } else if l > 1000 {
                1000
            } else {
                l
            },
            None => 200,
        }),
        r.1 == (if offset < 0 {
            0
        } else {
            offset
        }),
{
    let l = match limit {
        Some(l) => l,
        None => 200,
    };
    let l = if l < 1 {
        1
    } else if l > 1000 {
        1000
    } else {
        l
    };
    let o = if offset < 0 {
        0
    } else {
        offset
    };
    (l, o)
}

/// The age bucket of an open item `days` old: 0 for 0-30 (and future
/// dates), 1 for 31-60, 2 for 61-90, 3 for 91 and more.
pub open spec fn age_bucket(days: int) -> int {
    if days <= 30 {
        0
    } else if days <= 60 {
        1
    } else if days <= 90 {
        2
    } else {
        3
    }
}

/// One open receivable/payable item.
#[derive(Debug, Clone)]
pub struct AgedItem {
    pub party_type: String,
    pub party_id: u128,
    /// Days since 0001-01-01 (day 1 is that date).
    pub transaction_date: i32,
    pub residual: Amount,
}

/// One party's open residual by age bucket.
#[derive(Debug, Clone)]
pub struct AgedPartyRow {
    pub party_type: String,
    pub party_id: u128,
    pub bucket_0_30: Amount,
    pub bucket_31_60: Amount,
    pub bucket_61_90: Amount,
    pub bucket_91_plus: Amount,
    pub total: Amount,
}

/// The amounts of a row: the four buckets, then the total.
pub open spec fn row_amounts(r: AgedPartyRow) -> Seq<Amount> {
    seq![r.bucket_0_30, r.bucket_31_60, r.bucket_61_90, r.bucket_91_plus, r.total]
}

/// The steps an item of age `days` adds to column `c` (0-3 the buckets, 4
/// the total).
pub open spec fn item_steps(days: int, amount: Amount, c: int) -> Seq<(bool, Amount)> {
    if c == 4 || age_bucket(days) == c {
        seq![(false, amount)]
    } else {
        Seq::empty()
    }
}

/// Adds an item of age `days` to a row: to the total and to its bucket.
pub fn bucket(row: &mut AgedPartyRow, days: i64, amount: Amount) -> (ok: bool)
    requires
        amount.wf(),
        forall|c: int| 0 <= c < 5 ==> (#[trigger] row_amounts(*old(row))[c]).wf(),
    ensures
        ok ==> forall|c: int| 0 <= c < 5 ==> {
            &&& Some(#[trigger] row_amounts(*final(row))[c]) == (if c == 4 || age_bucket(days as int) == c {
                add_spec(row_amounts(*old(row))[c], amount)
            } else {
                Some(row_amounts(*old(row))[c])
            })
            &&& row_amounts(*final(row))[c].wf()
        },
        !ok ==> exists|c: int| 0 <= c < 5 && (c == 4 || age_bucket(days as int) == c) && add_spec(
            #[trigger] row_amounts(*old(row))[c],
            amount,
        ) is None,
        final(row).party_type == old(row).party_type,
        final(row).party_id == old(row).party_id,
{
    let ghost before = row_amounts(*row);
    let t = dec_add(row.total, amount);
    proof {
        lemma_amount_opt(t);
        assert(before[4] == row.total);
    }
    let t = match t {
        Some(t) => t,
        None => return false,
    };
    if days <= 30 {
        let b = dec_add(row.bucket_0_30, amount);
        proof {
            lemma_amount_opt(b);
            assert(before[0] == row.bucket_0_30);
        }
        match b {
            Some(b) => {
                row.bucket_0_30 = b;
            },
            None => return false,
        }
    } else if days <= 60 {
        let b = dec_add(row.bucket_31_60, amount);
        proof {
            lemma_amount_opt(b);
            assert(before[1] == row.bucket_31_60);
        }
        match b {
            Some(b) => {
                row.bucket_31_60 = b;
            },
            None => return false,
        }
    } else if days <= 90 {
        let b = dec_add(row.bucket_61_90, amount);
        proof {
            lemma_amount_opt(b);
            assert(before[2] == row.bucket_61_90);
        }
        match b {
            Some(b) => {
                row.bucket_61_90 = b;
            },
            None => return false,
        }
    } else {
        let b = dec_add(row.bucket_91_plus, amount);
        proof {
            lemma_amount_opt(b);
            assert(before[3] == row.bucket_91_plus);
        }
        match b {
            Some(b) => {
                row.bucket_91_plus = b;
            },
            None => return false,
        }
    }
    row.total = t;
    true
}

/// Lexicographic order of texts by character (the order of `String`).
pub open spec fn text_lt(a: Seq<char>, b: Seq<char>) -> bool
    decreases a.len(),
{
    if a.len() == 0 {
        b.len() > 0
    } else if b.len() == 0 {
        false
    } else if a[0] < b[0] {
        true
    } else if a[0] == b[0] {
        text_lt(a.drop_first(), b.drop_first())
    } else {
        false
    }
}

/// The order of party keys (party type, then party id).
pub open spec fn key_lt(at: Seq<char>, aid: u128, bt: Seq<char>, bid: u128) -> bool {
    text_lt(at, bt) || (at == bt && aid < bid)
}

proof fn lemma_text_lt_irrefl(a: Seq<char>)
    ensures
        !text_lt(a, a),
    decreases a.len(),
{
    if a.len() > 0 {
        lemma_text_lt_irrefl(a.drop_first());
    }
}

proof fn lemma_text_lt_trans(a: Seq<char>, b: Seq<char>, c: Seq<char>)
    requires
        text_lt(a, b),
        text_lt(b, c),
    ensures
        text_lt(a, c),
    decreases a.len(),
{
    if a.len() > 0 && b.len() > 0 && c.len() > 0 {
        if a[0] == b[0] && b[0] == c[0] {
            lemma_text_lt_trans(a.drop_first(), b.drop_first(), c.drop_first());
        }
    }
}

proof fn lemma_text_lt_total(a: Seq<char>, b: Seq<char>)
    ensures
        a == b || text_lt(a, b) || text_lt(b, a),
    decreases a.len(),
{
    if a.len() > 0 && b.len() > 0 && a[0] == b[0] {
        lemma_text_lt_total(a.drop_first(), b.drop_first());
        if a.drop_first() == b.drop_first() {
            assert(a =~= seq![a[0]] + a.drop_first());
            assert(b =~= seq![b[0]] + b.drop_first());
        }
    } else if a.len() == 0 && b.len() == 0 {
        assert(a =~= b);
    }
}


pub(crate) fn text_less(a: &str, b: &str) -> (r: bool)
    ensures
        r == text_lt(a@, b@),
{
    let x = crate::text::chars_of(a);
    let y = crate::text::chars_of(b);
    let mut i: usize = 0;
    assert(x@.skip(0) =~= x@);
    assert(y@.skip(0) =~= y@);
    while i < x.len() && i < y.len() && x[i] == y[i]
        invariant
            i <= x.len(),
            i <= y.len(),
            x@ == a@,
            y@ == b@,
            text_lt(a@, b@) == text_lt(x@.skip(i as int), y@.skip(i as int)),
        decreases x.len() - i,
    {
        proof {
            let xs = x@.skip(i as int);
            let ys = y@.skip(i as int);
            assert(xs.drop_first() =~= x@.skip(i + 1));
            assert(ys.drop_first() =~= y@.skip(i + 1));
        }
        i = i + 1;
    }
    if i == x.len() {
        return i < y.len();
    }
    if i == y.len() {
        return false;
    }
    x[i] < y[i]
}

/// The steps of column `c` of party (`t`, `id`) over the first `n` items.
pub open spec fn party_steps(items: Seq<AgedItem>, as_of: i32, t: Seq<char>, id: u128, c: int, n: int) -> Seq<(bool, Amount)>
    decreases n,
{
    if n <= 0 {
        Seq::empty()
    } else if items[n - 1].party_type@ == t && items[n - 1].party_id == id {
        party_steps(items, as_of, t, id, c, n - 1) + item_steps(
            as_of - items[n - 1].transaction_date,
            items[n - 1].residual,
            c,
        )
    } else {
        party_steps(items, as_of, t, id, c, n - 1)
    }
}

/// The steps of column `c` of the totals row over the first `n` items.
pub open spec fn total_steps(items: Seq<AgedItem>, as_of: i32, c: int, n: int) -> Seq<(bool, Amount)>
    decreases n,
{
    if n <= 0 {
        Seq::empty()
    } else {
        total_steps(items, as_of, c, n - 1) + item_steps(
            as_of - items[n - 1].transaction_date,
            items[n - 1].residual,
            c,
        )
    }
}

/// The parties of the first `n` items.
pub open spec fn item_keys(items: Seq<AgedItem>, n: int) -> Set<(Seq<char>, u128)> {
    Set::new(|k: (Seq<char>, u128)| exists|i: int| 0 <= i < n && (#[trigger] items[i]).party_type@ == k.0 && items[i].party_id == k.1)
}

pub open spec fn row_keys(rows: Seq<AgedPartyRow>) -> Set<(Seq<char>, u128)> {
    Set::new(|k: (Seq<char>, u128)| exists|j: int| 0 <= j < rows.len() && (#[trigger] rows[j]).party_type@ == k.0 && rows[j].party_id == k.1)
}

/// Rows strictly ordered by party key.
pub open spec fn rows_sorted(rows: Seq<AgedPartyRow>) -> bool {
    forall|a: int, b: int| 0 <= a < b < rows.len() ==> key_lt(
        (#[trigger] rows[a]).party_type@,
        rows[a].party_id,
        (#[trigger] rows[b]).party_type@,
        rows[b].party_id,
    )
}

/// Each row holds, per column, the running total of its party's steps.
pub open spec fn rows_hold(rows: Seq<AgedPartyRow>, items: Seq<AgedItem>, as_of: i32, n: int) -> bool {
    forall|j: int, c: int| 0 <= j < rows.len() && 0 <= c < 5 ==> {
        &&& Some(#[trigger] row_amounts(rows[j])[c]) == running(
            party_steps(items, as_of, rows[j].party_type@, rows[j].party_id, c, n),
        )
        &&& row_amounts(rows[j])[c].wf()
    }
}

pub open spec fn totals_hold(totals: AgedPartyRow, items: Seq<AgedItem>, as_of: i32, n: int) -> bool {
    forall|c: int| 0 <= c < 5 ==> {
        &&& Some(#[trigger] row_amounts(totals)[c]) == running(total_steps(items, as_of, c, n))
        &&& row_amounts(totals)[c].wf()
    }
}

pub open spec fn items_wf(items: Seq<AgedItem>) -> bool {
    forall|i: int| 0 <= i < items.len() ==> (#[trigger] items[i]).residual.wf()
}

/// Some party's column, or a totals column, overflows over all the items.
pub open spec fn aged_overflows(items: Seq<AgedItem>, as_of: i32) -> bool {
    ||| exists|i: int, c: int| 0 <= i < items.len() && 0 <= c < 5 && running(
        #[trigger] party_steps(items, as_of, items[i].party_type@, items[i].party_id, c, items.len() as int),
    ) is None
    ||| exists|c: int| 0 <= c < 5 && running(#[trigger] total_steps(items, as_of, c, items.len() as int)) is None
}




fn key_less(at: &str, aid: u128, bt: &str, bid: u128) -> (r: bool)
    ensures
        r == key_lt(at@, aid, bt@, bid),
{
    text_less(at, bt) || (crate::text::str_eq(at, bt) && aid < bid)
}

proof fn lemma_key_lt_trans(at: Seq<char>, aid: u128, bt: Seq<char>, bid: u128, ct: Seq<char>, cid: u128)
    requires
        key_lt(at, aid, bt, bid),
        key_lt(bt, bid, ct, cid),
    ensures
        key_lt(at, aid, ct, cid),
{
    if text_lt(at, bt) && text_lt(bt, ct) {
        lemma_text_lt_trans(at, bt, ct);
    }
}


proof fn lemma_key_lt_total(at: Seq<char>, aid: u128, bt: Seq<char>, bid: u128)
    ensures
        (at == bt && aid == bid) || key_lt(at, aid, bt, bid) || key_lt(bt, bid, at, aid),
{
    lemma_text_lt_total(at, bt);
}


/// The party keys of a list of (party type, id) pairs.
pub open spec fn key_set(keys: Seq<(String, u128)>) -> Set<(Seq<char>, u128)> {
    Set::new(|k: (Seq<char>, u128)| exists|j: int| 0 <= j < keys.len() && (#[trigger] keys[j]).0@ == k.0 && keys[j].1 == k.1)
}

pub open spec fn keys_sorted(keys: Seq<(String, u128)>) -> bool {
    forall|a: int, b: int| 0 <= a < b < keys.len() ==> key_lt(
        (#[trigger] keys[a]).0@,
        keys[a].1,
        (#[trigger] keys[b]).0@,
        keys[b].1,
    )
}

/// The distinct parties of the items, ascending.
fn party_keys(items: &Vec<AgedItem>) -> (r: Vec<(String, u128)>)
    ensures
        keys_sorted(r@),
        key_set(r@) == item_keys(items@, items.len() as int),
{
    let mut keys: Vec<(String, u128)> = Vec::new();
    let mut n: usize = 0;
    proof {
        assert(key_set(keys@) =~= item_keys(items@, 0));
    }
    while n < items.len()
        invariant
            n <= items.len(),
            keys_sorted(keys@),
            key_set(keys@) == item_keys(items@, n as int),
        decreases items.len() - n,
    {
        let it = &items[n];
        let mut k: usize = 0;
        while k < keys.len() && key_less(keys[k].0.as_str(), keys[k].1, it.party_type.as_str(), it.party_id)
            invariant
                k <= keys.len(),
                forall|j: int| 0 <= j < k ==> key_lt((#[trigger] keys@[j]).0@, keys@[j].1, it.party_type@, it.party_id),
            decreases keys.len() - k,
        {
            k = k + 1;
        }
        let ghost key = (it.party_type@, it.party_id);
        proof {
            assert forall|j: int| k <= j < keys.len() implies !key_lt(
                (#[trigger] keys@[j]).0@,
                keys@[j].1,
                it.party_type@,
                it.party_id,
            ) by {
                if j > k {
                    if key_lt(keys@[j].0@, keys@[j].1, it.party_type@, it.party_id) {
                        lemma_key_lt_trans(keys@[k as int].0@, keys@[k as int].1, keys@[j].0@, keys@[j].1, it.party_type@, it.party_id);
                    }
                }
            }
        }
        let found = k < keys.len() && crate::text::str_eq(keys[k].0.as_str(), it.party_type.as_str()) && keys[k].1 == it.party_id;
        if !found {
            let ghost old_keys = keys@;
            keys.insert(k, (it.party_type.clone(), it.party_id));
            proof {
                assert forall|a: int, b: int| 0 <= a < b < keys.len() implies key_lt(
                    (#[trigger] keys@[a]).0@,
                    keys@[a].1,
                    (#[trigger] keys@[b]).0@,
                    keys@[b].1,
                ) by {
                    if b < k {
                        assert(keys@[a] == old_keys[a] && keys@[b] == old_keys[b]);
                    } else if b == k {
                        assert(keys@[a] == old_keys[a]);
                    } else if a == k {
                        assert(keys@[b] == old_keys[b - 1]);
                        lemma_key_lt_total(old_keys[b - 1].0@, old_keys[b - 1].1, it.party_type@, it.party_id);
                        if b - 1 > k {
                            assert(key_lt(old_keys[k as int].0@, old_keys[k as int].1, old_keys[b - 1].0@, old_keys[b - 1].1));
                        }
                    } else if a < k {
                        assert(keys@[a] == old_keys[a] && keys@[b] == old_keys[b - 1]);
                        if a < b - 1 {
                        } else {
                        }
                        lemma_key_lt_total(old_keys[k as int].0@, old_keys[k as int].1, it.party_type@, it.party_id);
                        if b - 1 > k {
                            assert(key_lt(old_keys[k as int].0@, old_keys[k as int].1, old_keys[b - 1].0@, old_keys[b - 1].1));
                            assert(key_lt(old_keys[a].0@, old_keys[a].1, old_keys[k as int].0@, old_keys[k as int].1));
                            lemma_key_lt_trans(old_keys[a].0@, old_keys[a].1, old_keys[k as int].0@, old_keys[k as int].1, old_keys[b - 1].0@, old_keys[b - 1].1);
                        }
                    } else {
                        assert(keys@[a] == old_keys[a - 1] && keys@[b] == old_keys[b - 1]);
                    }
                }
                assert(key_set(keys@) =~= item_keys(items@, n + 1)) by {
                    assert forall|kk: (Seq<char>, u128)| key_set(keys@).contains(kk) implies item_keys(items@, n + 1).contains(kk) by {
                        let j = choose|j: int| 0 <= j < keys.len() && (#[trigger] keys@[j]).0@ == kk.0 && keys@[j].1 == kk.1;
                        if j < k {
                            assert(keys@[j] == old_keys[j]);
                            assert(key_set(old_keys).contains(kk));
                            let i = choose|i: int| 0 <= i < n && (#[trigger] items@[i]).party_type@ == kk.0 && items@[i].party_id == kk.1;
                            assert(items@[i].party_type@ == kk.0);
                        } else if j == k {
                            assert(items@[n as int].party_type@ == kk.0);
                        } else {
                            assert(keys@[j] == old_keys[j - 1]);
                            assert(key_set(old_keys).contains(kk));
                            let i = choose|i: int| 0 <= i < n && (#[trigger] items@[i]).party_type@ == kk.0 && items@[i].party_id == kk.1;
                            assert(items@[i].party_type@ == kk.0);
                        }
                    }
                    assert forall|kk: (Seq<char>, u128)| item_keys(items@, n + 1).contains(kk) implies key_set(keys@).contains(kk) by {
                        let i = choose|i: int| 0 <= i < n + 1 && (#[trigger] items@[i]).party_type@ == kk.0 && items@[i].party_id == kk.1;
                        if i < n {
                            assert(item_keys(items@, n as int).contains(kk));
                            let j = choose|j: int| 0 <= j < old_keys.len() && (#[trigger] old_keys[j]).0@ == kk.0 && old_keys[j].1 == kk.1;
                            if j < k {
                                assert(keys@[j] == old_keys[j]);
                            } else {
                                assert(keys@[j + 1] == old_keys[j]);
                            }
                        } else {
                            assert(keys@[k as int].0@ == kk.0);
                        }
                    }
                }
            }
        } else {
            proof {
                assert(key_set(keys@) =~= item_keys(items@, n + 1)) by {
                    assert forall|kk: (Seq<char>, u128)| key_set(keys@).contains(kk) implies item_keys(items@, n + 1).contains(kk) by {
                        let i = choose|i: int| 0 <= i < n && (#[trigger] items@[i]).party_type@ == kk.0 && items@[i].party_id == kk.1;
                        assert(items@[i].party_type@ == kk.0);
                    }
                    assert forall|kk: (Seq<char>, u128)| item_keys(items@, n + 1).contains(kk) implies key_set(keys@).contains(kk) by {
                        let i = choose|i: int| 0 <= i < n + 1 && (#[trigger] items@[i]).party_type@ == kk.0 && items@[i].party_id == kk.1;
                        if i < n {
                            assert(item_keys(items@, n as int).contains(kk));
                        } else {
                            assert(keys@[k as int].0@ == kk.0);
                        }
                    }
                }
            }
        }
        n = n + 1;
    }
    keys
}

/// The running total of column `c` of party (`t`, `id`).
fn party_column(items: &Vec<AgedItem>, as_of: i32, t: &str, id: u128, c: u8) -> (r: Option<Amount>)
    requires
        items_wf(items@),
        c < 5,
    ensures
        r == running(party_steps(items@, as_of, t@, id, c as int, items.len() as int)),
        r matches Some(a) ==> a.wf(),
{
    let mut steps: Vec<(bool, Amount)> = Vec::new();
    let mut n: usize = 0;
    while n < items.len()
        invariant
            n <= items.len(),
            items_wf(items@),
            c < 5,
            steps@ == party_steps(items@, as_of, t@, id, c as int, n as int),
            forall|k: int| 0 <= k < steps.len() ==> (#[trigger] steps@[k]).1.wf(),
        decreases items.len() - n,
    {
        let it = &items[n];
        if crate::text::str_eq(it.party_type.as_str(), t) && it.party_id == id {
            let days: i64 = (as_of as i64) - (it.transaction_date as i64);
            let b: u8 = if days <= 30 {
                0
            } else if days <= 60 {
                1
            } else if days <= 90 {
                2
            } else {
                3
            };
            let ghost before = steps@;
            if c == 4 || b == c {
                steps.push((false, it.residual));
            }
            proof {
                assert(steps@ =~= before + item_steps(as_of - items@[n as int].transaction_date, items@[n as int].residual, c as int));
            }
        }
        n = n + 1;
    }
    running_total(&steps)
}

/// The running total of column `c` over all the items.
fn total_column(items: &Vec<AgedItem>, as_of: i32, c: u8) -> (r: Option<Amount>)
    requires
        items_wf(items@),
        c < 5,
    ensures
        r == running(total_steps(items@, as_of, c as int, items.len() as int)),
        r matches Some(a) ==> a.wf(),
{
    let mut steps: Vec<(bool, Amount)> = Vec::new();
    let mut n: usize = 0;
    while n < items.len()
        invariant
            n <= items.len(),
            items_wf(items@),
            c < 5,
            steps@ == total_steps(items@, as_of, c as int, n as int),
            forall|k: int| 0 <= k < steps.len() ==> (#[trigger] steps@[k]).1.wf(),
        decreases items.len() - n,
    {
        let it = &items[n];
        let days: i64 = (as_of as i64) - (it.transaction_date as i64);
        let b: u8 = if days <= 30 {
            0
        } else if days <= 60 {
            1
        } else if days <= 90 {
            2
        } else {
            3
        };
        let ghost before = steps@;
        if c == 4 || b == c {
            steps.push((false, it.residual));
        }
        proof {
            assert(steps@ =~= before + item_steps(as_of - items@[n as int].transaction_date, items@[n as int].residual, c as int));
        }
        n = n + 1;
    }
    running_total(&steps)
}

/// All five columns of one party (or of the totals when `party` is `None`).
#[verifier::spinoff_prover]
#[verifier::rlimit(100)]
fn aged_row(items: &Vec<AgedItem>, as_of: i32, party: Option<(&str, u128)>) -> (r: Option<AgedPartyRow>)
    requires
        items_wf(items@),
    ensures
        match party {
            Some((t, id)) => match r {
                Some(row) => row.party_type@ == t@ && row.party_id == id && forall|c: int| 0 <= c < 5 ==> {
                    &&& Some(#[trigger] row_amounts(row)[c]) == running(party_steps(items@, as_of, t@, id, c, items.len() as int))
                    &&& row_amounts(row)[c].wf()
                },
                None => exists|c: int| 0 <= c < 5 && running(#[trigger] party_steps(items@, as_of, t@, id, c, items.len() as int)) is None,
            },
            None => match r {
                Some(row) => forall|c: int| 0 <= c < 5 ==> {
                    &&& Some(#[trigger] row_amounts(row)[c]) == running(total_steps(items@, as_of, c, items.len() as int))
                    &&& row_amounts(row)[c].wf()
                },
                None => exists|c: int| 0 <= c < 5 && running(#[trigger] total_steps(items@, as_of, c, items.len() as int)) is None,
            },
        },
{
    let mut cols: Vec<Amount> = Vec::new();
    let mut c: u8 = 0;
    while c < 5
        invariant
            c <= 5,
            items_wf(items@),
            cols.len() == c,
            forall|k: int| 0 <= k < c ==> (#[trigger] cols@[k]).wf() && Some(cols@[k]) == match party {
                Some((t, id)) => running(party_steps(items@, as_of, t@, id, k, items.len() as int)),
                None => running(total_steps(items@, as_of, k, items.len() as int)),
            },
        decreases 5 - c,
    {
        let v = match party {
            Some((t, id)) => party_column(items, as_of, t, id, c),
            None => total_column(items, as_of, c),
        };
        match v {
            Some(a) => {
                cols.push(a);
            },
            None => {
                proof {
                    match party {
                        Some((t, id)) => {
                            assert(running(party_steps(items@, as_of, t@, id, c as int, items.len() as int)) is None);
                        },
                        None => {
                            assert(running(total_steps(items@, as_of, c as int, items.len() as int)) is None);
                        },
                    }
                }
                return None;
            },
        }
        c = c + 1;
    }
    let (t, id) = match party {
        Some((t, id)) => (crate::text::string_from(t), id),
        None => (String::new(), 0u128),
    };
    let row = AgedPartyRow {
        party_type: t,
        party_id: id,
        bucket_0_30: cols[0],
        bucket_31_60: cols[1],
        bucket_61_90: cols[2],
        bucket_91_plus: cols[3],
        total: cols[4],
    };
    proof {
        assert forall|k: int| 0 <= k < 5 implies row_amounts(row)[k] == cols@[k] by {
        }
    }
    Some(row)
}

/// The aged report's rows: one per party (by party type, then id, ascending)
/// with its open items' residuals summed into the total and into the age
/// bucket of `as_of - item date`, and the totals row over all items. `None`
/// when a sum overflows.
pub fn aged_rows(items: &Vec<AgedItem>, as_of: i32) -> (r: Option<(Vec<AgedPartyRow>, AgedPartyRow)>)
    requires
        items_wf(items@),
    ensures
        aged_overflows(items@, as_of) <==> r is None,
        r matches Some((rows, totals)) ==> {
            &&& rows_sorted(rows@)
            &&& row_keys(rows@) == item_keys(items@, items.len() as int)
            &&& rows_hold(rows@, items@, as_of, items.len() as int)
            &&& totals_hold(totals, items@, as_of, items.len() as int)
        },
{
    let keys = party_keys(items);
    let mut rows: Vec<AgedPartyRow> = Vec::new();
    let mut j: usize = 0;
    while j < keys.len()
        invariant
            j <= keys.len(),
            items_wf(items@),
            keys_sorted(keys@),
            key_set(keys@) == item_keys(items@, items.len() as int),
            rows.len() == j,
            forall|k: int| 0 <= k < j ==> (#[trigger] rows@[k]).party_type@ == keys@[k].0@ && rows@[k].party_id == keys@[k].1,
            rows_hold(rows@, items@, as_of, items.len() as int),
        decreases keys.len() - j,
    {
        let row = aged_row(items, as_of, Some((keys[j].0.as_str(), keys[j].1)));
        match row {
            Some(row) => {
                rows.push(row);
            },
            None => {
                proof {
                    let kk = (keys@[j as int].0@, keys@[j as int].1);
                    assert(key_set(keys@).contains(kk));
                    let i = choose|i: int| 0 <= i < items.len() && (#[trigger] items@[i]).party_type@ == kk.0 && items@[i].party_id == kk.1;
                    let c = choose|c: int| 0 <= c < 5 && running(#[trigger] party_steps(items@, as_of, kk.0, kk.1, c, items.len() as int)) is None;
                    assert(running(party_steps(items@, as_of, items@[i].party_type@, items@[i].party_id, c, items.len() as int)) is None);
                }
                return None;
            },
        }
        j = j + 1;
    }
    let totals = match aged_row(items, as_of, None) {
        Some(t) => t,
        None => return None,
    };
    proof {
        assert(rows_sorted(rows@)) by {
            assert forall|a: int, b: int| 0 <= a < b < rows.len() implies key_lt(
                (#[trigger] rows@[a]).party_type@,
                rows@[a].party_id,
                (#[trigger] rows@[b]).party_type@,
                rows@[b].party_id,
            ) by {
                assert(key_lt(keys@[a].0@, keys@[a].1, keys@[b].0@, keys@[b].1));
            }
        }
        assert(row_keys(rows@) =~= key_set(keys@)) by {
            assert forall|kk: (Seq<char>, u128)| row_keys(rows@).contains(kk) implies key_set(keys@).contains(kk) by {
                let j = choose|j: int| 0 <= j < rows.len() && (#[trigger] rows@[j]).party_type@ == kk.0 && rows@[j].party_id == kk.1;
                assert(keys@[j].0@ == kk.0);
            }
            assert forall|kk: (Seq<char>, u128)| key_set(keys@).contains(kk) implies row_keys(rows@).contains(kk) by {
                let j = choose|j: int| 0 <= j < keys.len() && (#[trigger] keys@[j]).0@ == kk.0 && keys@[j].1 == kk.1;
                assert(rows@[j].party_type@ == kk.0);
            }
        }
        assert(!aged_overflows(items@, as_of)) by {
            assert forall|i: int, c: int| 0 <= i < items.len() && 0 <= c < 5 implies running(
                #[trigger] party_steps(items@, as_of, items@[i].party_type@, items@[i].party_id, c, items.len() as int),
            ) is Some by {
                let kk = (items@[i].party_type@, items@[i].party_id);
                assert(item_keys(items@, items.len() as int).contains(kk));
                assert(row_keys(rows@).contains(kk));
                let j = choose|j: int| 0 <= j < rows.len() && (#[trigger] rows@[j]).party_type@ == kk.0 && rows@[j].party_id == kk.1;
                assert(Some(row_amounts(rows@[j])[c]) == running(party_steps(items@, as_of, rows@[j].party_type@, rows@[j].party_id, c, items.len() as int)));
            }
            assert forall|c: int| 0 <= c < 5 implies running(#[trigger] total_steps(items@, as_of, c, items.len() as int)) is Some by {
                assert(Some(row_amounts(totals)[c]) == running(total_steps(items@, as_of, c, items.len() as int)));
            }
        }
    }
    Some((rows, totals))
}

/// Strictly sorted rows name each party once.
pub proof fn lemma_aged_parties_distinct(rows: Seq<AgedPartyRow>)
    requires
        rows_sorted(rows),
    ensures
        forall|a: int, b: int| 0 <= a < b < rows.len() ==> !((#[trigger] rows[a]).party_type@ == (#[trigger] rows[b]).party_type@
            && rows[a].party_id == rows[b].party_id),
{
    assert forall|a: int, b: int| 0 <= a < b < rows.len() implies !((#[trigger] rows[a]).party_type@
        == (#[trigger] rows[b]).party_type@ && rows[a].party_id == rows[b].party_id) by {
        lemma_text_lt_irrefl(rows[a].party_type@);
    }
}

/// One chronological general-ledger line.
#[derive(Debug, Clone)]
pub struct GeneralLedgerLine {
    pub journal_number: String,
    pub transaction_date: i32,
    pub posting_date: i32,
    pub description: String,
    pub reference: Option<String>,
    pub currency: String,
    pub debit: Amount,
    pub credit: Amount,
    pub balance_after: Amount,
    pub party_type: Option<String>,
    pub party_id: Option<u128>,
    pub source_type: Option<String>,
    pub source_reference: Option<String>,
    pub is_reconciled: bool,
}

/// A general-ledger line as read, with its account and the account's running
/// balance before it.
#[derive(Debug, Clone)]
pub struct GlRow {
    pub account_id: u128,
    pub account_number: String,
    pub account_name: String,
    pub balance_before: Amount,
    pub line: GeneralLedgerLine,
}

/// One account section of the general ledger.
#[derive(Debug, Clone)]
pub struct GeneralLedgerSection {
    pub account_id: u128,
    pub account_number: String,
    pub account_name: String,
    pub opening_balance: Amount,
    pub lines: Vec<GeneralLedgerLine>,
    pub total_debit: Amount,
    pub total_credit: Amount,
    pub closing_balance: Amount,
}

/// The sections of `rows` as index ranges `[start, end)`: maximal runs of
/// consecutive rows on one account.
pub open spec fn gl_sections(rows: Seq<GlRow>) -> Seq<(int, int)>
    decreases rows.len(),
{
    if rows.len() == 0 {
        Seq::empty()
    } else {
        let p = gl_sections(rows.drop_last());
        let n = rows.len() - 1;
        if n > 0 && rows[n].account_id == rows[n - 1].account_id {
            p.update(p.len() - 1, (p.last().0, n + 1))
        } else {
            p.push((n, n + 1))
        }
    }
}

/// The debit (`c == 0`) or credit column of rows `[s, e)`, as additions.
pub open spec fn gl_steps(rows: Seq<GlRow>, s: int, e: int, c: int) -> Seq<(bool, Amount)> {
    rows.subrange(s, e).map_values(|r: GlRow| (false, if c == 0 {
        r.line.debit
    } else {
        r.line.credit
    }))
}

pub open spec fn gl_wf(rows: Seq<GlRow>) -> bool {
    forall|i: int| 0 <= i < rows.len() ==> (#[trigger] rows[i]).line.debit.wf() && rows[i].line.credit.wf()
}

/// The ranges are consecutive and cover `[0, rows.len())`.
pub open spec fn ranges_cover(g: Seq<(int, int)>, n: int) -> bool {
    &&& (n == 0 <==> g.len() == 0)
    &&& g.len() > 0 ==> g[0].0 == 0 && g.last().1 == n
    &&& forall|k: int| 0 <= k < g.len() ==> 0 <= (#[trigger] g[k]).0 < g[k].1 <= n
    &&& forall|k: int| 0 < k < g.len() ==> (#[trigger] g[k]).0 == g[k - 1].1
}

/// The general ledger's sections partition the rows read: non-empty,
/// consecutive ranges that together cover every row, in order.
pub proof fn lemma_gl_sections_cover(rows: Seq<GlRow>)
    ensures
        ranges_cover(gl_sections(rows), rows.len() as int),
    decreases rows.len(),
{
    if rows.len() > 0 {
        lemma_gl_sections_cover(rows.drop_last());
    }
}

/// Section `sec` shows the rows in range `g` of `rows`.
pub open spec fn section_shows(sec: GeneralLedgerSection, rows: Seq<GlRow>, g: (int, int), td: Amount, tc: Amount) -> bool {
    &&& sec.account_id == rows[g.0].account_id
    &&& sec.account_number@ == rows[g.0].account_number@
    &&& sec.account_name@ == rows[g.0].account_name@
    &&& sec.opening_balance == rows[g.0].balance_before
    &&& sec.closing_balance == rows[g.1 - 1].line.balance_after
    &&& sec.lines@ == rows.subrange(g.0, g.1).map_values(|r: GlRow| r.line)
    &&& sec.total_debit == td
    &&& sec.total_credit == tc
}

fn copy_gl_line(l: &GeneralLedgerLine) -> (r: GeneralLedgerLine)
    ensures
        r == *l,
{
    GeneralLedgerLine {
        journal_number: l.journal_number.clone(),
        transaction_date: l.transaction_date,
        posting_date: l.posting_date,
        description: l.description.clone(),
        reference: clone_opt(&l.reference),
        currency: l.currency.clone(),
        debit: l.debit,
        credit: l.credit,
        balance_after: l.balance_after,
        party_type: clone_opt(&l.party_type),
        party_id: l.party_id,
        source_type: clone_opt(&l.source_type),
        source_reference: clone_opt(&l.source_reference),
        is_reconciled: l.is_reconciled,
    }
}

/// The section ranges of the rows.
fn gl_ranges(rows: &Vec<GlRow>) -> (r: Vec<(usize, usize)>)
    ensures
        r@.map_values(|p: (usize, usize)| (p.0 as int, p.1 as int)) == gl_sections(rows@),
{
    let mut g: Vec<(usize, usize)> = Vec::new();
    let mut i: usize = 0;
    assert(rows@.take(0) =~= Seq::<GlRow>::empty());
    while i < rows.len()
        invariant
            i <= rows.len(),
            g@.map_values(|p: (usize, usize)| (p.0 as int, p.1 as int)) == gl_sections(rows@.take(i as int)),
        decreases rows.len() - i,
    {
        proof {
            let t = rows@.take(i + 1);
            assert(t.drop_last() =~= rows@.take(i as int));
            lemma_gl_sections_cover(rows@.take(i as int));
        }
        if i > 0 && rows[i].account_id == rows[i - 1].account_id {
            let last = g.len() - 1;
            let s = g[last].0;
            g.set(last, (s, i + 1));
        } else {
            g.push((i, i + 1));
        }
        proof {
            let t = rows@.take(i + 1);
            assert(t[i as int] == rows@[i as int]);
            if i > 0 {
                assert(t[i - 1] == rows@[i - 1]);
            }
            assert(g@.map_values(|p: (usize, usize)| (p.0 as int, p.1 as int)) =~= gl_sections(t));
        }
        i = i + 1;
    }
    proof {
        assert(rows@.take(rows.len() as int) =~= rows@);
    }
    g
}

fn gl_column(rows: &Vec<GlRow>, s: usize, e: usize, c: u8) -> (r: Option<Amount>)
    requires
        s <= e <= rows.len(),
        gl_wf(rows@),
    ensures
        r == running(gl_steps(rows@, s as int, e as int, c as int)),
{
    let mut steps: Vec<(bool, Amount)> = Vec::new();
    let mut j: usize = s;
    while j < e
        invariant
            s <= j <= e <= rows.len(),
            gl_wf(rows@),
            steps@ == gl_steps(rows@, s as int, j as int, c as int),
            forall|k: int| 0 <= k < steps.len() ==> (#[trigger] steps@[k]).1.wf(),
        decreases e - j,
    {
        let a = if c == 0 {
            rows[j].line.debit
        } else {
            rows[j].line.credit
        };
        steps.push((false, a));
        proof {
            assert(rows@.subrange(s as int, j + 1) =~= rows@.subrange(s as int, j as int).push(rows@[j as int]));
            assert(steps@ =~= gl_steps(rows@, s as int, j + 1, c as int));
        }
        j = j + 1;
    }
    running_total(&steps)
}

/// The general ledger's sections: consecutive rows of one account (the read
/// is ordered by account) form a section that opens at its first row's
/// balance before, closes at its last row's balance after, and totals its
/// debits and credits. `None` when a total overflows.
pub fn gl_group(rows: &Vec<GlRow>) -> (r: Option<Vec<GeneralLedgerSection>>)
    requires
        gl_wf(rows@),
    ensures
        ({
            let g = gl_sections(rows@);
            &&& r is None <==> exists|k: int, c: int| 0 <= k < g.len() && 0 <= c < 2 && running(
                #[trigger] gl_steps(rows@, g[k].0, g[k].1, c),
            ) is None
            &&& r matches Some(secs) ==> secs.len() == g.len() && forall|k: int| 0 <= k < g.len() ==> section_shows(
                #[trigger] secs@[k],
                rows@,
                g[k],
                running(gl_steps(rows@, g[k].0, g[k].1, 0)).unwrap(),
                running(gl_steps(rows@, g[k].0, g[k].1, 1)).unwrap(),
            )
        }),
{
    let ranges = gl_ranges(rows);
    let ghost g = gl_sections(rows@);
    proof {
        lemma_gl_sections_cover(rows@);
        assert forall|k: int| 0 <= k < ranges.len() implies (#[trigger] ranges@[k]).0 as int == g[k].0 && ranges@[k].1
            as int == g[k].1 by {
            assert(ranges@.map_values(|p: (usize, usize)| (p.0 as int, p.1 as int))[k] == g[k]);
        }
    }
    let mut secs: Vec<GeneralLedgerSection> = Vec::new();
    let mut k: usize = 0;
    while k < ranges.len()
        invariant
            k <= ranges.len() == g.len(),
            gl_wf(rows@),
            g == gl_sections(rows@),
            ranges_cover(g, rows.len() as int),
            forall|k: int| 0 <= k < ranges.len() ==> (#[trigger] ranges@[k]).0 as int == g[k].0 && ranges@[k].1 as int == g[k].1,
            secs.len() == k,
            forall|j: int, c: int| 0 <= j < k && 0 <= c < 2 ==> running(#[trigger] gl_steps(rows@, g[j].0, g[j].1, c)) is Some,
            forall|j: int| 0 <= j < k ==> section_shows(
                #[trigger] secs@[j],
                rows@,
                g[j],
                running(gl_steps(rows@, g[j].0, g[j].1, 0)).unwrap(),
                running(gl_steps(rows@, g[j].0, g[j].1, 1)).unwrap(),
            ),
        decreases ranges.len() - k,
    {
        let (s, e) = ranges[k];
        assert(0 <= g[k as int].0 < g[k as int].1 <= rows.len());
        let td = match gl_column(rows, s, e, 0) {
            Some(t) => t,
            None => {
                assert(running(gl_steps(rows@, g[k as int].0, g[k as int].1, 0)) is None);
                return None;
            },
        };
        let tc = match gl_column(rows, s, e, 1) {
            Some(t) => t,
            None => {
                assert(running(gl_steps(rows@, g[k as int].0, g[k as int].1, 1)) is None);
                return None;
            },
        };
        let mut lines: Vec<GeneralLedgerLine> = Vec::new();
        let mut j: usize = s;
        while j < e
            invariant
                s <= j <= e <= rows.len(),
                lines@ == rows@.subrange(s as int, j as int).map_values(|r: GlRow| r.line),
            decreases e - j,
        {
            lines.push(copy_gl_line(&rows[j].line));
            proof {
                assert(rows@.subrange(s as int, j + 1) =~= rows@.subrange(s as int, j as int).push(rows@[j as int]));
                assert(lines@ =~= rows@.subrange(s as int, j + 1).map_values(|r: GlRow| r.line));
            }
            j = j + 1;
        }
        let first = &rows[s];
        secs.push(GeneralLedgerSection {
            account_id: first.account_id,
            account_number: first.account_number.clone(),
            account_name: first.account_name.clone(),
            opening_balance: first.balance_before,
            lines,
            total_debit: td,
            total_credit: tc,
            closing_balance: rows[e - 1].line.balance_after,
        });
        proof {
            assert forall|j: int, c: int| 0 <= j < k + 1 && 0 <= c < 2 implies running(
                #[trigger] gl_steps(rows@, g[j].0, g[j].1, c),
            ) is Some by {
                if j == k {
                    if c == 0 {
                    } else {
                    }
                }
            }
        }
        k = k + 1;
    }
    Some(secs)
}

} // verus!
