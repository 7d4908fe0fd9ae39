//! The decisions of the reconciliation verbs over the reconciliation graph:
//! partial edges between a debit and a credit line, full-reconcile groups,
//! generated exchange-difference moves and the side-effecting unlink.
//!
//! An exchange difference is booked only when the two lines were posted at
//! different rates and exactly one side's residual reached zero while the
//! other kept the predicted rate delta, within half a cent. A group is formed
//! once every line of a component is at zero residual, reusing the group that
//! the component already carries. Unlinking reverses every generated move
//! (debit and credit swapped) before the edges go. The caller loads and
//! stores the graph around these decisions.

use crate::amount::{dec_eq, dec_lt, dec_sub, lemma_amount_opt, sub_spec, Amount, MAX_MANTISSA, MAX_SCALE, pow10};
use crate::ids::{chrono_year_month, uuid_hyphenated, with_uuid, year_month};
use crate::posting::PostingLine;
use crate::text::string_from;
use rust_decimal::Decimal;
use vstd::prelude::*;

verus! {

/// A ledger line as the reconciliation graph sees it.
#[derive(Debug, Clone)]
pub struct ReconcileLineSnapshot {
    pub id: u128,
    pub account_id: u128,
    pub currency: String,
    /// Days since 0001-01-01 (day 1 is that date).
    pub transaction_date: i32,
    pub exchange_rate: Amount,
    pub source_type: Option<String>,
    pub source_id: Option<u128>,
    pub party_type: Option<String>,
    pub party_id: Option<u128>,
    pub debit_amount: Amount,
    pub base_amount: Amount,
}

/// A partial-reconcile edge.
#[derive(Debug, Clone, Copy)]
pub struct PartialRow {
    pub id: u128,
    pub debit_move_id: u128,
    pub credit_move_id: u128,
    pub full_reconcile_id: Option<u128>,
}

/// A partial-reconcile edge to insert.
#[derive(Debug, Clone)]
pub struct NewPartial {
    pub company_id: u128,
    pub debit_move_id: u128,
    pub credit_move_id: u128,
    pub amount: Amount,
    pub currency: String,
    pub max_date: i32,
    pub origin: String,
    pub source_type: Option<String>,
    pub source_id: Option<u128>,
}

/// What a link verb did.
#[derive(Debug, Clone, Copy)]
pub struct EdgeOutcome {
    pub partial_id: Option<u128>,
    pub applied: Amount,
    pub full_reconcile_id: Option<u128>,
}

/// The residual of `line_id` in a residual listing: the first entry for it,
/// zero when it is not listed.
pub open spec fn res_spec(residuals: Seq<(u128, Amount)>, line_id: u128) -> Amount
    decreases residuals.len(),
{
    if residuals.len() == 0 {
        Amount { mantissa: 0, scale: 0 }
    } else if residuals[0].0 == line_id {
        residuals[0].1
    } else {
        res_spec(residuals.drop_first(), line_id)
    }
}

/// Residual lookup by line id (the listing is ordered by id, not by request).
pub fn res_of(residuals: &Vec<(u128, Amount)>, line_id: u128) -> (r: Amount)
    ensures
        r == res_spec(residuals@, line_id),
{
    let mut i: usize = 0;
    assert(residuals@.skip(0) =~= residuals@);
    while i < residuals.len()
        invariant
            i <= residuals.len(),
            res_spec(residuals@, line_id) == res_spec(residuals@.skip(i as int), line_id),
        decreases residuals.len() - i,
    {
        let (id, r) = residuals[i];
        if id == line_id {
            return r;
        }
        proof {
            assert(residuals@.skip(i as int).drop_first() =~= residuals@.skip(i + 1));
        }
        i = i + 1;
    }
    Amount::zero()
}

/// The lesser of two amounts by value; `a` when they are equal.
pub open spec fn lesser(a: Amount, b: Amount) -> Amount {
    if b.value() < a.value() {
        b
    } else {
        a
    }
}

/// The amount a link applies: the least of the requested amount (when one is
/// given) and the two residuals, comparing values; on ties the debit
/// residual, then the credit residual, is kept.
pub open spec fn clamp_spec(requested: Option<Amount>, residual_debit: Amount, residual_credit: Amount) -> Amount {
    match requested {
        None => lesser(residual_debit, residual_credit),
        Some(q) => lesser(lesser(residual_debit, residual_credit), q),
    }
}

/// Clamp a link's amount to both residuals: the requested amount, or the
/// whole residual when none is requested, never more than either residual.
pub fn clamp_applied(requested: Option<Amount>, residual_debit: Amount, residual_credit: Amount) -> (r: Amount)
    requires
        residual_debit.wf(),
        residual_credit.wf(),
        requested matches Some(q) ==> q.wf(),
    ensures
        r == clamp_spec(requested, residual_debit, residual_credit),
        r.value() <= residual_debit.value(),
        r.value() <= residual_credit.value(),
        requested matches Some(q) ==> r.value() <= q.value(),
        r == residual_debit || r == residual_credit || requested == Some(r),
{
    let mut r = residual_debit;
    if dec_lt(residual_credit, r) {
        r = residual_credit;
    }
    match requested {
        Some(q) => {
            if dec_lt(q, r) {
                r = q;
            }
        },
        None => {},
    }
    r
}

/// The edge outcome of a link whose clamp came out zero: no edge, nothing
/// applied (zero at scale 0, as `Decimal::ZERO`), no group.
pub fn no_edge() -> (r: EdgeOutcome)
    ensures
        r.partial_id is None,
        r.applied.mantissa == 0,
        r.applied.scale == 0,
        r.full_reconcile_id is None,
{
    EdgeOutcome { partial_id: None, applied: Amount::zero(), full_reconcile_id: None }
}

/// The two lines of an exchange-difference move, mirrored: the FX account
/// takes a debit of `|diff|` when `diff` is positive (a credit otherwise), and
/// the reconcilable account, party-stamped, the opposite side.
pub fn fx_pair(
    fx_account: u128,
    account_id: u128,
    party_type: Option<String>,
    party_id: Option<u128>,
    diff: Amount,
) -> (r: (PostingLine, PostingLine))
    requires
        diff.wf(),
    ensures
        ({
            let abs = if diff.mantissa < 0 { -diff.mantissa } else { diff.mantissa as int };
            let (fx, ar) = r;
            &&& fx.account_id == fx_account
            &&& ar.account_id == account_id
            &&& fx.party_type is None && fx.party_id is None
            &&& ar.party_type == party_type && ar.party_id == party_id
            &&& fx.cost_center_id is None && fx.project_id is None && fx.department_id is None
            &&& ar.cost_center_id is None && ar.project_id is None && ar.department_id is None
            &&& fx.description matches Some(d) && d@ == "exchange difference"@
            &&& ar.description matches Some(d) && d@ == "exchange difference"@
            &&& diff.mantissa > 0 ==> fx.debit.mantissa == abs && fx.debit.scale == diff.scale
                && fx.credit.mantissa == 0 && ar.debit.mantissa == 0 && ar.credit == fx.debit
            &&& diff.mantissa <= 0 ==> fx.credit.mantissa == abs && fx.credit.scale == diff.scale
                && fx.debit.mantissa == 0 && ar.credit.mantissa == 0 && ar.debit == fx.credit
        }),
{
    let abs = diff.abs();
    let fx_dr = diff.is_positive();
    let (fx_d, fx_c) = if fx_dr {
        (abs, Amount::zero())
    } else {
        (Amount::zero(), abs)
    };
    let (ar_d, ar_c) = if fx_dr {
        (Amount::zero(), abs)
    } else {
        (abs, Amount::zero())
    };
    (
        PostingLine {
            account_id: fx_account,
            debit: fx_d,
            credit: fx_c,
            party_type: None,
            party_id: None,
            cost_center_id: None,
            project_id: None,
            department_id: None,
            description: Some(string_from("exchange difference")),
        },
        PostingLine {
            account_id,
            debit: ar_d,
            credit: ar_c,
            party_type,
            party_id,
            cost_center_id: None,
            project_id: None,
            department_id: None,
            description: Some(string_from("exchange difference")),
        },
    )
}

/// The higher and the lower of two rates (the credit's rate when they are
/// equal or the debit's is not higher).
pub fn rate_order(debit_rate: Amount, credit_rate: Amount) -> (r: (Amount, Amount))
    requires
        debit_rate.wf(),
        credit_rate.wf(),
    ensures
        debit_rate.value() > credit_rate.value() ==> r == (debit_rate, credit_rate),
        debit_rate.value() <= credit_rate.value() ==> r == (credit_rate, debit_rate),
{
    if dec_lt(credit_rate, debit_rate) {
        (debit_rate, credit_rate)
    } else {
        (credit_rate, debit_rate)
    }
}

/// What `Decimal::checked_mul` of `am / 10^asc` and `bm / 10^bsc` returns,
/// as (mantissa, scale), outside the cases [`decimal_checked_mul`] states
/// (a product beyond 96 bits or a scale beyond 28, which it rescales and
/// rounds); `None` on overflow.
pub uninterp spec fn decimal_mul(am: i128, asc: u32, bm: i128, bsc: u32) -> Option<(i128, u32)>;

/// The cases of `Decimal::checked_mul` that [`decimal_checked_mul`] states.
pub open spec fn mul_stated(am: i128, asc: u32, bm: i128, bsc: u32) -> bool {
    ||| am == 0
    ||| bm == 0
    ||| asc + bsc <= MAX_SCALE && -MAX_MANTISSA <= am * bm <= MAX_MANTISSA
}

/// `Decimal::checked_mul` of `am / 10^asc` and `bm / 10^bsc`, as (mantissa,
/// scale): a zero factor gives zero at scale 0; a product whose mantissa fits
/// 96 bits at the summed scale, at most 28, is exact there.
pub open spec fn decimal_checked_mul(am: i128, asc: u32, bm: i128, bsc: u32) -> Option<(i128, u32)> {
    if am == 0 || bm == 0 {
        Some((0i128, 0u32))
    } else if asc + bsc <= MAX_SCALE && -MAX_MANTISSA <= am * bm <= MAX_MANTISSA {
        Some(((am * bm) as i128, (asc + bsc) as u32))
    } else {
        decimal_mul(am, asc, bm, bsc)
    }
}

/// What `Decimal::checked_div` of `am / 10^asc` by `bm / 10^bsc` returns, as
/// (mantissa, scale); `None` on overflow or a zero divisor.
pub uninterp spec fn decimal_div(am: i128, asc: u32, bm: i128, bsc: u32) -> Option<(i128, u32)>;

/// Calls `Decimal::checked_mul`. Claimed of it: a zero factor gives
/// `Decimal::ZERO`; when the product's mantissa fits 96 bits and the summed
/// scale is at most 28, the product is exact at that scale (`ops/mul.rs`,
/// `finish_mul` only rescales past either bound); otherwise the result is
/// the crate's (named `decimal_mul`); a result is inside the 96-bit range.
#[verifier::external_body]
fn dec_mul(a: Amount, b: Amount) -> (r: Option<Amount>)
    requires
        a.wf(),
        b.wf(),
    ensures
        crate::amount::parts_of(r) == decimal_checked_mul(a.mantissa, a.scale, b.mantissa, b.scale),
        !mul_stated(a.mantissa, a.scale, b.mantissa, b.scale) ==> crate::amount::parts_of(r) == decimal_mul(
            a.mantissa,
            a.scale,
            b.mantissa,
            b.scale,
        ),
        r matches Some(x) ==> x.wf(),
{
    let x = Decimal::from_i128_with_scale(a.mantissa, a.scale);
    let y = Decimal::from_i128_with_scale(b.mantissa, b.scale);
    x.checked_mul(y).map(|d| Amount { mantissa: d.mantissa(), scale: d.scale() })
}

/// Calls `Decimal::checked_div`. The quotient is named (`decimal_div`); a
/// result is inside the 96-bit range.
#[verifier::external_body]
fn dec_div(a: Amount, b: Amount) -> (r: Option<Amount>)
    requires
        a.wf(),
        b.wf(),
    ensures
        crate::amount::parts_of(r) == decimal_div(a.mantissa, a.scale, b.mantissa, b.scale),
        r matches Some(x) ==> x.wf(),
{
    let x = Decimal::from_i128_with_scale(a.mantissa, a.scale);
    let y = Decimal::from_i128_with_scale(b.mantissa, b.scale);
    x.checked_div(y).map(|d| Amount { mantissa: d.mantissa(), scale: d.scale() })
}

/// `Decimal::round_dp(2)` (midpoint to even) of `m / 10^s`, as (mantissa,
/// scale): unchanged at scale 2 or less; otherwise the magnitude divided by
/// `10^(s-2)`, rounded up when the remainder is above half, or exactly half
/// and the quotient odd, with the sign kept, at scale 2.
pub open spec fn round2_spec(m: i128, s: u32) -> (int, u32) {
    if s <= 2 {
        (m as int, s)
    } else {
        let p = pow10((s - 2) as nat);
        let a = if m < 0 { -m } else { m as int };
        let q = a / p;
        let r = a % p;
        let q2 = if 2 * r > p || (2 * r == p && q % 2 == 1) { q + 1 } else { q };
        (if m < 0 { -q2 } else { q2 }, 2u32)
    }
}

/// Calls `Decimal::round_dp(2)`, whose midpoint-to-even rounding is stated by
/// [`round2_spec`] (read from `round_dp_with_strategy`).
#[verifier::external_body]
pub(crate) fn dec_round2(a: Amount) -> (r: Amount)
    requires
        a.wf(),
    ensures
        (r.mantissa as int, r.scale) == round2_spec(a.mantissa, a.scale),
        r.wf(),
{
    let d = Decimal::from_i128_with_scale(a.mantissa, a.scale).round_dp(2);
    Amount { mantissa: d.mantissa(), scale: d.scale() }
}

/// The predicted exchange delta of an applied amount between two rates:
/// `round2(applied * (hi - lo) / lo)`; `None` when the arithmetic fails.
pub fn predicted_difference(applied: Amount, hi: Amount, lo: Amount) -> (r: Option<Amount>)
    requires
        applied.wf(),
        hi.wf(),
        lo.wf(),
    ensures
        match sub_spec(hi, lo) {
            None => r is None,
            Some(spread) => match decimal_checked_mul(applied.mantissa, applied.scale, spread.mantissa, spread.scale) {
                None => r is None,
                Some(p) => match decimal_div(p.0, p.1, lo.mantissa, lo.scale) {
                    None => r is None,
                    Some(q) => r matches Some(x) && (x.mantissa as int, x.scale) == round2_spec(q.0, q.1),
                },
            },
        },
        r matches Some(x) ==> x.wf(),
{
    let spread = dec_sub(hi, lo);
    proof {
        lemma_amount_opt(spread);
    }
    let spread = match spread {
        Some(s) => s,
        None => return None,
    };
    let product = match dec_mul(applied, spread) {
        Some(p) => p,
        None => return None,
    };
    let quotient = match dec_div(product, lo) {
        Some(q) => q,
        None => return None,
    };
    Some(dec_round2(quotient))
}

/// Half a company-currency cent (0.005).
pub open spec fn tolerance() -> Amount {
    Amount { mantissa: 5, scale: 3 }
}

/// The magnitude of the difference of two amounts is within the tolerance,
/// when the difference is computable.
pub open spec fn near(a: Amount, p: Amount) -> bool {
    match sub_spec(a, p) {
        Some(d) => {
            let m = if d.mantissa < 0 { -d.mantissa } else { d.mantissa as int };
            Amount { mantissa: m as i128, scale: d.scale }.value() <= tolerance().value()
        },
        None => false,
    }
}

fn within_tolerance(a: Amount, p: Amount) -> (r: Option<bool>)
    requires
        a.wf(),
        p.wf(),
    ensures
        match sub_spec(a, p) {
            Some(_) => r == Some(near(a, p)),
            None => r is None,
        },
{
    let d = dec_sub(a, p);
    proof {
        lemma_amount_opt(d);
    }
    match d {
        Some(d) => {
            let m = d.abs();
            let tol = Amount { mantissa: 5, scale: 3 };
            Some(!dec_lt(tol, m))
        },
        None => None,
    }
}

/// The exchange difference of a link, signed from the reconcilable
/// account's side, given both residuals after the link and the predicted
/// delta: the debit's residual when the credit is settled and the debit kept
/// about the predicted delta; minus the credit's residual in the mirror case;
/// none otherwise. `None` when a comparison overflows.
pub fn exchange_choice(res_d: Amount, res_c: Amount, predicted: Amount) -> (r: Option<Option<Amount>>)
    requires
        res_d.wf(),
        res_c.wf(),
        predicted.wf(),
    ensures
        ({
            let first = res_c.mantissa == 0 && res_d.mantissa > 0;
            let second = res_d.mantissa == 0 && res_c.mantissa > 0;
            &&& first ==> match sub_spec(res_d, predicted) {
                None => r is None,
                Some(_) => if near(res_d, predicted) {
                    r == Some(Some(res_d))
                } else {
                    r == Some(None::<Amount>)
                },
            }
            &&& second ==> match sub_spec(res_c, predicted) {
                None => r is None,
                Some(_) => if near(res_c, predicted) {
                    r matches Some(Some(x)) && x.mantissa == -res_c.mantissa && x.scale == res_c.scale
                } else {
                    r == Some(None::<Amount>)
                },
            }
            &&& !first && !second ==> r == Some(None::<Amount>)
        }),
{
    if res_c.is_zero() && res_d.is_positive() {
        match within_tolerance(res_d, predicted) {
            None => return None,
            Some(true) => return Some(Some(res_d)),
            Some(false) => return Some(None),
        }
    }
    if res_d.is_zero() && res_c.is_positive() {
        match within_tolerance(res_c, predicted) {
            None => return None,
            Some(true) => return Some(Some(res_c.neg())),
            Some(false) => return Some(None),
        }
    }
    Some(None)
}

/// The derived second edge of an exchange move: the original line that kept
/// the delta paired with the exchange journal's reconcilable line, for
/// `|diff|`. A positive `diff` means the debit kept it.
pub fn derived_edge(diff: Amount, debit_id: u128, credit_id: u128, exchange_line: u128) -> (r: (u128, u128, Amount))
    requires
        diff.wf(),
    ensures
        diff.mantissa > 0 ==> r.0 == debit_id && r.1 == exchange_line,
        diff.mantissa <= 0 ==> r.0 == exchange_line && r.1 == credit_id,
        r.2.mantissa == (if diff.mantissa < 0 { -diff.mantissa } else { diff.mantissa as int }),
        r.2.scale == diff.scale,
{
    if diff.is_positive() {
        (debit_id, exchange_line, diff.abs())
    } else {
        (exchange_line, credit_id, diff.abs())
    }
}

/// What completing a component's group decides.
#[derive(Debug, Clone, Copy, PartialEq, Eq, Structural)]
pub enum GroupDecision {
    /// Some line is still open (or the component is empty): no group.
    Open,
    /// Mint a new group.
    Create,
    /// Re-attach the group the component already carries.
    Reuse(u128),
    /// The component carries several groups: left untouched.
    Divergent,
}

/// The group decision of a component from its lines' residuals and the
/// distinct group stamps they carry: every residual must be zero; then no
/// stamp creates a group, one stamp is reused, several are left alone.
pub fn group_decision(residuals: &Vec<(u128, Amount)>, stamps: &Vec<u128>) -> (r: GroupDecision)
    ensures
        residuals.len() == 0 ==> r == GroupDecision::Open,
        residuals.len() > 0 && (exists|i: int| 0 <= i < residuals.len() && (#[trigger] residuals@[i]).1.mantissa != 0)
            ==> r == GroupDecision::Open,
        residuals.len() > 0 && (forall|i: int| 0 <= i < residuals.len() ==> (#[trigger] residuals@[i]).1.mantissa == 0)
            ==> r == (if stamps.len() == 0 {
            GroupDecision::Create
        } else if stamps.len() == 1 {
            GroupDecision::Reuse(stamps@[0])
        } else {
            GroupDecision::Divergent
        }),
{
    if residuals.len() == 0 {
        return GroupDecision::Open;
    }
    let mut i: usize = 0;
    while i < residuals.len()
        invariant
            i <= residuals.len(),
            forall|k: int| 0 <= k < i ==> (#[trigger] residuals@[k]).1.mantissa == 0,
        decreases residuals.len() - i,
    {
        if !residuals[i].1.is_zero() {
            return GroupDecision::Open;
        }
        i = i + 1;
    }
    if stamps.len() == 0 {
        GroupDecision::Create
    } else if stamps.len() == 1 {
        GroupDecision::Reuse(stamps[0])
    } else {
        GroupDecision::Divergent
    }
}

/// The edge that pairs a fully unapplied line with its reversal counterpart:
/// the side with a positive debit is the debit move; the amount is the
/// smaller base amount (the debit side's on a tie); dated at the later
/// transaction date; sourced from the debit side.
pub fn reversal_partial(company_id: u128, line: &ReconcileLineSnapshot, counterpart: &ReconcileLineSnapshot, origin: &str) -> (r: NewPartial)
    requires
        line.debit_amount.wf(),
        line.base_amount.wf(),
        counterpart.base_amount.wf(),
    ensures
        ({
            let (d, c) = if line.debit_amount.mantissa > 0 {
                (*line, *counterpart)
            } else {
                (*counterpart, *line)
            };
            &&& r.company_id == company_id
            &&& r.debit_move_id == d.id
            &&& r.credit_move_id == c.id
            &&& r.amount == (if c.base_amount.value() < d.base_amount.value() {
                c.base_amount
            } else {
                d.base_amount
            })
            &&& r.currency@ == d.currency@
            &&& r.max_date == (if d.transaction_date >= c.transaction_date {
                d.transaction_date
            } else {
                c.transaction_date
            })
            &&& r.origin@ == origin@
            &&& r.source_type matches Some(s) && s@ == origin@
            &&& r.source_id == d.source_id
        }),
{
    let (d, c) = if line.debit_amount.is_positive() {
        (line, counterpart)
    } else {
        (counterpart, line)
    };
    proof {
        assert(d.base_amount.wf() && c.base_amount.wf());
    }
    let amount = if dec_lt(c.base_amount, d.base_amount) {
        c.base_amount
    } else {
        d.base_amount
    };
    let max_date = if d.transaction_date >= c.transaction_date {
        d.transaction_date
    } else {
        c.transaction_date
    };
    NewPartial {
        company_id,
        debit_move_id: d.id,
        credit_move_id: c.id,
        amount,
        currency: d.currency.clone(),
        max_date,
        origin: string_from(origin),
        source_type: Some(string_from(origin)),
        source_id: d.source_id,
    }
}

/// The exchange difference of a link, from the two lines' rates, the
/// applied amount and both residuals after the link: none when the rates are
/// equal; otherwise the choice of [`exchange_choice`] against the predicted
/// delta. `None` when the arithmetic fails.
pub fn exchange_difference(applied: Amount, debit_rate: Amount, credit_rate: Amount, res_d: Amount, res_c: Amount) -> (r: Option<Option<Amount>>)
    requires
        applied.wf(),
        debit_rate.wf(),
        credit_rate.wf(),
        res_d.wf(),
        res_c.wf(),
    ensures
        debit_rate.value() == credit_rate.value() ==> r == Some(None::<Amount>),
        debit_rate.value() != credit_rate.value() ==> {
            let (hi, lo) = if debit_rate.value() > credit_rate.value() {
                (debit_rate, credit_rate)
            } else {
                (credit_rate, debit_rate)
            };
            match sub_spec(hi, lo) {
                None => r is None,
                Some(spread) => match decimal_checked_mul(applied.mantissa, applied.scale, spread.mantissa, spread.scale) {
                    None => r is None,
                    Some(p) => match decimal_div(p.0, p.1, lo.mantissa, lo.scale) {
                        None => r is None,
                        Some(q) => exists|pred: Amount| (pred.mantissa as int, pred.scale) == round2_spec(q.0, q.1) && pred.wf()
                            && #[trigger] exchange_choice_spec(res_d, res_c, pred, r),
                    },
                },
            }
        },
{
    if dec_eq(debit_rate, credit_rate) {
        return Some(None);
    }
    let (hi, lo) = rate_order(debit_rate, credit_rate);
    let predicted = match predicted_difference(applied, hi, lo) {
        Some(p) => p,
        None => return None,
    };
    let r = exchange_choice(res_d, res_c, predicted);
    proof {
        assert(exchange_choice_spec(res_d, res_c, predicted, r));
    }
    r
}

/// The contract of [`exchange_choice`] as a relation.
pub open spec fn exchange_choice_spec(res_d: Amount, res_c: Amount, predicted: Amount, r: Option<Option<Amount>>) -> bool {
    let first = res_c.mantissa == 0 && res_d.mantissa > 0;
    let second = res_d.mantissa == 0 && res_c.mantissa > 0;
    &&& first ==> match sub_spec(res_d, predicted) {
        None => r is None,
        Some(_) => if near(res_d, predicted) {
            r == Some(Some(res_d))
        } else {
            r == Some(None::<Amount>)
        },
    }
    &&& second ==> match sub_spec(res_c, predicted) {
        None => r is None,
        Some(_) => if near(res_c, predicted) {
            r matches Some(Some(x)) && x.mantissa == -res_c.mantissa && x.scale == res_c.scale
        } else {
            r == Some(None::<Amount>)
        },
    }
    &&& !first && !second ==> r == Some(None::<Amount>)
}

/// Strictly increasing.
pub open spec fn strictly_sorted(xs: Seq<u128>) -> bool {
    forall|a: int, b: int| 0 <= a < b < xs.len() ==> xs[a] < xs[b]
}

/// `xs` sorted with repeats dropped (`sort_unstable` then `dedup`): strictly
/// increasing, holding exactly the values of `xs`.
pub fn sorted_unique(xs: &Vec<u128>) -> (r: Vec<u128>)
    ensures
        strictly_sorted(r@),
        r@.to_set() == xs@.to_set(),
{
    let mut out: Vec<u128> = Vec::new();
    let mut i: usize = 0;
    while i < xs.len()
        invariant
            i <= xs.len(),
            strictly_sorted(out@),
            out@.to_set() == xs@.take(i as int).to_set(),
        decreases xs.len() - i,
    {
        let x = xs[i];
        let mut k: usize = 0;
        while k < out.len() && out[k] < x
            invariant
                k <= out.len(),
                forall|j: int| 0 <= j < k ==> out@[j] < x,
            decreases out.len() - k,
        {
            k = k + 1;
        }
        let ghost before = out@;
        if k == out.len() || out[k] != x {
            out.insert(k, x);
            proof {
                assert forall|a: int, b: int| 0 <= a < b < out.len() implies out@[a] < out@[b] by {
                    if b < k {
                        assert(out@[a] == before[a] && out@[b] == before[b]);
                    } else if b == k {
                        assert(out@[a] == before[a]);
                    } else if a == k {
                        assert(out@[b] == before[b - 1]);
                        assert(before[k as int] > x || before[k as int] == x);
                        if b - 1 > k {
                            assert(before[k as int] < before[b - 1]);
                        }
                    } else if a < k {
                        assert(out@[a] == before[a] && out@[b] == before[b - 1]);
                        assert(before[a] < x);
                    } else {
                        assert(out@[a] == before[a - 1] && out@[b] == before[b - 1]);
                    }
                }
            }
        }
        proof {
            assert(xs@.take(i + 1) =~= xs@.take(i as int).push(x));
            assert(out@.to_set() =~= xs@.take(i + 1).to_set()) by {
                assert forall|v: u128| out@.to_set().contains(v) implies xs@.take(i + 1).to_set().contains(v) by {
                    let j = choose|j: int| 0 <= j < out.len() && #[trigger] out@[j] == v;
                    if v != x {
                        if j < k {
                            assert(before[j] == v);
                            assert(before.to_set().contains(v));
                        } else if out@.len() > before.len() {
                            if j == k {
                            } else {
                                assert(before[j - 1] == v);
                                assert(before.to_set().contains(v));
                            }
                        } else {
                            assert(before[j] == v);
                            assert(before.to_set().contains(v));
                        }
                        let m = choose|m: int| 0 <= m < i && #[trigger] xs@.take(i as int)[m] == v;
                        assert(xs@.take(i + 1)[m] == v);
                    } else {
                        assert(xs@.take(i + 1)[i as int] == v);
                    }
                }
                assert forall|v: u128| xs@.take(i + 1).to_set().contains(v) implies out@.to_set().contains(v) by {
                    let m = choose|m: int| 0 <= m < i + 1 && #[trigger] xs@.take(i + 1)[m] == v;
                    if m < i {
                        assert(xs@.take(i as int)[m] == v);
                        assert(before.to_set().contains(v));
                        let j = choose|j: int| 0 <= j < before.len() && #[trigger] before[j] == v;
                        if out@.len() > before.len() {
                            if j < k {
                                assert(out@[j] == v);
                            } else {
                                assert(out@[j + 1] == v);
                            }
                        } else {
                            assert(out@[j] == v);
                        }
                    } else {
                        assert(v == x);
                        if out@.len() > before.len() {
                            assert(out@[k as int] == v);
                        } else {
                            assert(out@[k as int] == v);
                        }
                    }
                }
            }
        }
        i = i + 1;
    }
    proof {
        assert(xs@.take(xs.len() as int) =~= xs@);
    }
    out
}

/// The groups and the lines an unlink touches: the groups the closure's edges
/// belong to, and both lines of every edge, each sorted with repeats dropped.
pub fn affected_sets(closure: &Vec<PartialRow>) -> (r: (Vec<u128>, Vec<u128>))
    ensures
        strictly_sorted(r.0@),
        strictly_sorted(r.1@),
        forall|g: u128| r.0@.contains(g) <==> exists|i: int| 0 <= i < closure.len() && (#[trigger] closure@[i]).full_reconcile_id
            == Some(g),
        forall|l: u128| r.1@.contains(l) <==> exists|i: int| 0 <= i < closure.len() && ((#[trigger] closure@[i]).debit_move_id
            == l || closure@[i].credit_move_id == l),
{
    let mut groups: Vec<u128> = Vec::new();
    let mut lines: Vec<u128> = Vec::new();
    let mut i: usize = 0;
    while i < closure.len()
        invariant
            i <= closure.len(),
            forall|g: u128| groups@.contains(g) <==> exists|k: int| 0 <= k < i && (#[trigger] closure@[k]).full_reconcile_id
                == Some(g),
            forall|l: u128| lines@.contains(l) <==> exists|k: int| 0 <= k < i && ((#[trigger] closure@[k]).debit_move_id
                == l || closure@[k].credit_move_id == l),
        decreases closure.len() - i,
    {
        let p = closure[i];
        let ghost g0 = groups@;
        let ghost l0 = lines@;
        match p.full_reconcile_id {
            Some(g) => {
                groups.push(g);
            },
            None => {},
        }
        lines.push(p.debit_move_id);
        lines.push(p.credit_move_id);
        proof {
            assert forall|g: u128| groups@.contains(g) <==> exists|k: int| 0 <= k < i + 1 && (#[trigger] closure@[k]).full_reconcile_id
                == Some(g) by {
                if groups@.contains(g) {
                    let j = choose|j: int| 0 <= j < groups@.len() && groups@[j] == g;
                    if j < g0.len() {
                        assert(g0[j] == g);
                        assert(g0.contains(g));
                    } else {
                        assert(closure@[i as int].full_reconcile_id == Some(g));
                    }
                }
                if exists|k: int| 0 <= k < i + 1 && (#[trigger] closure@[k]).full_reconcile_id == Some(g) {
                    let k = choose|k: int| 0 <= k < i + 1 && (#[trigger] closure@[k]).full_reconcile_id == Some(g);
                    if k < i {
                        assert(g0.contains(g));
                        let j = choose|j: int| 0 <= j < g0.len() && g0[j] == g;
                        assert(groups@[j] == g);
                    } else {
                        assert(groups@[groups@.len() - 1] == g);
                    }
                }
            }
            assert forall|l: u128| lines@.contains(l) <==> exists|k: int| 0 <= k < i + 1 && ((#[trigger] closure@[k]).debit_move_id
                == l || closure@[k].credit_move_id == l) by {
                if lines@.contains(l) {
                    let j = choose|j: int| 0 <= j < lines@.len() && lines@[j] == l;
                    if j < l0.len() {
                        assert(l0[j] == l);
                        assert(l0.contains(l));
                    } else {
                        assert(closure@[i as int].debit_move_id == l || closure@[i as int].credit_move_id == l);
                    }
                }
                if exists|k: int| 0 <= k < i + 1 && ((#[trigger] closure@[k]).debit_move_id == l || closure@[k].credit_move_id == l) {
                    let k = choose|k: int| 0 <= k < i + 1 && ((#[trigger] closure@[k]).debit_move_id == l || closure@[k].credit_move_id == l);
                    if k < i {
                        assert(l0.contains(l));
                        let j = choose|j: int| 0 <= j < l0.len() && l0[j] == l;
                        assert(lines@[j] == l);
                    } else if closure@[k].debit_move_id == l {
                        assert(lines@[l0.len() as int] == l);
                    } else {
                        assert(lines@[l0.len() as int + 1] == l);
                    }
                }
            }
        }
        i = i + 1;
    }
    let g = sorted_unique(&groups);
    let l = sorted_unique(&lines);
    proof {
        assert forall|x: u128| g@.contains(x) <==> groups@.contains(x) by {
            assert(g@.to_set().contains(x) == g@.contains(x));
            assert(groups@.to_set().contains(x) == groups@.contains(x));
        }
        assert forall|x: u128| l@.contains(x) <==> lines@.contains(x) by {
            assert(l@.to_set().contains(x) == l@.contains(x));
            assert(lines@.to_set().contains(x) == lines@.contains(x));
        }
    }
    (g, l)
}

/// The ids of a list of edges.
pub open spec fn partial_ids(ps: Seq<PartialRow>) -> Seq<u128> {
    ps.map_values(|p: PartialRow| p.id)
}

/// The closure of the edges between a pair grown by the edges they derived:
/// each derived edge whose id is not yet in the closure is appended, in
/// order.
pub open spec fn extend_spec(base: Seq<PartialRow>, ds: Seq<PartialRow>) -> Seq<PartialRow>
    decreases ds.len(),
{
    if ds.len() == 0 {
        base
    } else {
        let acc = extend_spec(base, ds.drop_last());
        if partial_ids(acc).contains(ds.last().id) {
            acc
        } else {
            acc.push(ds.last())
        }
    }
}

fn contains_id(ps: &Vec<PartialRow>, id: u128) -> (r: bool)
    ensures
        r == partial_ids(ps@).contains(id),
{
    let mut i: usize = 0;
    while i < ps.len()
        invariant
            i <= ps.len(),
            forall|k: int| 0 <= k < i ==> ps@[k].id != id,
        decreases ps.len() - i,
    {
        if ps[i].id == id {
            assert(partial_ids(ps@)[i as int] == id);
            return true;
        }
        i = i + 1;
    }
    proof {
        if partial_ids(ps@).contains(id) {
            let k = choose|k: int| 0 <= k < partial_ids(ps@).len() && partial_ids(ps@)[k] == id;
            assert(ps@[k].id == id);
        }
    }
    false
}

/// The unlink closure of the edges between a pair: the edges themselves,
/// then every edge they derived (listed per edge, in order) that is not
/// already in.
pub fn extend_closure(closure: Vec<PartialRow>, derived: &Vec<PartialRow>) -> (r: Vec<PartialRow>)
    ensures
        r@ == extend_spec(closure@, derived@),
{
    let mut out = closure;
    let ghost base = out@;
    let mut i: usize = 0;
    assert(derived@.take(0) =~= Seq::<PartialRow>::empty());
    while i < derived.len()
        invariant
            i <= derived.len(),
            out@ == extend_spec(base, derived@.take(i as int)),
        decreases derived.len() - i,
    {
        let d = derived[i];
        proof {
            assert(derived@.take(i + 1).drop_last() =~= derived@.take(i as int));
            assert(derived@.take(i + 1).last() == d);
        }
        if !contains_id(&out, d.id) {
            out.push(d);
        }
        i = i + 1;
    }
    proof {
        assert(derived@.take(derived.len() as int) =~= derived@);
    }
    out
}

/// Extending a closure whose ids are distinct keeps them distinct.
pub proof fn lemma_extend_distinct(base: Seq<PartialRow>, ds: Seq<PartialRow>)
    requires
        partial_ids(base).no_duplicates(),
    ensures
        partial_ids(extend_spec(base, ds)).no_duplicates(),
        base.is_prefix_of(extend_spec(base, ds)),
    decreases ds.len(),
{
    if ds.len() > 0 {
        lemma_extend_distinct(base, ds.drop_last());
        let acc = extend_spec(base, ds.drop_last());
        if !partial_ids(acc).contains(ds.last().id) {
            let n = acc.push(ds.last());
            assert(partial_ids(n) =~= partial_ids(acc).push(ds.last().id));
            assert(partial_ids(n).no_duplicates()) by {
                assert forall|a: int, b: int| 0 <= a < partial_ids(n).len() && 0 <= b < partial_ids(n).len() && a != b
                    implies partial_ids(n)[a] != partial_ids(n)[b] by {
                    if a == acc.len() as int {
                        assert(partial_ids(acc)[b] == partial_ids(n)[b]);
                    } else if b == acc.len() as int {
                        assert(partial_ids(acc)[a] == partial_ids(n)[a]);
                    }
                }
            }
            assert(base.is_prefix_of(n)) by {
                assert forall|k: int| 0 <= k < base.len() implies n[k] == base[k] by {
                    assert(acc[k] == base[k]);
                }
            }
        }
    }
}

/// The unlink closure of one edge: the edge, then the edges it derived other
/// than itself.
pub fn single_closure(partial: PartialRow, derived: &Vec<PartialRow>) -> (r: Vec<PartialRow>)
    ensures
        r@ == seq![partial] + derived@.filter(|d: PartialRow| d.id != partial.id),
{
    let mut out: Vec<PartialRow> = Vec::new();
    out.push(partial);
    let mut i: usize = 0;
    assert(derived@.take(0).filter(|d: PartialRow| d.id != partial.id) =~= Seq::<PartialRow>::empty());
    while i < derived.len()
        invariant
            i <= derived.len(),
            out@ == seq![partial] + derived@.take(i as int).filter(|d: PartialRow| d.id != partial.id),
        decreases derived.len() - i,
    {
        let d = derived[i];
        proof {
            assert(derived@.take(i + 1).drop_last() =~= derived@.take(i as int));
            reveal(Seq::filter);
        }
        if d.id != partial.id {
            out.push(d);
            proof {
                assert(out@ =~= seq![partial] + derived@.take(i + 1).filter(|d: PartialRow| d.id != partial.id));
            }
        } else {
            proof {
                assert(out@ =~= seq![partial] + derived@.take(i + 1).filter(|d: PartialRow| d.id != partial.id));
            }
        }
        i = i + 1;
    }
    proof {
        assert(derived@.take(derived.len() as int) =~= derived@);
    }
    out
}

/// A balanced set of lines to commit through the posting contract.
#[derive(Debug, Clone)]
pub struct PostingWrite {
    pub company_id: u128,
    pub branch_id: Option<u128>,
    pub source_type: String,
    pub source_id: u128,
    pub source_reference: Option<String>,
    /// Days since 0001-01-01 (day 1 is that date).
    pub posting_date: i32,
    pub fiscal_period_id: Option<u128>,
    pub fiscal_year: i32,
    pub fiscal_month: i32,
    pub currency: String,
    pub posting_type: String,
    pub reverses_post_id: Option<u128>,
    pub reverses_journal_id: Option<u128>,
    pub description: Option<String>,
    pub idempotency_key: Option<String>,
    pub posted_by: Option<u128>,
    pub lines: Vec<PostingLine>,
}

/// The exchange-difference adjustment journal of an edge: sourced
/// "reconciliation" by the edge id, keyed and referenced "exch:<edge id>",
/// posting type "adjustment", with the fiscal year and month of its date.
/// `None` when the date has no calendar date.
pub fn exchange_move_write(
    company_id: u128,
    partial_id: u128,
    posting_date: i32,
    currency: &str,
    actor: Option<u128>,
    fx_line: PostingLine,
    ar_line: PostingLine,
) -> (r: Option<PostingWrite>)
    ensures
        match chrono_year_month(posting_date) {
            None => r is None,
            Some((y, m)) => r matches Some(w) && {
                &&& w.company_id == company_id
                &&& w.branch_id is None
                &&& w.source_type@ == "reconciliation"@
                &&& w.source_id == partial_id
                &&& w.source_reference matches Some(t) && t@ == "exch:"@ + uuid_hyphenated(partial_id)
                &&& w.idempotency_key matches Some(t) && t@ == "exch:"@ + uuid_hyphenated(partial_id)
                &&& w.posting_date == posting_date
                &&& w.fiscal_period_id is None
                &&& w.fiscal_year == y
                &&& w.fiscal_month == m
                &&& w.currency@ == currency@
                &&& w.posting_type@ == "adjustment"@
                &&& w.reverses_post_id is None
                &&& w.reverses_journal_id is None
                &&& w.description matches Some(t) && t@ == "exchange difference on reconciliation"@
                &&& w.posted_by == actor
                &&& w.lines@ == seq![fx_line, ar_line]
            },
        },
{
    let (year, month) = match year_month(posting_date) {
        Some(p) => p,
        None => return None,
    };
    let key = with_uuid("exch:", partial_id);
    let reference = with_uuid("exch:", partial_id);
    let mut lines: Vec<PostingLine> = Vec::new();
    lines.push(fx_line);
    lines.push(ar_line);
    Some(PostingWrite {
        company_id,
        branch_id: None,
        source_type: string_from("reconciliation"),
        source_id: partial_id,
        source_reference: Some(reference),
        posting_date,
        fiscal_period_id: None,
        fiscal_year: year,
        fiscal_month: month as i32,
        currency: string_from(currency),
        posting_type: string_from("adjustment"),
        reverses_post_id: None,
        reverses_journal_id: None,
        description: Some(string_from("exchange difference on reconciliation")),
        idempotency_key: Some(key),
        posted_by: actor,
        lines,
    })
}

/// What is known of a generated journal to reverse it.
#[derive(Debug, Clone)]
pub struct JournalReversalMeta {
    pub journal_id: u128,
    pub branch_id: Option<u128>,
    pub currency: String,
    pub reverses_post_id: Option<u128>,
}

/// A line with debit and credit swapped, everything else kept.
pub open spec fn swapped(l: PostingLine, r: PostingLine) -> bool {
    &&& r.account_id == l.account_id
    &&& r.debit == l.credit
    &&& r.credit == l.debit
    &&& r.party_type == l.party_type
    &&& r.party_id == l.party_id
    &&& r.cost_center_id == l.cost_center_id
    &&& r.project_id == l.project_id
    &&& r.department_id == l.department_id
    &&& r.description == l.description
}

/// The lines of a generated journal with debit and credit swapped.
pub fn swap_lines(lines: &Vec<PostingLine>) -> (r: Vec<PostingLine>)
    ensures
        r.len() == lines.len(),
        forall|i: int| 0 <= i < r.len() ==> swapped(lines@[i], #[trigger] r@[i]),
{
    let mut out: Vec<PostingLine> = Vec::new();
    let mut i: usize = 0;
    while i < lines.len()
        invariant
            i <= lines.len(),
            out.len() == i,
            forall|k: int| 0 <= k < i ==> swapped(lines@[k], #[trigger] out@[k]),
        decreases lines.len() - i,
    {
        let l = &lines[i];
        out.push(PostingLine {
            account_id: l.account_id,
            debit: l.credit,
            credit: l.debit,
            party_type: crate::text::clone_opt(&l.party_type),
            party_id: l.party_id,
            cost_center_id: l.cost_center_id,
            project_id: l.project_id,
            department_id: l.department_id,
            description: crate::text::clone_opt(&l.description),
        });
        i = i + 1;
    }
    out
}

/// The reversal of a reconciliation-generated journal on unlink: its lines
/// swapped, dated `today` (an old document's closed period must not block the
/// unlink), sourced "reconciliation" by the journal it undoes, keyed and
/// referenced "unlink:<journal id>", posting type "reversal". `None` when the
/// journal has no lines (nothing to reverse) or `today` has no calendar date.
pub fn unlink_reversal_write(
    company_id: u128,
    journal_id: u128,
    meta: &JournalReversalMeta,
    lines: &Vec<PostingLine>,
    today: i32,
    actor: Option<u128>,
) -> (r: Option<PostingWrite>)
    ensures
        lines.len() == 0 ==> r is None,
        lines.len() > 0 ==> match chrono_year_month(today) {
            None => r is None,
            Some((y, m)) => r matches Some(w) && {
                &&& w.company_id == company_id
                &&& w.branch_id == meta.branch_id
                &&& w.source_type@ == "reconciliation"@
                &&& w.source_id == meta.journal_id
                &&& w.source_reference matches Some(t) && t@ == "unlink:"@ + uuid_hyphenated(journal_id)
                &&& w.idempotency_key matches Some(t) && t@ == "unlink:"@ + uuid_hyphenated(journal_id)
                &&& w.posting_date == today
                &&& w.fiscal_period_id is None
                &&& w.fiscal_year == y
                &&& w.fiscal_month == m
                &&& w.currency@ == meta.currency@
                &&& w.posting_type@ == "reversal"@
                &&& w.reverses_post_id == meta.reverses_post_id
                &&& w.reverses_journal_id == Some(meta.journal_id)
                &&& w.description matches Some(t) && t@ == "reconciliation unlink reversal"@
                &&& w.posted_by == actor
                &&& w.lines.len() == lines.len()
                &&& forall|i: int| 0 <= i < lines.len() ==> swapped(lines@[i], #[trigger] w.lines@[i])
            },
        },
{
    if lines.len() == 0 {
        return None;
    }
    let (year, month) = match year_month(today) {
        Some(p) => p,
        None => return None,
    };
    let swapped_lines = swap_lines(lines);
    Some(PostingWrite {
        company_id,
        branch_id: meta.branch_id,
        source_type: string_from("reconciliation"),
        source_id: meta.journal_id,
        source_reference: Some(with_uuid("unlink:", journal_id)),
        posting_date: today,
        fiscal_period_id: None,
        fiscal_year: year,
        fiscal_month: month as i32,
        currency: meta.currency.clone(),
        posting_type: string_from("reversal"),
        reverses_post_id: meta.reverses_post_id,
        reverses_journal_id: Some(meta.journal_id),
        description: Some(string_from("reconciliation unlink reversal")),
        idempotency_key: Some(with_uuid("unlink:", journal_id)),
        posted_by: actor,
        lines: swapped_lines,
    })
}

/// Swapping twice gives back the lines: an unlink reversal of a reversal
/// restores the original sides.
pub proof fn lemma_swap_involutive(l: PostingLine, r: PostingLine, rr: PostingLine)
    requires
        swapped(l, r),
        swapped(r, rr),
    ensures
        rr == l,
{
}

} // verus!
