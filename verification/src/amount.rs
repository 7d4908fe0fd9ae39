//! Decimal money amounts.
//!
//! An [`Amount`] is a decimal number held as a signed mantissa and a scale
//! (number of fractional digits): its value is `mantissa / 10^scale`. The
//! representable range is that of a 96-bit decimal: the scale is at most 28 and
//! the magnitude of the mantissa below 2^96. Arithmetic that can round or
//! overflow is delegated to `rust_decimal`.

use crate::emv_qr::{decimal_text, pad2};
use rust_decimal::Decimal;
use vstd::prelude::*;

verus! {

/// Largest mantissa magnitude a 96-bit decimal can hold (2^96 - 1).
pub const MAX_MANTISSA: i128 = 79228162514264337593543950335i128;

/// Largest scale a 96-bit decimal can hold.
pub const MAX_SCALE: u32 = 28;

/// `10^n`.
pub open spec fn pow10(n: nat) -> int
    decreases n,
{
    if n == 0 {
        1
    } else {
        10 * pow10((n - 1) as nat)
    }
}

pub proof fn lemma_pow10_positive(n: nat)
    ensures
        pow10(n) > 0,
    decreases n,
{
    if n > 0 {
        lemma_pow10_positive((n - 1) as nat);
    }
}

/// A decimal amount: `mantissa / 10^scale`.
#[derive(Clone, Copy, Debug)]
pub struct Amount {
    pub mantissa: i128,
    pub scale: u32,
}

impl Amount {
    /// Inside the range of a 96-bit decimal.
    pub open spec fn wf(self) -> bool {
        &&& self.scale <= MAX_SCALE
        &&& -MAX_MANTISSA <= self.mantissa <= MAX_MANTISSA
    }

    /// The value scaled to 28 fractional digits: two amounts are equal as
    /// numbers exactly when these integers are equal.
    pub open spec fn value(self) -> int {
        self.mantissa * pow10((MAX_SCALE - self.scale) as nat)
    }

    /// Zero at scale 0.
    pub fn zero() -> (r: Amount)
        ensures
            r.mantissa == 0,
            r.scale == 0,
            r.wf(),
    {
        Amount { mantissa: 0, scale: 0 }
    }

    /// The amount `mantissa / 10^scale`.
    pub fn new(mantissa: i128, scale: u32) -> (r: Amount)
        requires
            scale <= MAX_SCALE,
            -MAX_MANTISSA <= mantissa <= MAX_MANTISSA,
        ensures
            r.mantissa == mantissa,
            r.scale == scale,
            r.wf(),
    {
        Amount { mantissa, scale }
    }

    pub fn is_zero(&self) -> (r: bool)
        ensures
            r == (self.mantissa == 0),
    {
        self.mantissa == 0
    }

    pub fn is_positive(&self) -> (r: bool)
        ensures
            r == (self.mantissa > 0),
    {
        self.mantissa > 0
    }

    pub fn is_negative(&self) -> (r: bool)
        ensures
            r == (self.mantissa < 0),
    {
        self.mantissa < 0
    }

    /// The negated amount (same scale).
    pub fn neg(&self) -> (r: Amount)
        requires
            self.wf(),
        ensures
            r.mantissa == -self.mantissa,
            r.scale == self.scale,
            r.wf(),
    {
        Amount { mantissa: -self.mantissa, scale: self.scale }
    }

    /// The magnitude (same scale).
    pub fn abs(&self) -> (r: Amount)
        requires
            self.wf(),
        ensures
            r.mantissa == if self.mantissa < 0 { -self.mantissa } else { self.mantissa as int },
            r.scale == self.scale,
            r.wf(),
    {
        if self.mantissa < 0 {
            self.neg()
        } else {
            *self
        }
    }
}

/// What `Decimal::checked_add` returns outside the cases stated by
/// [`decimal_checked_add`] (an operand or the sum, written at the larger
/// scale, beyond 96 bits), as (mantissa, scale); `None` on overflow.
pub uninterp spec fn decimal_add_other(am: i128, asc: u32, bm: i128, bsc: u32) -> Option<(i128, u32)>;

/// What `Decimal::checked_sub` returns outside the cases stated by
/// [`decimal_checked_sub`], as (mantissa, scale); `None` on overflow.
pub uninterp spec fn decimal_sub_other(am: i128, asc: u32, bm: i128, bsc: u32) -> Option<(i128, u32)>;

/// The larger of two scales.
pub open spec fn wider(asc: u32, bsc: u32) -> u32 {
    if asc > bsc {
        asc
    } else {
        bsc
    }
}

/// The mantissa of `m / 10^sc` written at the finer scale `s`.
pub open spec fn aligned(m: i128, sc: u32, s: u32) -> int {
    m * pow10((s - sc) as nat)
}

/// Inside the 96-bit mantissa range.
pub open spec fn fits(x: int) -> bool {
    -MAX_MANTISSA <= x <= MAX_MANTISSA
}

/// Both operands, written at the larger of their scales, fit 96 bits.
pub open spec fn aligned_fit(am: i128, asc: u32, bm: i128, bsc: u32) -> bool {
    &&& fits(aligned(am, asc, wider(asc, bsc)))
    &&& fits(aligned(bm, bsc, wider(asc, bsc)))
}

/// The cases of `Decimal::checked_add` that [`decimal_checked_add`] states.
pub open spec fn add_stated(am: i128, asc: u32, bm: i128, bsc: u32) -> bool {
    ||| am == 0
    ||| bm == 0
    ||| asc == bsc && -MAX_MANTISSA <= am + bm <= MAX_MANTISSA
    ||| asc != bsc && aligned_fit(am, asc, bm, bsc) && fits(
        aligned(am, asc, wider(asc, bsc)) + aligned(bm, bsc, wider(asc, bsc)),
    )
}

/// The cases of `Decimal::checked_sub` that [`decimal_checked_sub`] states.
pub open spec fn sub_stated(am: i128, asc: u32, bm: i128, bsc: u32) -> bool {
    ||| am == 0
    ||| bm == 0
    ||| asc == bsc && -MAX_MANTISSA <= am - bm <= MAX_MANTISSA
    ||| asc != bsc && aligned_fit(am, asc, bm, bsc) && fits(
        aligned(am, asc, wider(asc, bsc)) - aligned(bm, bsc, wider(asc, bsc)),
    )
}

/// `Decimal::checked_add` of `am / 10^asc` and `bm / 10^bsc`, as (mantissa,
/// scale): adding to a zero hands the other operand back unchanged; at one
/// scale, a sum that fits 96 bits is the sum of the mantissas; at different
/// scales, when both operands written at the larger scale and their sum fit
/// 96 bits, the sum is exact at that scale.
pub open spec fn decimal_checked_add(am: i128, asc: u32, bm: i128, bsc: u32) -> Option<(i128, u32)> {
    if am == 0 {
        Some((bm, bsc))
    } else if bm == 0 {
        Some((am, asc))
    } else if asc == bsc && -MAX_MANTISSA <= am + bm <= MAX_MANTISSA {
        Some(((am + bm) as i128, asc))
    } else if asc != bsc && aligned_fit(am, asc, bm, bsc) && fits(
        aligned(am, asc, wider(asc, bsc)) + aligned(bm, bsc, wider(asc, bsc)),
    ) {
        Some(((aligned(am, asc, wider(asc, bsc)) + aligned(bm, bsc, wider(asc, bsc))) as i128, wider(asc, bsc)))
    } else {
        decimal_add_other(am, asc, bm, bsc)
    }
}

/// `Decimal::checked_sub` of `am / 10^asc` and `bm / 10^bsc`, as (mantissa,
/// scale): `0 - x` is `x` negated at its own scale, `x - 0` is `x`; at one
/// scale, a difference that fits 96 bits is the difference of the mantissas;
/// at different scales, when both operands written at the larger scale and
/// their difference fit 96 bits, the difference is exact at that scale.
pub open spec fn decimal_checked_sub(am: i128, asc: u32, bm: i128, bsc: u32) -> Option<(i128, u32)> {
    if am == 0 {
        Some(((-bm) as i128, bsc))
    } else if bm == 0 {
        Some((am, asc))
    } else if asc == bsc && -MAX_MANTISSA <= am - bm <= MAX_MANTISSA {
        Some(((am - bm) as i128, asc))
    } else if asc != bsc && aligned_fit(am, asc, bm, bsc) && fits(
        aligned(am, asc, wider(asc, bsc)) - aligned(bm, bsc, wider(asc, bsc)),
    ) {
        Some(((aligned(am, asc, wider(asc, bsc)) - aligned(bm, bsc, wider(asc, bsc))) as i128, wider(asc, bsc)))
    } else {
        decimal_sub_other(am, asc, bm, bsc)
    }
}

/// The (mantissa, scale) pair of an optional amount.
pub open spec fn parts_of(r: Option<Amount>) -> Option<(i128, u32)> {
    match r {
        Some(x) => Some((x.mantissa, x.scale)),
        None => None,
    }
}

/// Calls `Decimal::checked_add`. Claimed of it: adding to a zero hands the
/// other operand back unchanged; when both operands, written at the larger of
/// their scales, and their exact sum fit 96 bits, the sum is exact at that
/// scale (the zero, aligned and rescaling paths of `ops/add.rs`); in every
/// other case the result is the crate's (named `decimal_add_other`); a result
/// is always inside the 96-bit range.
#[verifier::external_body]
pub(crate) fn dec_add(a: Amount, b: Amount) -> (r: Option<Amount>)
    requires
        a.wf(),
        b.wf(),
    ensures
        parts_of(r) == decimal_checked_add(a.mantissa, a.scale, b.mantissa, b.scale),
        !add_stated(a.mantissa, a.scale, b.mantissa, b.scale) ==> parts_of(r) == decimal_add_other(
            a.mantissa,
            a.scale,
            b.mantissa,
            b.scale,
        ),
        r matches Some(x) ==> x.wf(),
{
    let x = Decimal::from_i128_with_scale(a.mantissa, a.scale);
    let y = Decimal::from_i128_with_scale(b.mantissa, b.scale);
    x.checked_add(y).map(|d| Amount { mantissa: d.mantissa(), scale: d.scale() })
}

/// Calls `Decimal::checked_sub`. Claimed of it, as for [`dec_add`]: `0 - x` is `x`
/// negated at its scale, `x - 0` is `x`, and when both operands written at the
/// larger scale and their difference fit 96 bits it is exact at that scale;
/// otherwise the result is the crate's (named `decimal_sub_other`); a result
/// is always inside the 96-bit range.
#[verifier::external_body]
pub(crate) fn dec_sub(a: Amount, b: Amount) -> (r: Option<Amount>)
    requires
        a.wf(),
        b.wf(),
    ensures
        parts_of(r) == decimal_checked_sub(a.mantissa, a.scale, b.mantissa, b.scale),
        !sub_stated(a.mantissa, a.scale, b.mantissa, b.scale) ==> parts_of(r) == decimal_sub_other(
            a.mantissa,
            a.scale,
            b.mantissa,
            b.scale,
        ),
        r matches Some(x) ==> x.wf(),
{
    let x = Decimal::from_i128_with_scale(a.mantissa, a.scale);
    let y = Decimal::from_i128_with_scale(b.mantissa, b.scale);
    x.checked_sub(y).map(|d| Amount { mantissa: d.mantissa(), scale: d.scale() })
}

/// Calls `Decimal`'s `==`, which compares numbers, not representations
/// (`1.0 == 1.00`).
#[verifier::external_body]
pub(crate) fn dec_eq(a: Amount, b: Amount) -> (r: bool)
    requires
        a.wf(),
        b.wf(),
    ensures
        r == (a.value() == b.value()),
{
    Decimal::from_i128_with_scale(a.mantissa, a.scale) == Decimal::from_i128_with_scale(b.mantissa, b.scale)
}

/// Calls `Decimal`'s `<`, which orders numbers.
#[verifier::external_body]
pub(crate) fn dec_lt(a: Amount, b: Amount) -> (r: bool)
    requires
        a.wf(),
        b.wf(),
    ensures
        r == (a.value() < b.value()),
{
    Decimal::from_i128_with_scale(a.mantissa, a.scale) < Decimal::from_i128_with_scale(b.mantissa, b.scale)
}

/// What `format!("{:.2}", d.normalize())` prints for the decimal
/// `mantissa / 10^scale`: a "-" when it is negative, the digits of its whole
/// part ("0" when there are none), ".", and its first two fractional digits,
/// cut rather than rounded (zero padded). `normalize` changes the scale, not
/// the value, and the text depends on the value only.
pub open spec fn decimal_fixed2_text(mantissa: i128, scale: u32) -> Seq<char> {
    let a = abs_int(mantissa as int);
    let p = pow10(scale as nat);
    (if mantissa < 0 {
        seq!['-']
    } else {
        Seq::<char>::empty()
    }) + decimal_text((a / p) as nat) + seq!['.'] + pad2(((a * 100 / p) % 100) as nat)
}

/// A character of a plainly written number: a decimal digit, "." or "-".
pub open spec fn number_char(c: char) -> bool {
    ('0' <= c && c <= '9') || c == '.' || c == '-'
}

/// Formats `a` with two fractional digits, after `Decimal::normalize`: as
/// `Display` does with a precision (`str::to_str_internal`), the sign, the
/// whole digits, "." and the first two fractional digits of the value.
#[verifier::external_body]
pub(crate) fn fixed2_text(a: Amount) -> (r: String)
    requires
        a.wf(),
    ensures
        r@ == decimal_fixed2_text(a.mantissa, a.scale),
{
    format!("{:.2}", Decimal::from_i128_with_scale(a.mantissa, a.scale).normalize())
}

/// The crate's running sum of `xs` from zero (what `Iterator::sum` computes),
/// `None` when an addition overflows.
pub open spec fn sum_of(xs: Seq<Amount>) -> Option<(i128, u32)>
    decreases xs.len(),
{
    if xs.len() == 0 {
        Some((0i128, 0u32))
    } else {
        match sum_of(xs.drop_last()) {
            None => None,
            Some((m, s)) => decimal_checked_add(m, s, xs.last().mantissa, xs.last().scale),
        }
    }
}

/// Every amount is inside the 96-bit range.
pub open spec fn all_wf(xs: Seq<Amount>) -> bool {
    forall|i: int| 0 <= i < xs.len() ==> (#[trigger] xs[i]).wf()
}

/// The sum of `xs`, or `None` when the decimal arithmetic overflows.
pub fn sum_amounts(xs: &Vec<Amount>) -> (r: Option<Amount>)
    requires
        all_wf(xs@),
    ensures
        parts_of(r) == sum_of(xs@),
        r matches Some(x) ==> x.wf(),
{
    let mut acc = Amount::zero();
    let mut i: usize = 0;
    while i < xs.len()
        invariant
            i <= xs.len(),
            all_wf(xs@),
            acc.wf(),
            sum_of(xs@.subrange(0, i as int)) == Some((acc.mantissa, acc.scale)),
        decreases xs.len() - i,
    {
        proof {
            assert(xs@.subrange(0, i + 1).drop_last() =~= xs@.subrange(0, i as int));
            assert(xs@.subrange(0, i + 1).last() == xs@[i as int]);
        }
        match dec_add(acc, xs[i]) {
            Some(next) => {
                acc = next;
            },
            None => {
                proof {
                    assert(xs@.subrange(0, i + 1).last() == xs@[i as int]);
                    assert(sum_of(xs@.subrange(0, i + 1)) is None);
                    lemma_sum_of_none_stays(xs@, i + 1, xs.len() as int);
                    assert(xs@.subrange(0, xs.len() as int) =~= xs@);
                }
                return None;
            },
        }
        i = i + 1;
    }
    proof {
        assert(xs@.subrange(0, xs.len() as int) =~= xs@);
    }
    Some(acc)
}

/// Once a prefix sum overflows, every longer prefix sum does.
pub proof fn lemma_sum_of_none_stays(xs: Seq<Amount>, n: int, m: int)
    requires
        0 <= n <= m <= xs.len(),
        sum_of(xs.subrange(0, n)) is None,
    ensures
        sum_of(xs.subrange(0, m)) is None,
    decreases m - n,
{
    if m > n {
        lemma_sum_of_none_stays(xs, n, m - 1);
        assert(xs.subrange(0, m).drop_last() =~= xs.subrange(0, m - 1));
    }
}

/// The amount of a (mantissa, scale) pair.
pub open spec fn amount_of(p: (i128, u32)) -> Amount {
    Amount { mantissa: p.0, scale: p.1 }
}

/// An optional (mantissa, scale) pair as an optional amount.
pub open spec fn amount_opt(p: Option<(i128, u32)>) -> Option<Amount> {
    match p {
        Some(q) => Some(amount_of(q)),
        None => None,
    }
}

/// The crate's sum of two amounts, `None` on overflow.
pub open spec fn add_spec(a: Amount, b: Amount) -> Option<Amount> {
    amount_opt(decimal_checked_add(a.mantissa, a.scale, b.mantissa, b.scale))
}

/// The crate's difference of two amounts, `None` on overflow.
pub open spec fn sub_spec(a: Amount, b: Amount) -> Option<Amount> {
    amount_opt(decimal_checked_sub(a.mantissa, a.scale, b.mantissa, b.scale))
}

pub proof fn lemma_amount_opt(r: Option<Amount>)
    ensures
        amount_opt(parts_of(r)) == r,
{
}

/// A running total from zero: each step adds (`false`) or subtracts (`true`)
/// an amount, with the crate's arithmetic; `None` once a step overflows.
pub open spec fn running(xs: Seq<(bool, Amount)>) -> Option<Amount>
    decreases xs.len(),
{
    if xs.len() == 0 {
        Some(Amount { mantissa: 0, scale: 0 })
    } else {
        match running(xs.drop_last()) {
            None => None,
            Some(t) => if xs.last().0 {
                sub_spec(t, xs.last().1)
            } else {
                add_spec(t, xs.last().1)
            },
        }
    }
}

/// `|x|`.
pub open spec fn abs_int(x: int) -> int {
    if x < 0 {
        -x
    } else {
        x
    }
}

/// Every step's amount is in range, with a scale of at most `s`.
pub open spec fn steps_within(xs: Seq<(bool, Amount)>, s: u32) -> bool {
    forall|i: int| 0 <= i < xs.len() ==> (#[trigger] xs[i]).1.wf() && xs[i].1.scale <= s
}

/// The values of the steps, added or subtracted.
pub open spec fn signed_value_sum(xs: Seq<(bool, Amount)>) -> int
    decreases xs.len(),
{
    if xs.len() == 0 {
        0
    } else {
        signed_value_sum(xs.drop_last()) + if xs.last().0 {
            -xs.last().1.value()
        } else {
            xs.last().1.value()
        }
    }
}

/// The magnitudes of the steps' values, summed.
pub open spec fn value_magnitude(xs: Seq<(bool, Amount)>) -> int
    decreases xs.len(),
{
    if xs.len() == 0 {
        0
    } else {
        value_magnitude(xs.drop_last()) + abs_int(xs.last().1.value())
    }
}

/// The magnitude of values (in units of `10^-28`) that 96-bit mantissas at
/// scale `s` reach: `(2^96 - 1) / 10^s`.
pub open spec fn value_room(s: u32) -> int {
    MAX_MANTISSA * pow10((MAX_SCALE - s) as nat)
}

pub proof fn lemma_pow10_add(a: nat, b: nat)
    ensures
        pow10(a + b) == pow10(a) * pow10(b),
    decreases b,
{
    if b > 0 {
        lemma_pow10_add(a, (b - 1) as nat);
        assert(pow10(a + b) == 10 * pow10((a + b - 1) as nat));
        assert(pow10(a) * (10 * pow10((b - 1) as nat)) == 10 * (pow10(a) * pow10((b - 1) as nat))) by (nonlinear_arith);
    }
}

pub proof fn lemma_pow10_mono(a: nat, b: nat)
    requires
        a <= b,
    ensures
        0 < pow10(a) <= pow10(b),
    decreases b,
{
    lemma_pow10_positive(a);
    if b > a {
        lemma_pow10_mono(a, (b - 1) as nat);
    }
}

/// A zero mantissa is a zero value; the value's sign is the mantissa's.
pub proof fn lemma_value_sign(a: Amount)
    ensures
        a.mantissa == 0 ==> a.value() == 0,
        a.mantissa > 0 ==> a.value() > 0,
        a.mantissa < 0 ==> a.value() < 0,
        abs_int(a.value()) == abs_int(a.mantissa as int) * pow10((MAX_SCALE - a.scale) as nat),
{
    let p = pow10((MAX_SCALE - a.scale) as nat);
    lemma_pow10_positive((MAX_SCALE - a.scale) as nat);
    let m = a.mantissa as int;
    assert(m == 0 ==> m * p == 0) by (nonlinear_arith);
    assert(m > 0 ==> m * p > 0) by (nonlinear_arith)
        requires
            p > 0,
    ;
    assert(m < 0 ==> m * p < 0) by (nonlinear_arith)
        requires
            p > 0,
    ;
    assert(abs_int(m * p) == abs_int(m) * p) by (nonlinear_arith)
        requires
            p > 0,
    ;
}

/// An amount at scale `sc`, written at a finer scale `w`: the aligned mantissa
/// times the finer unit is its value.
proof fn lemma_aligned_value(m: i128, sc: u32, w: u32)
    requires
        sc <= w <= MAX_SCALE,
    ensures
        (Amount { mantissa: m, scale: sc }).value() == aligned(m, sc, w) * pow10((MAX_SCALE - w) as nat),
{
    lemma_pow10_add((w - sc) as nat, (MAX_SCALE - w) as nat);
    let x = pow10((w - sc) as nat);
    let y = pow10((MAX_SCALE - w) as nat);
    assert((m as int) * (x * y) == ((m as int) * x) * y) by (nonlinear_arith);
}

/// Within the room of a scale at least as fine as both operands, adding or
/// subtracting two amounts is exact in value, at a scale no finer than that.
pub proof fn lemma_add_sub_value(a: Amount, b: Amount, s: u32)
    requires
        a.wf(),
        b.wf(),
        a.scale <= s <= MAX_SCALE,
        b.scale <= s,
        abs_int(a.value()) + abs_int(b.value()) <= value_room(s),
    ensures
        add_spec(a, b) matches Some(d) && d.wf() && d.scale <= s && d.value() == a.value() + b.value(),
        sub_spec(a, b) matches Some(d) && d.wf() && d.scale <= s && d.value() == a.value() - b.value(),
{
    lemma_value_sign(a);
    lemma_value_sign(b);
    let w = wider(a.scale, b.scale);
    let q = pow10((MAX_SCALE - w) as nat);
    let r = pow10((MAX_SCALE - s) as nat);
    lemma_pow10_mono((MAX_SCALE - s) as nat, (MAX_SCALE - w) as nat);
    lemma_aligned_value(a.mantissa, a.scale, w);
    lemma_aligned_value(b.mantissa, b.scale, w);
    let aa = aligned(a.mantissa, a.scale, w);
    let bb = aligned(b.mantissa, b.scale, w);
    let av = a.value();
    let bv = b.value();
    assert(av == aa * q);
    assert(bv == bb * q);
    assert(abs_int(aa) + abs_int(bb) <= MAX_MANTISSA) by (nonlinear_arith)
        requires
            av == aa * q,
            bv == bb * q,
            abs_int(av) + abs_int(bv) <= MAX_MANTISSA * r,
            0 < r <= q,
    ;
    assert((aa + bb) * q == av + bv) by (nonlinear_arith)
        requires
            av == aa * q,
            bv == bb * q,
    ;
    assert((aa - bb) * q == av - bv) by (nonlinear_arith)
        requires
            av == aa * q,
            bv == bb * q,
    ;
    if a.mantissa != 0 && b.mantissa != 0 && a.scale == b.scale {
        assert(w == a.scale);
        assert(pow10(0) == 1);
        assert(aa == a.mantissa);
        assert(bb == b.mantissa);
    }
    let neg_b = Amount { mantissa: (-b.mantissa) as i128, scale: b.scale };
    assert(neg_b.value() == -bv) by (nonlinear_arith)
        requires
            neg_b.value() == (-b.mantissa) * pow10((MAX_SCALE - b.scale) as nat),
            bv == b.mantissa * pow10((MAX_SCALE - b.scale) as nat),
    ;
}

/// The value sum of the steps lies within their magnitude.
pub proof fn lemma_value_bound(xs: Seq<(bool, Amount)>)
    ensures
        -value_magnitude(xs) <= signed_value_sum(xs) <= value_magnitude(xs),
        value_magnitude(xs) >= 0,
    decreases xs.len(),
{
    if xs.len() > 0 {
        lemma_value_bound(xs.drop_last());
    }
}

/// A running total whose steps have scales of at most `s` and whose values'
/// magnitudes fit the room of scale `s` is exact in value, at a scale of at
/// most `s`.
pub proof fn lemma_running_value(xs: Seq<(bool, Amount)>, s: u32)
    requires
        s <= MAX_SCALE,
        steps_within(xs, s),
        value_magnitude(xs) <= value_room(s),
    ensures
        running(xs) matches Some(t) && t.wf() && t.scale <= s && t.value() == signed_value_sum(xs),
    decreases xs.len(),
{
    if xs.len() == 0 {
        assert(Amount { mantissa: 0, scale: 0 }.value() == 0) by {
            lemma_value_sign(Amount { mantissa: 0, scale: 0 });
        }
    } else {
        let p = xs.drop_last();
        assert(steps_within(p, s)) by {
            assert forall|i: int| 0 <= i < p.len() implies (#[trigger] p[i]).1.wf() && p[i].1.scale <= s by {
                assert(p[i] == xs[i]);
            }
        }
        lemma_value_bound(p);
        lemma_running_value(p, s);
        let t = running(p).unwrap();
        let x = xs.last();
        assert(xs[xs.len() - 1] == x);
        lemma_add_sub_value(t, x.1, s);
    }
}

/// Steps side by side add up in value, and stay within a scale.
pub proof fn lemma_steps_value_concat(a: Seq<(bool, Amount)>, b: Seq<(bool, Amount)>, s: u32)
    ensures
        signed_value_sum(a + b) == signed_value_sum(a) + signed_value_sum(b),
        value_magnitude(a + b) == value_magnitude(a) + value_magnitude(b),
        steps_within(a, s) && steps_within(b, s) ==> steps_within(a + b, s),
    decreases b.len(),
{
    if b.len() > 0 {
        lemma_steps_value_concat(a, b.drop_last(), s);
        assert((a + b).drop_last() =~= a + b.drop_last());
        assert((a + b).last() == b.last());
    }
    if steps_within(a, s) && steps_within(b, s) {
        assert forall|i: int| 0 <= i < (a + b).len() implies (#[trigger] (a + b)[i]).1.wf() && (a + b)[i].1.scale <= s by {
            if i < a.len() {
                assert((a + b)[i] == a[i]);
            } else {
                assert((a + b)[i] == b[i - a.len()]);
            }
        }
    }
    if b.len() == 0 {
        assert(a + b =~= a);
    }
}

/// The values of the amounts, summed.
pub open spec fn value_sum(xs: Seq<Amount>) -> int
    decreases xs.len(),
{
    if xs.len() == 0 {
        0
    } else {
        value_sum(xs.drop_last()) + xs.last().value()
    }
}

/// The magnitudes of the amounts' values, summed.
pub open spec fn value_mag_sum(xs: Seq<Amount>) -> int
    decreases xs.len(),
{
    if xs.len() == 0 {
        0
    } else {
        value_mag_sum(xs.drop_last()) + abs_int(xs.last().value())
    }
}

/// Every amount is in range, with a scale of at most `s`.
pub open spec fn all_within(xs: Seq<Amount>, s: u32) -> bool {
    forall|i: int| 0 <= i < xs.len() ==> (#[trigger] xs[i]).wf() && xs[i].scale <= s
}

/// A value sum lies within the magnitudes' sum.
pub proof fn lemma_value_sum_bound(xs: Seq<Amount>)
    ensures
        -value_mag_sum(xs) <= value_sum(xs) <= value_mag_sum(xs),
        value_mag_sum(xs) >= 0,
    decreases xs.len(),
{
    if xs.len() > 0 {
        lemma_value_sum_bound(xs.drop_last());
    }
}

/// Summing amounts whose scales are at most `s` and whose values' magnitudes
/// fit the room of scale `s` is exact: the total is the sum of the values, at
/// a scale of at most `s`.
pub proof fn lemma_sum_of_value(xs: Seq<Amount>, s: u32)
    requires
        s <= MAX_SCALE,
        all_within(xs, s),
        value_mag_sum(xs) <= value_room(s),
    ensures
        sum_of(xs) matches Some(p) && amount_of(p).wf() && p.1 <= s && amount_of(p).value() == value_sum(xs),
    decreases xs.len(),
{
    if xs.len() == 0 {
        lemma_value_sign(Amount { mantissa: 0, scale: 0 });
    } else {
        let init = xs.drop_last();
        assert(all_within(init, s)) by {
            assert forall|i: int| 0 <= i < init.len() implies (#[trigger] init[i]).wf() && init[i].scale <= s by {
                assert(init[i] == xs[i]);
            }
        }
        lemma_value_sum_bound(init);
        lemma_sum_of_value(init, s);
        let t = amount_of(sum_of(init).unwrap());
        let x = xs.last();
        assert(xs[xs.len() - 1] == x);
        lemma_add_sub_value(t, x, s);
    }
}

/// Appending an amount adds its value and its magnitude, and keeps a scale
/// bound.
pub proof fn lemma_push_value(xs: Seq<Amount>, x: Amount, s: u32)
    ensures
        value_sum(xs.push(x)) == value_sum(xs) + x.value(),
        value_mag_sum(xs.push(x)) == value_mag_sum(xs) + abs_int(x.value()),
        all_within(xs, s) && x.wf() && x.scale <= s ==> all_within(xs.push(x), s),
{
    assert(xs.push(x).drop_last() =~= xs);
    if all_within(xs, s) && x.wf() && x.scale <= s {
        assert forall|i: int| 0 <= i < xs.push(x).len() implies (#[trigger] xs.push(x)[i]).wf() && xs.push(x)[i].scale
            <= s by {
            if i < xs.len() {
                assert(xs.push(x)[i] == xs[i]);
            }
        }
    }
}

/// Once a running total overflows, every longer run does too.
pub proof fn lemma_running_none_stays(xs: Seq<(bool, Amount)>, n: int)
    requires
        0 <= n <= xs.len(),
        running(xs.take(n)) is None,
    ensures
        running(xs) is None,
    decreases xs.len() - n,
{
    if n < xs.len() {
        assert(xs.take(n + 1).drop_last() =~= xs.take(n));
        lemma_running_none_stays(xs, n + 1);
    } else {
        assert(xs.take(n) =~= xs);
    }
}

/// The running total of `xs` (see [`running`]).
pub fn running_total(xs: &Vec<(bool, Amount)>) -> (r: Option<Amount>)
    requires
        forall|i: int| 0 <= i < xs.len() ==> (#[trigger] xs@[i]).1.wf(),
    ensures
        r == running(xs@),
        r matches Some(t) ==> t.wf(),
{
    let mut acc = Amount::zero();
    let mut i: usize = 0;
    assert(xs@.take(0) =~= Seq::<(bool, Amount)>::empty());
    while i < xs.len()
        invariant
            i <= xs.len(),
            forall|i: int| 0 <= i < xs.len() ==> (#[trigger] xs@[i]).1.wf(),
            acc.wf(),
            running(xs@.take(i as int)) == Some(acc),
        decreases xs.len() - i,
    {
        let (sub, x) = xs[i];
        proof {
            assert(xs@.take(i + 1).drop_last() =~= xs@.take(i as int));
            assert(xs@.take(i + 1).last() == xs@[i as int]);
        }
        let next = if sub {
            dec_sub(acc, x)
        } else {
            dec_add(acc, x)
        };
        proof {
            lemma_amount_opt(next);
        }
        match next {
            Some(t) => {
                acc = t;
            },
            None => {
                proof {
                    lemma_running_none_stays(xs@, i + 1);
                }
                return None;
            },
        }
        i = i + 1;
    }
    proof {
        assert(xs@.take(xs.len() as int) =~= xs@);
    }
    Some(acc)
}

} // verus!
