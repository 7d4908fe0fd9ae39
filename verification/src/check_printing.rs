//! Check printing: the per-bank-journal check-number sequence and the
//! printed-check registry.
//!
//! A sequence numbers checks either `auto` (the next numbers are allocated
//! from a cursor) or `manual` (the officer supplies the number printed on
//! prenumbered stock). Numbers are capped at 2147483647: an allocation that
//! would cross the cap is refused and consumes nothing. The decisions are
//! made here; the caller runs them inside its storage transaction.

use crate::amount::Amount;
use crate::emv_qr::{decimal_text, digit_char};
use crate::text::{chars_of, str_eq, string_from, string_of, trim, trim_chars};
use vstd::prelude::*;

verus! {

/// Upstream's 32-bit sequence ceiling.
pub const MAX_CHECK_NUMBER: i64 = 2147483647i64;

/// Longest manual check number, in digits.
pub const MAX_CHECK_DIGITS: usize = 10;

/// Register (or replace) the check sequence of one bank journal.
#[derive(Debug, Clone)]
pub struct RegisterSequence {
    pub company_id: u128,
    pub bank_account_id: u128,
    /// "auto" or "manual".
    pub numbering_mode: String,
    /// First number the sequence will hand out (auto mode).
    pub next_number: i64,
}

/// Record one printed check.
#[derive(Debug, Clone)]
pub struct RecordCheck {
    pub company_id: u128,
    pub bank_account_id: u128,
    pub payment_id: u128,
    pub payment_number: Option<String>,
    pub amount: Amount,
    pub payee_name: Option<String>,
    /// Required under `manual` numbering; must be absent under `auto`.
    pub check_number: Option<String>,
    /// Officer recording the print.
    pub actor: Option<u128>,
}

#[derive(Debug, Clone)]
pub struct SequenceAck {
    pub sequence_id: u128,
    pub company_id: u128,
    pub bank_account_id: u128,
    pub numbering_mode: String,
    pub next_number: i64,
}

/// Consecutive check numbers handed out by one allocation.
#[derive(Debug, Clone)]
pub struct AllocationAck {
    pub first: i64,
    pub last: i64,
    pub numbers: Vec<i64>,
}

#[derive(Debug, Clone)]
pub struct PrintedCheckAck {
    pub printed_check_id: u128,
    pub company_id: u128,
    pub bank_account_id: u128,
    pub payment_id: u128,
    pub check_number: String,
    pub status: String,
}

/// Why a check-printing request was refused.
#[derive(Debug, Clone)]
pub enum CheckPrintingError {
    /// No sequence registered for (company, bank journal).
    SequenceNotRegistered(u128),
    /// A number was supplied to an auto sequence, or missing under manual.
    NumberingModeConflict { mode: String, detail: String },
    /// A manual number is malformed (empty, non-digit, over length, over cap).
    InvalidCheckNumber(String),
    /// The number is already in the registry for this bank journal.
    DuplicateCheckNumber(String),
    /// The next allocation would cross the cap.
    CheckNumberOverflow,
    /// Registry row not found for the company.
    CheckNotFound(u128),
    /// Voiding a check that is already voided.
    AlreadyVoided(u128),
    /// Check amounts must be strictly positive.
    InvalidAmount,
    /// Storage failure.
    Internal(String),
}

impl CheckPrintingError {
    pub open spec fn code_text(&self) -> Seq<char> {
        match self {
            CheckPrintingError::SequenceNotRegistered(_) => "sequence_not_registered"@,
            CheckPrintingError::NumberingModeConflict { .. } => "numbering_mode_conflict"@,
            CheckPrintingError::InvalidCheckNumber(_) => "invalid_check_number"@,
            CheckPrintingError::DuplicateCheckNumber(_) => "duplicate_check_number"@,
            CheckPrintingError::CheckNumberOverflow => "check_number_overflow"@,
            CheckPrintingError::CheckNotFound(_) => "check_not_found"@,
            CheckPrintingError::AlreadyVoided(_) => "check_already_voided"@,
            CheckPrintingError::InvalidAmount => "invalid_amount"@,
            CheckPrintingError::Internal(_) => "internal_error"@,
        }
    }

    pub open spec fn status_of(&self) -> u16 {
        match self {
            CheckPrintingError::SequenceNotRegistered(_) => 404,
            CheckPrintingError::CheckNotFound(_) => 404,
            CheckPrintingError::Internal(_) => 500,
            _ => 422,
        }
    }

    /// The stable machine-readable code of the refusal.
    pub fn code(&self) -> (r: &'static str)
        ensures
            r@ == self.code_text(),
    {
        match self {
            CheckPrintingError::SequenceNotRegistered(_) => "sequence_not_registered",
            CheckPrintingError::NumberingModeConflict { .. } => "numbering_mode_conflict",
            CheckPrintingError::InvalidCheckNumber(_) => "invalid_check_number",
            CheckPrintingError::DuplicateCheckNumber(_) => "duplicate_check_number",
            CheckPrintingError::CheckNumberOverflow => "check_number_overflow",
            CheckPrintingError::CheckNotFound(_) => "check_not_found",
            CheckPrintingError::AlreadyVoided(_) => "check_already_voided",
            CheckPrintingError::InvalidAmount => "invalid_amount",
            CheckPrintingError::Internal(_) => "internal_error",
        }
    }

    /// The HTTP status the refusal maps to: 404 for a missing sequence or
    /// check, 500 for storage failures, 422 otherwise.
    pub fn http_status(&self) -> (r: u16)
        ensures
            r == self.status_of(),
    {
        match self {
            CheckPrintingError::SequenceNotRegistered(_) => 404,
            CheckPrintingError::CheckNotFound(_) => 404,
            CheckPrintingError::Internal(_) => 500,
            _ => 422,
        }
    }
}

/// An ASCII decimal digit.
pub open spec fn is_digit(c: char) -> bool {
    '0' <= c <= '9'
}

pub open spec fn all_digits(s: Seq<char>) -> bool {
    forall|i: int| 0 <= i < s.len() ==> is_digit(#[trigger] s[i])
}

/// The number written by the decimal digits `s`.
pub open spec fn digits_value(s: Seq<char>) -> int
    decreases s.len(),
{
    if s.len() == 0 {
        0
    } else {
        digits_value(s.drop_last()) * 10 + ((s.last() as u32) - 48)
    }
}

/// `10^n`.
pub open spec fn ten_pow(n: nat) -> int
    decreases n,
{
    if n == 0 {
        1
    } else {
        10 * ten_pow((n - 1) as nat)
    }
}

proof fn lemma_digits_value_bound(s: Seq<char>)
    requires
        all_digits(s),
    ensures
        0 <= digits_value(s) < ten_pow(s.len()),
    decreases s.len(),
{
    if s.len() > 0 {
        let p = s.drop_last();
        assert(all_digits(p)) by {
            assert forall|i: int| 0 <= i < p.len() implies is_digit(#[trigger] p[i]) by {
                assert(p[i] == s[i]);
            }
        }
        lemma_digits_value_bound(p);
        assert(is_digit(s[s.len() - 1]));
    }
}

/// A manual check number is accepted when, once trimmed, it is 1 to 10 ASCII
/// digits whose value is at most the cap.
pub open spec fn manual_number_ok(raw: Seq<char>) -> bool {
    let n = trim(raw);
    &&& 1 <= n.len() <= MAX_CHECK_DIGITS
    &&& all_digits(n)
    &&& digits_value(n) <= MAX_CHECK_NUMBER
}

/// The officer's number, trimmed, when it is 1 to 10 ASCII digits no larger
/// than the cap; otherwise `InvalidCheckNumber` with the raw text.
pub fn validate_manual_number(raw: &str) -> (r: Result<String, CheckPrintingError>)
    ensures
        manual_number_ok(raw@) ==> (r matches Ok(t) && t@ == trim(raw@)),
        !manual_number_ok(raw@) ==> (r matches Err(CheckPrintingError::InvalidCheckNumber(s))
            && s@ == raw@),
{
    let cs = chars_of(raw);
    let n = trim_chars(&cs);
    if n.len() == 0 || n.len() > MAX_CHECK_DIGITS {
        return Err(CheckPrintingError::InvalidCheckNumber(string_from(raw)));
    }
    let mut value: i64 = 0;
    let mut i: usize = 0;
    while i < n.len()
        invariant
            1 <= n.len() <= MAX_CHECK_DIGITS,
            i <= n.len(),
            all_digits(n@.take(i as int)),
            value == digits_value(n@.take(i as int)),
            n@ == trim(raw@),
        decreases n.len() - i,
    {
        let c = n[i];
        if !('0' <= c && c <= '9') {
            proof {
                assert(!all_digits(n@)) by {
                    assert(!is_digit(n@[i as int]));
                }
            }
            return Err(CheckPrintingError::InvalidCheckNumber(string_from(raw)));
        }
        proof {
            let t = n@.take(i + 1);
            assert(t.drop_last() =~= n@.take(i as int));
            assert(all_digits(t)) by {
                assert forall|k: int| 0 <= k < t.len() implies is_digit(#[trigger] t[k]) by {
                    if k < i {
                        assert(t[k] == n@.take(i as int)[k]);
                    }
                }
            }
            lemma_digits_value_bound(t);
            assert(ten_pow(t.len()) <= 10000000000) by {
                lemma_ten_pow_mono(t.len(), 10);
                reveal_with_fuel(ten_pow, 11);
            }
        }
        value = value * 10 + ((c as u32) - 48) as i64;
        i = i + 1;
    }
    proof {
        assert(n@.take(n.len() as int) =~= n@);
    }
    if value > MAX_CHECK_NUMBER {
        return Err(CheckPrintingError::InvalidCheckNumber(string_from(raw)));
    }
    Ok(string_of(&n))
}

proof fn lemma_ten_pow_mono(a: nat, b: nat)
    requires
        a <= b,
    ensures
        ten_pow(a) <= ten_pow(b),
    decreases b,
{
    if a < b {
        lemma_ten_pow_mono(a, (b - 1) as nat);
        lemma_ten_pow_pos((b - 1) as nat);
    }
}

proof fn lemma_ten_pow_pos(a: nat)
    ensures
        ten_pow(a) >= 1,
    decreases a,
{
    if a > 0 {
        lemma_ten_pow_pos((a - 1) as nat);
    }
}

/// The decimal text of a signed number (`i64::to_string`).
pub open spec fn int_text(n: int) -> Seq<char> {
    if n < 0 {
        seq!['-'] + decimal_text((-n) as nat)
    } else {
        decimal_text(n as nat)
    }
}

fn digit_of(d: u64) -> (r: char)
    requires
        d < 10,
    ensures
        r == digit_char(d as nat),
{
    crate::text::char_from_ascii((d as u32) + 48)
}

fn u64_digits(n: u64) -> (r: Vec<char>)
    ensures
        r@ == decimal_text(n as nat),
    decreases n,
{
    if n < 10 {
        let mut r: Vec<char> = Vec::new();
        r.push(digit_of(n));
        r
    } else {
        let mut r = u64_digits(n / 10);
        r.push(digit_of(n % 10));
        r
    }
}

/// `n` as decimal text, with a leading `-` when negative.
pub fn i64_text(n: i64) -> (r: String)
    ensures
        r@ == int_text(n as int),
{
    if n < 0 {
        let m: u64 = if n == i64::MIN {
            9223372036854775808u64
        } else {
            (-n) as u64
        };
        let d = u64_digits(m);
        let mut out: Vec<char> = Vec::new();
        out.push('-');
        let mut i: usize = 0;
        while i < d.len()
            invariant
                i <= d.len(),
                out@ == seq!['-'] + d@.take(i as int),
            decreases d.len() - i,
        {
            out.push(d[i]);
            proof {
                assert(d@.take(i + 1) =~= d@.take(i as int).push(d@[i as int]));
            }
            i = i + 1;
        }
        proof {
            assert(d@.take(d.len() as int) =~= d@);
        }
        string_of(&out)
    } else {
        let d = u64_digits(n as u64);
        string_of(&d)
    }
}

/// A numbering mode the registry knows.
pub open spec fn known_mode(mode: Seq<char>) -> bool {
    mode == "auto"@ || mode == "manual"@
}

/// Checks a sequence registration: the mode is "auto" or "manual" (else
/// `NumberingModeConflict`), then the first number lies in 1..=cap (else
/// `InvalidCheckNumber` with the number as text).
pub fn validate_registration(req: &RegisterSequence) -> (r: Result<(), CheckPrintingError>)
    ensures
        !known_mode(req.numbering_mode@) ==> (r matches Err(
            CheckPrintingError::NumberingModeConflict { mode, detail },
        ) && mode@ == req.numbering_mode@ && detail@ == "numbering_mode must be \"auto\" or \"manual\""@),
        known_mode(req.numbering_mode@) && !(1 <= req.next_number <= MAX_CHECK_NUMBER) ==> (r matches Err(
            CheckPrintingError::InvalidCheckNumber(s),
        ) && s@ == int_text(req.next_number as int)),
        known_mode(req.numbering_mode@) && 1 <= req.next_number <= MAX_CHECK_NUMBER ==> r is Ok,
{
    let mode = req.numbering_mode.as_str();
    if !str_eq(mode, "auto") && !str_eq(mode, "manual") {
        return Err(CheckPrintingError::NumberingModeConflict {
            mode: req.numbering_mode.clone(),
            detail: string_from("numbering_mode must be \"auto\" or \"manual\""),
        });
    }
    if req.next_number < 1 || req.next_number > MAX_CHECK_NUMBER {
        return Err(CheckPrintingError::InvalidCheckNumber(i64_text(req.next_number)));
    }
    Ok(())
}

/// An allocation asks for at least one number; otherwise
/// `InvalidCheckNumber("count must be >= 1")`.
pub fn validate_count(count: i64) -> (r: Result<(), CheckPrintingError>)
    ensures
        count >= 1 ==> r is Ok,
        count < 1 ==> (r matches Err(CheckPrintingError::InvalidCheckNumber(s)) && s@
            == "count must be >= 1"@),
{
    if count < 1 {
        return Err(CheckPrintingError::InvalidCheckNumber(string_from("count must be >= 1")));
    }
    Ok(())
}

/// The numbers `first`, `first + 1`, ... `first + count - 1`.
pub open spec fn consecutive(first: int, count: nat) -> Seq<i64> {
    Seq::new(count, |i: int| (first + i) as i64)
}

/// The numbers an auto allocation of `count` hands out, given the cursor the
/// sequence was bumped to (old cursor + `count`): `new_cursor - count` up to
/// `new_cursor - 1`. Refused with `CheckNumberOverflow` when the last would
/// cross the cap.
pub fn allocation_from_cursor(new_cursor: i64, count: i64) -> (r: Result<AllocationAck, CheckPrintingError>)
    requires
        count >= 1,
        new_cursor - count >= i64::MIN,
    ensures
        new_cursor - 1 > MAX_CHECK_NUMBER ==> r matches Err(CheckPrintingError::CheckNumberOverflow),
        new_cursor - 1 <= MAX_CHECK_NUMBER ==> (r matches Ok(a) && {
            &&& a.first == new_cursor - count
            &&& a.last == new_cursor - 1
            &&& a.numbers@ == consecutive(new_cursor - count, count as nat)
        }),
{
    let first = new_cursor - count;
    if new_cursor - 1 > MAX_CHECK_NUMBER {
        return Err(CheckPrintingError::CheckNumberOverflow);
    }
    let mut numbers: Vec<i64> = Vec::new();
    let mut x: i64 = first;
    while x < new_cursor
        invariant
            first <= x <= new_cursor,
            first == new_cursor - count,
            numbers@ == consecutive(first as int, (x - first) as nat),
        decreases new_cursor - x,
    {
        numbers.push(x);
        proof {
            assert(numbers@ =~= consecutive(first as int, (x + 1 - first) as nat));
        }
        x = x + 1;
    }
    Ok(AllocationAck { first, last: new_cursor - 1, numbers })
}

/// An allocation hands out exactly `count` numbers, each one more than the
/// one before, from `first` to `last`.
pub proof fn lemma_allocation_consecutive(first: int, count: nat)
    requires
        count >= 1,
        i64::MIN <= first,
        first + count - 1 <= i64::MAX,
    ensures
        consecutive(first, count).len() == count,
        consecutive(first, count)[0] == first,
        consecutive(first, count)[count - 1] == first + count - 1,
        forall|i: int| 0 <= i < count - 1 ==> #[trigger] consecutive(first, count)[i + 1] == consecutive(first, count)[i] + 1,
{
}

/// Allocations from successive bumps of one sequence never hand out a number
/// twice: when the cursor moves on from `c1` to `c2 = c1 + count2`, the
/// second allocation starts right after the first one ended, and every number
/// of the first is below every number of the second.
pub proof fn lemma_successive_allocations_disjoint(c1: int, count1: nat, c2: int, count2: nat)
    requires
        count1 >= 1,
        count2 >= 1,
        c2 == c1 + count2,
        i64::MIN <= c1 - count1,
        c2 - 1 <= i64::MAX,
    ensures
        consecutive(c2 - count2, count2)[0] == consecutive(c1 - count1, count1)[count1 - 1] + 1,
        forall|i: int, j: int| 0 <= i < count1 && 0 <= j < count2 ==> #[trigger] consecutive(c1 - count1, count1)[i]
            < #[trigger] consecutive(c2 - count2, count2)[j],
{
}

/// The refusal when an auto allocation bumped no row: no sequence at all
/// (`SequenceNotRegistered`), or one in another mode (`NumberingModeConflict`).
pub fn allocation_refusal(mode: Option<String>, bank_account_id: u128) -> (r: CheckPrintingError)
    ensures
        mode is None ==> r == CheckPrintingError::SequenceNotRegistered(bank_account_id),
        mode matches Some(m) ==> (r matches CheckPrintingError::NumberingModeConflict { mode: rm, detail }
            && rm@ == m@ && detail@ == "auto allocation requires numbering_mode = \"auto\""@),
{
    match mode {
        None => CheckPrintingError::SequenceNotRegistered(bank_account_id),
        Some(m) => CheckPrintingError::NumberingModeConflict {
            mode: m,
            detail: string_from("auto allocation requires numbering_mode = \"auto\""),
        },
    }
}

/// How the number of a check to record is obtained.
#[derive(Debug, Clone)]
pub enum NumberPlan {
    /// Allocate one number from the auto sequence.
    Allocate,
    /// Use the officer's (validated, trimmed) number.
    Manual(String),
}

/// A printed check must have a strictly positive amount.
pub fn validate_check_amount(amount: Amount) -> (r: Result<(), CheckPrintingError>)
    ensures
        amount.mantissa > 0 ==> r is Ok,
        amount.mantissa <= 0 ==> r matches Err(CheckPrintingError::InvalidAmount),
{
    if amount.mantissa <= 0 {
        return Err(CheckPrintingError::InvalidAmount);
    }
    Ok(())
}

/// Decides how a check's number is obtained under the sequence's mode:
/// `auto` allocates and refuses a supplied number; `manual` validates the
/// supplied number and refuses its absence; any other mode is refused.
pub fn plan_check_number(mode: &str, supplied: Option<&str>) -> (r: Result<NumberPlan, CheckPrintingError>)
    ensures
        mode@ == "auto"@ ==> match supplied {
            Some(_) => r matches Err(CheckPrintingError::NumberingModeConflict { mode: m, detail })
                && m@ == "auto"@ && detail@ == "auto sequences allocate; do not supply a check number"@,
            None => r matches Ok(NumberPlan::Allocate),
        },
        mode@ == "manual"@ ==> match supplied {
            None => r matches Err(CheckPrintingError::NumberingModeConflict { mode: m, detail })
                && m@ == "manual"@ && detail@ == "manual sequences require the officer's check number"@,
            Some(raw) => {
                &&& manual_number_ok(raw@) ==> (r matches Ok(NumberPlan::Manual(t)) && t@ == trim(raw@))
                &&& !manual_number_ok(raw@) ==> (r matches Err(CheckPrintingError::InvalidCheckNumber(s))
                    && s@ == raw@)
            },
        },
        !known_mode(mode@) ==> (r matches Err(CheckPrintingError::NumberingModeConflict { mode: m, detail })
            && m@ == mode@ && detail@ == "unknown numbering mode"@),
{
    proof {
        reveal_strlit("auto");
        reveal_strlit("manual");
    }
    if str_eq(mode, "auto") {
        if supplied.is_some() {
            return Err(CheckPrintingError::NumberingModeConflict {
                mode: string_from("auto"),
                detail: string_from("auto sequences allocate; do not supply a check number"),
            });
        }
        Ok(NumberPlan::Allocate)
    } else if str_eq(mode, "manual") {
        match supplied {
            None => Err(CheckPrintingError::NumberingModeConflict {
                mode: string_from("manual"),
                detail: string_from("manual sequences require the officer's check number"),
            }),
            Some(raw) => match validate_manual_number(raw) {
                Ok(t) => Ok(NumberPlan::Manual(t)),
                Err(e) => Err(e),
            },
        }
    } else {
        Err(CheckPrintingError::NumberingModeConflict {
            mode: string_from(mode),
            detail: string_from("unknown numbering mode"),
        })
    }
}

/// The check number text of a one-number auto allocation.
pub fn allocated_number_text(a: &AllocationAck) -> (r: String)
    ensures
        r@ == int_text(a.first as int),
{
    i64_text(a.first)
}

/// The refusal when voiding found no printed row: the check is already
/// voided when its status reads "voided", otherwise it does not exist.
pub fn void_refusal(status: Option<&str>, printed_check_id: u128) -> (r: CheckPrintingError)
    ensures
        (match status {
            Some(s) => s@ == "voided"@,
            None => false,
        }) ==> r == CheckPrintingError::AlreadyVoided(printed_check_id),
        !(match status {
            Some(s) => s@ == "voided"@,
            None => false,
        }) ==> r == CheckPrintingError::CheckNotFound(printed_check_id),
{
    match status {
        Some(s) => if str_eq(s, "voided") {
            CheckPrintingError::AlreadyVoided(printed_check_id)
        } else {
            CheckPrintingError::CheckNotFound(printed_check_id)
        },
        None => CheckPrintingError::CheckNotFound(printed_check_id),
    }
}

/// The acknowledgement of a freshly recorded check.
pub fn printed_ack(printed_check_id: u128, req: &RecordCheck, check_number: String) -> (r: PrintedCheckAck)
    ensures
        r.printed_check_id == printed_check_id,
        r.company_id == req.company_id,
        r.bank_account_id == req.bank_account_id,
        r.payment_id == req.payment_id,
        r.check_number == check_number,
        r.status@ == "printed"@,
{
    PrintedCheckAck {
        printed_check_id,
        company_id: req.company_id,
        bank_account_id: req.bank_account_id,
        payment_id: req.payment_id,
        check_number,
        status: string_from("printed"),
    }
}

} // verus!
