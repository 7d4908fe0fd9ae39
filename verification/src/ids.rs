//! Identifiers and date stamps shared by the document numbers: the
//! hyphenated text of a uuid, the compact text of a date and its calendar
//! year and month.
//!
//! Dates are day numbers: days since 0001-01-01 of the proleptic Gregorian
//! calendar, day 1 being that date.

use crate::emv_qr::{decimal_text, pad2};
use crate::text::{chars_of, ostr, string_of};
use chrono::{Datelike, NaiveDate};
use uuid::Uuid;
use vstd::prelude::*;

verus! {

/// The proleptic Gregorian date (year, month, day) of day number `days` (day
/// 1 is 0001-01-01): days are counted from 0000-03-01 in eras of 400 years,
/// each year starting in March so that the leap day falls last.
#[verifier::opaque]
pub open spec fn civil_date(days: int) -> (int, int, int) {
    let z = days + 305;
    let era = z / 146097;
    let doe = z - era * 146097;
    let yoe = (doe - doe / 1460 + doe / 36524 - doe / 146096) / 365;
    let doy = doe - (365 * yoe + yoe / 4 - yoe / 100);
    let mp = (5 * doy + 2) / 153;
    let d = doy - (153 * mp + 2) / 5 + 1;
    let m = if mp < 10 { mp + 3 } else { mp - 9 };
    (yoe + era * 400 + if m <= 2 { 1int } else { 0int }, m, d)
}

/// chrono has a date for day number `days`: its year lies within chrono's
/// range, -262143 to 262142.
pub open spec fn chrono_has_date(days: i32) -> bool {
    &&& days + 365 <= i32::MAX
    &&& -262143 <= civil_date(days as int).0 <= 262142
}

/// `n` in decimal, zero padded to at least four digits.
pub open spec fn pad4(n: nat) -> Seq<char> {
    let t = decimal_text(n);
    if t.len() < 4 {
        Seq::new((4 - t.len()) as nat, |i: int| '0') + t
    } else {
        t
    }
}

/// A year as `%Y` writes it: four digits for 0 to 9999, otherwise a sign and
/// at least four digits.
pub open spec fn year_text(y: int) -> Seq<char> {
    if 0 <= y <= 9999 {
        pad4(y as nat)
    } else if y > 9999 {
        seq!['+'] + pad4(y as nat)
    } else {
        seq!['-'] + pad4((-y) as nat)
    }
}

/// What `NaiveDate::from_num_days_from_ce_opt(days)` formatted with
/// `"%Y%m%d"` gives: the year, then month and day in two digits; `None` where
/// chrono has no date for that day number.
pub open spec fn chrono_compact_date(days: i32) -> Option<Seq<char>> {
    if chrono_has_date(days) {
        let (y, m, d) = civil_date(days as int);
        Some(year_text(y) + pad2(m as nat) + pad2(d as nat))
    } else {
        None
    }
}

/// Calls `NaiveDate::from_num_days_from_ce_opt` and formats the date with
/// `"%Y%m%d"` (chrono's `write_year` and two-digit month and day).
#[verifier::external_body]
fn compact_date_text(days: i32) -> (r: Option<String>)
    ensures
        ostr(r) == chrono_compact_date(days),
{
    NaiveDate::from_num_days_from_ce_opt(days).map(|d| d.format("%Y%m%d").to_string())
}

/// A lowercase hexadecimal digit, for `d < 16`.
pub open spec fn lower_hex(d: int) -> char {
    if d < 10 {
        ((d + 48) as u32) as char
    } else {
        ((d + 87) as u32) as char
    }
}

/// The lowest `n` hexadecimal digits of `v`, most significant first.
pub open spec fn hex_digits(v: nat, n: nat) -> Seq<char>
    decreases n,
{
    if n == 0 {
        seq![]
    } else {
        hex_digits(v / 16, (n - 1) as nat).push(lower_hex((v % 16) as int))
    }
}

/// The hyphenated lowercase form of the uuid whose big-endian value is `v`:
/// its 32 hexadecimal digits in groups of 8, 4, 4, 4 and 12, joined by "-".
pub open spec fn uuid_hyphenated(v: u128) -> Seq<char> {
    let h = hex_digits(v as nat, 32);
    h.subrange(0, 8) + seq!['-'] + h.subrange(8, 12) + seq!['-'] + h.subrange(12, 16) + seq!['-'] + h.subrange(
        16,
        20,
    ) + seq!['-'] + h.subrange(20, 32)
}

/// Calls `Uuid::from_u128` (the value's big-endian bytes) and its `Display`,
/// which writes the hyphenated lowercase form, 36 characters long (uuid's
/// `Hyphenated::LENGTH`).
#[verifier::external_body]
pub(crate) fn uuid_text(v: u128) -> (r: String)
    ensures
        r@ == uuid_hyphenated(v),
        r@.len() == 36,
{
    Uuid::from_u128(v).to_string()
}

/// What `NaiveDate::from_num_days_from_ce_opt(days)` gives as (year, month);
/// `None` where chrono has no date for that day number.
pub open spec fn chrono_year_month(days: i32) -> Option<(i32, u32)> {
    if chrono_has_date(days) {
        Some((civil_date(days as int).0 as i32, civil_date(days as int).1 as u32))
    } else {
        None
    }
}

/// Calls `NaiveDate::from_num_days_from_ce_opt`, then `Datelike::year` and
/// `Datelike::month`. Claimed as well: the month is 1 to 12 (chrono's
/// documentation).
#[verifier::external_body]
pub(crate) fn year_month(days: i32) -> (r: Option<(i32, u32)>)
    ensures
        r == chrono_year_month(days),
        r matches Some((_, m)) ==> 1 <= m <= 12,
{
    NaiveDate::from_num_days_from_ce_opt(days).map(|d| (d.year(), d.month()))
}

/// A document number "<prefix><yyyymmdd>-<first 8 characters of the uuid>",
/// for a date and a freshly drawn uuid.
pub fn dated_number(prefix: &str, date: i32, nonce: u128) -> (r: Option<String>)
    ensures
        match chrono_compact_date(date) {
            Some(d) => r matches Some(t) && t@ == prefix@ + d + "-"@ + uuid_hyphenated(nonce).take(8),
            None => r is None,
        },
{
    let date_text = match compact_date_text(date) {
        Some(d) => d,
        None => return None,
    };
    let id = chars_of(uuid_text(nonce).as_str());
    let d = chars_of(date_text.as_str());
    let mut out: Vec<char> = chars_of(prefix);
    let ghost p = out@;
    let mut i: usize = 0;
    while i < d.len()
        invariant
            i <= d.len(),
            out@ == p + d@.take(i as int),
        decreases d.len() - i,
    {
        out.push(d[i]);
        proof {
            assert(d@.take(i + 1) =~= d@.take(i as int).push(d@[i as int]));
        }
        i = i + 1;
    }
    out.push('-');
    let ghost head = out@;
    let mut j: usize = 0;
    while j < 8
        invariant
            j <= 8,
            id@.len() == 36,
            out@ == head + id@.take(j as int),
        decreases 8 - j,
    {
        out.push(id[j]);
        proof {
            assert(id@.take(j + 1) =~= id@.take(j as int).push(id@[j as int]));
        }
        j = j + 1;
    }
    proof {
        reveal_strlit("-");
        assert(d@.take(d.len() as int) =~= d@);
        assert(out@ =~= prefix@ + date_text@ + "-"@ + uuid_hyphenated(nonce).take(8));
    }
    Some(string_of(&out))
}

/// `text` followed by the hyphenated uuid (as `format!("{text}{id}")`).
pub fn with_uuid(text: &str, id: u128) -> (r: String)
    ensures
        r@ == text@ + uuid_hyphenated(id),
{
    let mut out = chars_of(text);
    let u = chars_of(uuid_text(id).as_str());
    let ghost p = out@;
    let mut i: usize = 0;
    while i < u.len()
        invariant
            i <= u.len(),
            out@ == p + u@.take(i as int),
        decreases u.len() - i,
    {
        out.push(u[i]);
        proof {
            assert(u@.take(i + 1) =~= u@.take(i as int).push(u@[i as int]));
        }
        i = i + 1;
    }
    proof {
        assert(u@.take(u.len() as int) =~= u@);
    }
    string_of(&out)
}

} // verus!
