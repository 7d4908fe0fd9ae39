//! What the aged report adds up to.
//!
//! Every open item lands in exactly one age bucket of its party's row and of
//! the totals row, and in both totals. So, whatever the residuals' scales, as
//! long as their magnitudes are small enough that no sum can round, each
//! row's total is the sum of its four buckets, and the totals row is the
//! column-wise sum of the party rows, as numbers.

use crate::amount::{
    abs_int, lemma_running_value, lemma_steps_value_concat, running, signed_value_sum, steps_within, value_magnitude,
    value_room, Amount, MAX_SCALE,
};
use crate::reporting::{
    age_bucket, item_keys, item_steps, lemma_aged_parties_distinct, party_steps, row_amounts, row_keys, rows_hold,
    rows_sorted, total_steps, totals_hold, AgedItem, AgedPartyRow,
};
use vstd::prelude::*;

verus! {

/// What item `i` adds to column `c` (0-3 the buckets, 4 the total), as a
/// value: its residual's when the column takes the item, else nothing.
pub open spec fn item_part(items: Seq<AgedItem>, as_of: i32, i: int, c: int) -> int {
    if c == 4 || age_bucket(as_of - items[i].transaction_date) == c {
        items[i].residual.value()
    } else {
        0
    }
}

/// Item `i` belongs to party (`t`, `id`).
pub open spec fn of_party(items: Seq<AgedItem>, i: int, t: Seq<char>, id: u128) -> bool {
    items[i].party_type@ == t && items[i].party_id == id
}

/// Column `c` of party (`t`, `id`) over the first `n` items, as a value.
pub open spec fn party_part(items: Seq<AgedItem>, as_of: i32, t: Seq<char>, id: u128, c: int, n: int) -> int
    decreases n,
{
    if n <= 0 {
        0
    } else {
        party_part(items, as_of, t, id, c, n - 1) + if of_party(items, n - 1, t, id) {
            item_part(items, as_of, n - 1, c)
        } else {
            0
        }
    }
}

/// Column `c` of all the first `n` items, as a value.
pub open spec fn total_part(items: Seq<AgedItem>, as_of: i32, c: int, n: int) -> int
    decreases n,
{
    if n <= 0 {
        0
    } else {
        total_part(items, as_of, c, n - 1) + item_part(items, as_of, n - 1, c)
    }
}

/// The parts of column `c` of the first `m` rows' parties over the first
/// `n` items.
pub open spec fn rows_part(items: Seq<AgedItem>, as_of: i32, rows: Seq<AgedPartyRow>, c: int, n: int, m: int) -> int
    decreases m,
{
    if m <= 0 {
        0
    } else {
        rows_part(items, as_of, rows, c, n, m - 1) + party_part(
            items,
            as_of,
            rows[m - 1].party_type@,
            rows[m - 1].party_id,
            c,
            n,
        )
    }
}

/// The values of column `c` of the first `m` rows, summed.
pub open spec fn rows_column(rows: Seq<AgedPartyRow>, c: int, m: int) -> int
    decreases m,
{
    if m <= 0 {
        0
    } else {
        rows_column(rows, c, m - 1) + row_amounts(rows[m - 1])[c].value()
    }
}

/// Some row belongs to the party of item `i`.
pub open spec fn has_row(items: Seq<AgedItem>, rows: Seq<AgedPartyRow>, i: int) -> bool {
    exists|j: int| 0 <= j < rows.len() && #[trigger] of_party(items, i, rows[j].party_type@, rows[j].party_id)
}

/// How many of the first `m` rows belong to the party of item `i`.
pub open spec fn rows_of_item(items: Seq<AgedItem>, rows: Seq<AgedPartyRow>, i: int, m: int) -> int
    decreases m,
{
    if m <= 0 {
        0
    } else {
        rows_of_item(items, rows, i, m - 1) + if of_party(items, i, rows[m - 1].party_type@, rows[m - 1].party_id) {
            1int
        } else {
            0int
        }
    }
}

/// The magnitudes of the first `n` residuals' values, summed.
pub open spec fn residual_magnitude(items: Seq<AgedItem>, n: int) -> int
    decreases n,
{
    if n <= 0 {
        0
    } else {
        residual_magnitude(items, n - 1) + abs_int(items[n - 1].residual.value())
    }
}

/// Every residual is inside the 96-bit range, with a scale of at most `s`.
pub open spec fn residuals_within(items: Seq<AgedItem>, s: u32) -> bool {
    forall|i: int| 0 <= i < items.len() ==> (#[trigger] items[i]).residual.wf() && items[i].residual.scale <= s
}

proof fn lemma_item_steps(items: Seq<AgedItem>, as_of: i32, i: int, c: int, s: u32)
    requires
        0 <= i < items.len(),
        residuals_within(items, s),
    ensures
        signed_value_sum(item_steps(as_of - items[i].transaction_date, items[i].residual, c)) == item_part(
            items,
            as_of,
            i,
            c,
        ),
        value_magnitude(item_steps(as_of - items[i].transaction_date, items[i].residual, c)) <= residual_magnitude(
            items,
            i + 1,
        ) - residual_magnitude(items, i),
        steps_within(item_steps(as_of - items[i].transaction_date, items[i].residual, c), s),
{
    let d = as_of - items[i].transaction_date;
    let a = items[i].residual;
    let st = item_steps(d, a, c);
    assert(a.wf());
    assert(residual_magnitude(items, i + 1) == residual_magnitude(items, i) + abs_int(a.value()));
    if c == 4 || age_bucket(d) == c {
        assert(st == seq![(false, a)]);
        assert(st.drop_last() =~= Seq::<(bool, Amount)>::empty());
        assert(st.last() == (false, a));
        assert(signed_value_sum(st) == signed_value_sum(st.drop_last()) + a.value());
        assert(value_magnitude(st) == value_magnitude(st.drop_last()) + abs_int(a.value()));
        assert(st[0] == (false, a));
    } else {
        assert(st == Seq::<(bool, Amount)>::empty());
    }
}

proof fn lemma_magnitude_grows(items: Seq<AgedItem>, n: int, m: int)
    requires
        0 <= n <= m,
    ensures
        0 <= residual_magnitude(items, n) <= residual_magnitude(items, m),
    decreases m,
{
    if m > n {
        lemma_magnitude_grows(items, n, m - 1);
    } else if n > 0 {
        lemma_magnitude_grows(items, n - 1, n - 1);
        lemma_magnitude_grows(items, 0, n - 1);
    }
}

/// A party's steps add up to its part, within the residuals' magnitude.
proof fn lemma_party_steps(items: Seq<AgedItem>, as_of: i32, t: Seq<char>, id: u128, c: int, n: int, s: u32)
    requires
        0 <= n <= items.len(),
        residuals_within(items, s),
    ensures
        signed_value_sum(party_steps(items, as_of, t, id, c, n)) == party_part(items, as_of, t, id, c, n),
        value_magnitude(party_steps(items, as_of, t, id, c, n)) <= residual_magnitude(items, n),
        steps_within(party_steps(items, as_of, t, id, c, n), s),
    decreases n,
{
    if n <= 0 {
        assert(party_steps(items, as_of, t, id, c, n) =~= Seq::<(bool, Amount)>::empty());
    } else {
        lemma_party_steps(items, as_of, t, id, c, n - 1, s);
        lemma_item_steps(items, as_of, n - 1, c, s);
        lemma_magnitude_grows(items, n - 1, n);
        let pre = party_steps(items, as_of, t, id, c, n - 1);
        let it = item_steps(as_of - items[n - 1].transaction_date, items[n - 1].residual, c);
        lemma_steps_value_concat(pre, it, s);
    }
}

/// The totals' steps add up to the total part, within the residuals'
/// magnitude.
proof fn lemma_total_steps(items: Seq<AgedItem>, as_of: i32, c: int, n: int, s: u32)
    requires
        0 <= n <= items.len(),
        residuals_within(items, s),
    ensures
        signed_value_sum(total_steps(items, as_of, c, n)) == total_part(items, as_of, c, n),
        value_magnitude(total_steps(items, as_of, c, n)) <= residual_magnitude(items, n),
        steps_within(total_steps(items, as_of, c, n), s),
    decreases n,
{
    if n <= 0 {
        assert(total_steps(items, as_of, c, n) =~= Seq::<(bool, Amount)>::empty());
    } else {
        lemma_total_steps(items, as_of, c, n - 1, s);
        lemma_item_steps(items, as_of, n - 1, c, s);
        lemma_magnitude_grows(items, n - 1, n);
        let pre = total_steps(items, as_of, c, n - 1);
        let it = item_steps(as_of - items[n - 1].transaction_date, items[n - 1].residual, c);
        lemma_steps_value_concat(pre, it, s);
    }
}

/// Adding an item adds its part once per row of its party.
proof fn lemma_rows_part_step(items: Seq<AgedItem>, as_of: i32, rows: Seq<AgedPartyRow>, c: int, n: int, m: int)
    requires
        0 < n <= items.len(),
        0 <= m <= rows.len(),
    ensures
        rows_part(items, as_of, rows, c, n, m) == rows_part(items, as_of, rows, c, n - 1, m) + rows_of_item(
            items,
            rows,
            n - 1,
            m,
        ) * item_part(items, as_of, n - 1, c),
    decreases m,
{
    let v = item_part(items, as_of, n - 1, c);
    if m > 0 {
        lemma_rows_part_step(items, as_of, rows, c, n, m - 1);
        let k = rows_of_item(items, rows, n - 1, m - 1);
        assert((k + 1) * v == k * v + v) by (nonlinear_arith);
    } else {
        assert(0 * v == 0) by (nonlinear_arith);
    }
}

/// Rows of distinct parties hold each item's party at most once, and once
/// when its party has a row.
proof fn lemma_rows_of_item(items: Seq<AgedItem>, rows: Seq<AgedPartyRow>, i: int, m: int)
    requires
        0 <= m <= rows.len(),
        forall|a: int, b: int| 0 <= a < b < rows.len() ==> !((#[trigger] rows[a]).party_type@ == (#[trigger] rows[b]).party_type@
            && rows[a].party_id == rows[b].party_id),
    ensures
        rows_of_item(items, rows, i, m) == if (exists|j: int| 0 <= j < m && #[trigger] of_party(items, i, rows[j].party_type@, rows[j].party_id)) {
            1int
        } else {
            0int
        },
    decreases m,
{
    if m > 0 {
        lemma_rows_of_item(items, rows, i, m - 1);
        if of_party(items, i, rows[m - 1].party_type@, rows[m - 1].party_id) {
            if exists|j: int| 0 <= j < m - 1 && #[trigger] of_party(items, i, rows[j].party_type@, rows[j].party_id) {
                let j = choose|j: int| 0 <= j < m - 1 && #[trigger] of_party(items, i, rows[j].party_type@, rows[j].party_id);
                assert(rows[j].party_type@ == rows[m - 1].party_type@ && rows[j].party_id == rows[m - 1].party_id);
            }
        } else {
            if exists|j: int| 0 <= j < m && #[trigger] of_party(items, i, rows[j].party_type@, rows[j].party_id) {
                let j = choose|j: int| 0 <= j < m && #[trigger] of_party(items, i, rows[j].party_type@, rows[j].party_id);
                assert(j < m - 1);
            }
        }
    }
}

/// The rows' parts, over rows naming each item's party exactly once, add up
/// to the total part.
proof fn lemma_rows_part_total(items: Seq<AgedItem>, as_of: i32, rows: Seq<AgedPartyRow>, c: int, n: int)
    requires
        0 <= n <= items.len(),
        forall|a: int, b: int| 0 <= a < b < rows.len() ==> !((#[trigger] rows[a]).party_type@ == (#[trigger] rows[b]).party_type@
            && rows[a].party_id == rows[b].party_id),
        forall|i: int| 0 <= i < n ==> #[trigger] has_row(items, rows, i),
    ensures
        rows_part(items, as_of, rows, c, n, rows.len() as int) == total_part(items, as_of, c, n),
    decreases n,
{
    if n > 0 {
        lemma_rows_part_total(items, as_of, rows, c, n - 1);
        lemma_rows_part_step(items, as_of, rows, c, n, rows.len() as int);
        lemma_rows_of_item(items, rows, n - 1, rows.len() as int);
        assert(has_row(items, rows, n - 1));
        let v = item_part(items, as_of, n - 1, c);
        assert(1 * v == v) by (nonlinear_arith);
    } else {
        lemma_rows_part_zero(items, as_of, rows, c, rows.len() as int);
    }
}

proof fn lemma_rows_part_zero(items: Seq<AgedItem>, as_of: i32, rows: Seq<AgedPartyRow>, c: int, m: int)
    ensures
        rows_part(items, as_of, rows, c, 0, m) == 0,
    decreases m,
{
    if m > 0 {
        lemma_rows_part_zero(items, as_of, rows, c, m - 1);
    }
}

/// A party's total column is the sum of its four buckets.
proof fn lemma_party_buckets(items: Seq<AgedItem>, as_of: i32, t: Seq<char>, id: u128, n: int)
    ensures
        party_part(items, as_of, t, id, 4, n) == party_part(items, as_of, t, id, 0, n) + party_part(items, as_of, t, id, 1, n)
            + party_part(items, as_of, t, id, 2, n) + party_part(items, as_of, t, id, 3, n),
    decreases n,
{
    if n > 0 {
        lemma_party_buckets(items, as_of, t, id, n - 1);
    }
}

/// All the items' total column is the sum of their four buckets.
proof fn lemma_total_buckets(items: Seq<AgedItem>, as_of: i32, n: int)
    ensures
        total_part(items, as_of, 4, n) == total_part(items, as_of, 0, n) + total_part(items, as_of, 1, n) + total_part(
            items,
            as_of,
            2,
            n,
        ) + total_part(items, as_of, 3, n),
    decreases n,
{
    if n > 0 {
        lemma_total_buckets(items, as_of, n - 1);
    }
}

/// The rows' column sums are their parts, when each row holds its party's
/// exact running total.
proof fn lemma_rows_column(items: Seq<AgedItem>, as_of: i32, rows: Seq<AgedPartyRow>, c: int, m: int, s: u32)
    requires
        0 <= c < 5,
        0 <= m <= rows.len(),
        s <= MAX_SCALE,
        residuals_within(items, s),
        residual_magnitude(items, items.len() as int) <= value_room(s),
        rows_hold(rows, items, as_of, items.len() as int),
    ensures
        rows_column(rows, c, m) == rows_part(items, as_of, rows, c, items.len() as int, m),
    decreases m,
{
    if m > 0 {
        lemma_rows_column(items, as_of, rows, c, m - 1, s);
        let r = rows[m - 1];
        let st = party_steps(items, as_of, r.party_type@, r.party_id, c, items.len() as int);
        lemma_party_steps(items, as_of, r.party_type@, r.party_id, c, items.len() as int, s);
        lemma_running_value(st, s);
        assert(Some(row_amounts(rows[m - 1])[c]) == running(st));
    }
}

/// Each item's party has a row, when the rows' keys are the items' keys.
proof fn lemma_items_have_rows(items: Seq<AgedItem>, rows: Seq<AgedPartyRow>)
    requires
        row_keys(rows) == item_keys(items, items.len() as int),
    ensures
        forall|i: int| 0 <= i < items.len() ==> #[trigger] has_row(items, rows, i),
{
    let n = items.len() as int;
    assert forall|i: int| 0 <= i < n implies #[trigger] has_row(items, rows, i) by {
        let k = (items[i].party_type@, items[i].party_id);
        assert(item_keys(items, n).contains(k));
        assert(row_keys(rows).contains(k));
        let j = choose|j: int| 0 <= j < rows.len() && (#[trigger] rows[j]).party_type@ == k.0 && rows[j].party_id == k.1;
        assert(of_party(items, i, rows[j].party_type@, rows[j].party_id));
    }
}

/// Column `c` of the totals row is the items' part of it, and the sum of
/// that column over the rows.
proof fn lemma_totals_column(
    items: Seq<AgedItem>,
    as_of: i32,
    rows: Seq<AgedPartyRow>,
    totals: AgedPartyRow,
    c: int,
    s: u32,
)
    requires
        0 <= c < 5,
        s <= MAX_SCALE,
        residuals_within(items, s),
        residual_magnitude(items, items.len() as int) <= value_room(s),
        rows_sorted(rows),
        forall|i: int| 0 <= i < items.len() ==> #[trigger] has_row(items, rows, i),
        rows_hold(rows, items, as_of, items.len() as int),
        totals_hold(totals, items, as_of, items.len() as int),
    ensures
        row_amounts(totals)[c].value() == rows_column(rows, c, rows.len() as int),
        row_amounts(totals)[c].value() == total_part(items, as_of, c, items.len() as int),
{
    let n = items.len() as int;
    lemma_aged_parties_distinct(rows);
    lemma_total_steps(items, as_of, c, n, s);
    lemma_running_value(total_steps(items, as_of, c, n), s);
    assert(Some(row_amounts(totals)[c]) == running(total_steps(items, as_of, c, n)));
    lemma_rows_part_total(items, as_of, rows, c, n);
    lemma_rows_column(items, as_of, rows, c, rows.len() as int, s);
}

/// Column `c` of row `j` is its party's part of it.
proof fn lemma_row_column(items: Seq<AgedItem>, as_of: i32, rows: Seq<AgedPartyRow>, j: int, c: int, s: u32)
    requires
        0 <= j < rows.len(),
        0 <= c < 5,
        s <= MAX_SCALE,
        residuals_within(items, s),
        residual_magnitude(items, items.len() as int) <= value_room(s),
        rows_hold(rows, items, as_of, items.len() as int),
    ensures
        row_amounts(rows[j])[c].value() == party_part(items, as_of, rows[j].party_type@, rows[j].party_id, c, items.len() as int),
{
    let n = items.len() as int;
    let r = rows[j];
    let st = party_steps(items, as_of, r.party_type@, r.party_id, c, n);
    lemma_party_steps(items, as_of, r.party_type@, r.party_id, c, n, s);
    lemma_running_value(st, s);
    assert(Some(row_amounts(rows[j])[c]) == running(st));
}

/// Row `j`'s total is the sum of its four buckets.
proof fn lemma_row_buckets(items: Seq<AgedItem>, as_of: i32, rows: Seq<AgedPartyRow>, j: int, s: u32)
    requires
        0 <= j < rows.len(),
        s <= MAX_SCALE,
        residuals_within(items, s),
        residual_magnitude(items, items.len() as int) <= value_room(s),
        rows_hold(rows, items, as_of, items.len() as int),
    ensures
        rows[j].total.value() == rows[j].bucket_0_30.value() + rows[j].bucket_31_60.value()
            + rows[j].bucket_61_90.value() + rows[j].bucket_91_plus.value(),
{
    let r = rows[j];
    lemma_party_buckets(items, as_of, r.party_type@, r.party_id, items.len() as int);
    lemma_row_column(items, as_of, rows, j, 0, s);
    lemma_row_column(items, as_of, rows, j, 1, s);
    lemma_row_column(items, as_of, rows, j, 2, s);
    lemma_row_column(items, as_of, rows, j, 3, s);
    lemma_row_column(items, as_of, rows, j, 4, s);
    assert(row_amounts(r)[0] == r.bucket_0_30);
    assert(row_amounts(r)[1] == r.bucket_31_60);
    assert(row_amounts(r)[2] == r.bucket_61_90);
    assert(row_amounts(r)[3] == r.bucket_91_plus);
    assert(row_amounts(r)[4] == r.total);
}

/// The aged report adds up. For the rows and the totals row that
/// [`crate::reporting::aged_rows`] returns for `items`, when every residual
/// has a scale of at most `s` and their magnitudes together fit 96 bits at
/// scale `s` (so that no sum rounds): in every row, and in the totals row,
/// the total is the sum of the four age buckets as numbers; and each column
/// of the totals row is, as a number, the sum of that column over the party
/// rows.
pub proof fn lemma_aged_totals(items: Seq<AgedItem>, as_of: i32, rows: Seq<AgedPartyRow>, totals: AgedPartyRow, s: u32)
    requires
        s <= MAX_SCALE,
        residuals_within(items, s),
        residual_magnitude(items, items.len() as int) <= value_room(s),
        rows_sorted(rows),
        row_keys(rows) == item_keys(items, items.len() as int),
        rows_hold(rows, items, as_of, items.len() as int),
        totals_hold(totals, items, as_of, items.len() as int),
    ensures
        forall|c: int| 0 <= c < 5 ==> (#[trigger] row_amounts(totals)[c]).value() == rows_column(rows, c, rows.len() as int),
        totals.total.value() == totals.bucket_0_30.value() + totals.bucket_31_60.value() + totals.bucket_61_90.value()
            + totals.bucket_91_plus.value(),
        forall|j: int| 0 <= j < rows.len() ==> (#[trigger] rows[j]).total.value() == rows[j].bucket_0_30.value()
            + rows[j].bucket_31_60.value() + rows[j].bucket_61_90.value() + rows[j].bucket_91_plus.value(),
{
    let n = items.len() as int;
    lemma_items_have_rows(items, rows);
    assert forall|c: int| 0 <= c < 5 implies (#[trigger] row_amounts(totals)[c]).value() == rows_column(
        rows,
        c,
        rows.len() as int,
    ) by {
        lemma_totals_column(items, as_of, rows, totals, c, s);
    }
    lemma_totals_column(items, as_of, rows, totals, 0, s);
    lemma_totals_column(items, as_of, rows, totals, 1, s);
    lemma_totals_column(items, as_of, rows, totals, 2, s);
    lemma_totals_column(items, as_of, rows, totals, 3, s);
    lemma_totals_column(items, as_of, rows, totals, 4, s);
    lemma_total_buckets(items, as_of, n);
    assert(row_amounts(totals)[0] == totals.bucket_0_30);
    assert(row_amounts(totals)[1] == totals.bucket_31_60);
    assert(row_amounts(totals)[2] == totals.bucket_61_90);
    assert(row_amounts(totals)[3] == totals.bucket_91_plus);
    assert(row_amounts(totals)[4] == totals.total);
    assert forall|j: int| 0 <= j < rows.len() implies (#[trigger] rows[j]).total.value() == rows[j].bucket_0_30.value()
        + rows[j].bucket_31_60.value() + rows[j].bucket_61_90.value() + rows[j].bucket_91_plus.value() by {
        lemma_row_buckets(items, as_of, rows, j, s);
    }
}

} // verus!
