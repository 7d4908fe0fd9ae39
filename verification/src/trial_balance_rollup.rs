//! What the rolled-up trial balance adds up to.
//!
//! Each account of the tree carries its own detail lines plus, for every
//! detail account below it, that detail's own total. Read line by line: a
//! line counts towards an account once when it is posted to that account and
//! once for every time the account lies on the parent chain of the line's
//! account (a chain that loops back counts the account again, up to the step
//! budget of the climb). Whatever the amounts' scales, when a column is
//! small enough that nothing can round, the rolled-up amounts are, as
//! numbers, exactly these line sums.

use crate::amount::{
    abs_int, lemma_running_value, lemma_steps_value_concat, lemma_value_bound, running, signed_value_sum, steps_within,
    value_magnitude, value_room, Amount, MAX_SCALE,
};
use crate::reporting::DetailNet;
use crate::trial_balance_tree::{
    aggs_of, ancestor, chain, climb, climb_from, detail_ids, ids_unique, lemma_ancestor_none_stays, lemma_chain_ancestor,
    lemma_chain_bound, lemma_node_index_of, node_index, node_steps, occ_steps, own_steps, prop_steps, side,
    tree_sums_spec, AccountNode,
};
use vstd::prelude::*;

verus! {

/// How many times `x` occurs in `path`.
pub open spec fn occurrences(path: Seq<u128>, x: u128) -> int
    decreases path.len(),
{
    if path.len() == 0 {
        0
    } else {
        occurrences(path.drop_last(), x) + if path.last() == x {
            1int
        } else {
            0int
        }
    }
}

/// How many times a line posted to `acct` reaches account `x`: once when it
/// is posted to `x` itself, and once per time `x` lies on the climb from
/// `acct`.
pub open spec fn reach(dir: Seq<AccountNode>, x: u128, acct: u128) -> int {
    (if acct == x {
        1int
    } else {
        0int
    }) + occurrences(climb(dir, acct), x)
}

/// The value of column `c` of a line.
pub open spec fn val(c: int) -> spec_fn(DetailNet) -> int {
    |l: DetailNet| side(l, c).value()
}

/// The magnitude of the value of column `c` of a line.
pub open spec fn mag(c: int) -> spec_fn(DetailNet) -> int {
    |l: DetailNet| abs_int(side(l, c).value())
}

/// Column `c` of the lines, each line weighted by how many times it reaches
/// `x`.
pub open spec fn reached_sum(dir: Seq<AccountNode>, lines: Seq<DetailNet>, x: u128, c: int) -> int
    decreases lines.len(),
{
    if lines.len() == 0 {
        0
    } else {
        reached_sum(dir, lines.drop_last(), x, c) + reach(dir, x, lines.last().account_id) * side(
            lines.last(),
            c,
        ).value()
    }
}

/// `f` summed over the lines posted to `id`.
pub open spec fn own_total(lines: Seq<DetailNet>, id: u128, f: spec_fn(DetailNet) -> int) -> int
    decreases lines.len(),
{
    if lines.len() == 0 {
        0
    } else {
        own_total(lines.drop_last(), id, f) + if lines.last().account_id == id {
            f(lines.last())
        } else {
            0
        }
    }
}

/// `f` summed over all the lines.
pub open spec fn all_total(lines: Seq<DetailNet>, f: spec_fn(DetailNet) -> int) -> int
    decreases lines.len(),
{
    if lines.len() == 0 {
        0
    } else {
        all_total(lines.drop_last(), f) + f(lines.last())
    }
}

/// `f` summed over the lines, each weighted by how often `x` lies on the
/// climb from the line's account.
pub open spec fn climbed_total(dir: Seq<AccountNode>, lines: Seq<DetailNet>, x: u128, f: spec_fn(DetailNet) -> int) -> int
    decreases lines.len(),
{
    if lines.len() == 0 {
        0
    } else {
        climbed_total(dir, lines.drop_last(), x, f) + occurrences(climb(dir, lines.last().account_id), x) * f(
            lines.last(),
        )
    }
}

/// The same, grouped by detail account: the first `n` accounts of `ds`, each
/// with its own total weighted by how often `x` lies on its climb.
pub open spec fn grouped_total(
    dir: Seq<AccountNode>,
    lines: Seq<DetailNet>,
    ds: Seq<u128>,
    x: u128,
    f: spec_fn(DetailNet) -> int,
    n: int,
) -> int
    decreases n,
{
    if n <= 0 {
        0
    } else {
        grouped_total(dir, lines, ds, x, f, n - 1) + occurrences(climb(dir, ds[n - 1]), x) * own_total(
            lines,
            ds[n - 1],
            f,
        )
    }
}

/// How many of the first `n` entries of `ds` are `a`.
pub open spec fn count_in(ds: Seq<u128>, a: u128, n: int) -> int
    decreases n,
{
    if n <= 0 {
        0
    } else {
        count_in(ds, a, n - 1) + if ds[n - 1] == a {
            1int
        } else {
            0int
        }
    }
}

/// Every amount of column `c` is inside the 96-bit range, with a scale of at
/// most `s`.
pub open spec fn column_within(lines: Seq<DetailNet>, c: int, s: u32) -> bool {
    forall|i: int| 0 <= i < lines.len() ==> (#[trigger] side(lines[i], c)).wf() && side(lines[i], c).scale <= s
}

/// The steps of an account's own lines add up to its own total of the
/// column, have its own total of magnitudes, and are of the column's scale.
proof fn lemma_own_steps(lines: Seq<DetailNet>, id: u128, c: int, s: u32)
    requires
        column_within(lines, c, s),
    ensures
        signed_value_sum(own_steps(lines, id, c)) == own_total(lines, id, val(c)),
        value_magnitude(own_steps(lines, id, c)) == own_total(lines, id, mag(c)),
        steps_within(own_steps(lines, id, c), s),
    decreases lines.len(),
{
    if lines.len() > 0 {
        let p = lines.drop_last();
        assert(column_within(p, c, s)) by {
            assert forall|i: int| 0 <= i < p.len() implies (#[trigger] side(p[i], c)).wf() && side(p[i], c).scale <= s by {
                assert(p[i] == lines[i]);
            }
        }
        lemma_own_steps(p, id, c, s);
        let l = lines.last();
        assert(side(lines[lines.len() - 1], c).wf());
        let st = own_steps(lines, id, c);
        let sp = own_steps(p, id, c);
        if l.account_id == id {
            assert(st == sp.push((false, side(l, c))));
            assert(st.drop_last() =~= sp);
            assert forall|i: int| 0 <= i < st.len() implies (#[trigger] st[i]).1.wf() && st[i].1.scale <= s by {
                if i < sp.len() {
                    assert(st[i] == sp[i]);
                }
            }
        }
    }
}

/// An own total of magnitudes is at most the column's total magnitude, and
/// not negative.
proof fn lemma_own_total_bound(lines: Seq<DetailNet>, id: u128, c: int)
    ensures
        0 <= own_total(lines, id, mag(c)) <= all_total(lines, mag(c)),
    decreases lines.len(),
{
    if lines.len() > 0 {
        lemma_own_total_bound(lines.drop_last(), id, c);
    }
}

/// The steps `x` receives from one climb: the amount once per occurrence.
proof fn lemma_occ_steps(path: Seq<u128>, x: u128, a: Amount, s: u32)
    requires
        a.wf(),
        a.scale <= s,
    ensures
        signed_value_sum(occ_steps(path, x, a)) == occurrences(path, x) * a.value(),
        value_magnitude(occ_steps(path, x, a)) == occurrences(path, x) * abs_int(a.value()),
        steps_within(occ_steps(path, x, a), s),
        occurrences(path, x) >= 0,
    decreases path.len(),
{
    if path.len() > 0 {
        let p = path.drop_last();
        lemma_occ_steps(p, x, a, s);
        let st = occ_steps(path, x, a);
        let sp = occ_steps(p, x, a);
        let o = occurrences(p, x);
        let m = a.value();
        let am = abs_int(a.value());
        if path.last() == x {
            assert(st.drop_last() =~= sp);
            assert((o + 1) * m == o * m + m) by (nonlinear_arith);
            assert((o + 1) * am == o * am + am) by (nonlinear_arith);
            assert forall|i: int| 0 <= i < st.len() implies (#[trigger] st[i]).1.wf() && st[i].1.scale <= s by {
                if i < sp.len() {
                    assert(st[i] == sp[i]);
                }
            }
        }
    }
}

/// What the details propagate to `x`, when each detail's sum is exactly its
/// own total: the grouped total of the column, within the grouped total of
/// the magnitudes, within the scale bound.
proof fn lemma_prop_steps(
    dir: Seq<AccountNode>,
    lines: Seq<DetailNet>,
    ds: Seq<u128>,
    aggs: Seq<Amount>,
    x: u128,
    c: int,
    s: u32,
    n: int,
)
    requires
        0 <= n <= ds.len(),
        n <= aggs.len(),
        forall|i: int| 0 <= i < n ==> (#[trigger] aggs[i]).wf() && aggs[i].scale <= s,
        forall|i: int| 0 <= i < n ==> (#[trigger] aggs[i]).value() == own_total(lines, ds[i], val(c)),
        forall|i: int| 0 <= i < n ==> own_total(lines, ds[i], mag(c)) >= abs_int((#[trigger] aggs[i]).value()),
    ensures
        signed_value_sum(prop_steps(dir, ds, aggs, x, n)) == grouped_total(dir, lines, ds, x, val(c), n),
        value_magnitude(prop_steps(dir, ds, aggs, x, n)) <= grouped_total(dir, lines, ds, x, mag(c), n),
        steps_within(prop_steps(dir, ds, aggs, x, n), s),
    decreases n,
{
    if n <= 0 {
        assert(prop_steps(dir, ds, aggs, x, n) =~= Seq::<(bool, Amount)>::empty());
    } else {
        lemma_prop_steps(dir, lines, ds, aggs, x, c, s, n - 1);
        let a = aggs[n - 1];
        let path = climb(dir, ds[n - 1]);
        lemma_occ_steps(path, x, a, s);
        let pre = prop_steps(dir, ds, aggs, x, n - 1);
        let occ = occ_steps(path, x, a);
        lemma_steps_value_concat(pre, occ, s);
        let o = occurrences(path, x);
        let am = abs_int(a.value());
        let om = own_total(lines, ds[n - 1], mag(c));
        assert(o * am <= o * om) by (nonlinear_arith)
            requires
                o >= 0,
                am <= om,
        ;
    }
}

/// The detail accounts are distinct, and are exactly the lines' accounts.
proof fn lemma_detail_ids(lines: Seq<DetailNet>)
    ensures
        forall|i: int, j: int| 0 <= i < j < detail_ids(lines).len() ==> detail_ids(lines)[i] != detail_ids(lines)[j],
        forall|a: u128| detail_ids(lines).contains(a) <==> exists|i: int| 0 <= i < lines.len() && (#[trigger] lines[i]).account_id == a,
    decreases lines.len(),
{
    if lines.len() > 0 {
        let p = lines.drop_last();
        lemma_detail_ids(p);
        let dp = detail_ids(p);
        let d = detail_ids(lines);
        let a = lines.last().account_id;
        assert forall|b: u128| d.contains(b) <==> exists|i: int| 0 <= i < lines.len() && (#[trigger] lines[i]).account_id == b by {
            if d.contains(b) {
                if dp.contains(b) {
                    let i = choose|i: int| 0 <= i < p.len() && (#[trigger] p[i]).account_id == b;
                    assert(lines[i] == p[i]);
                } else {
                    assert(b == a);
                    assert(lines[lines.len() - 1].account_id == b);
                }
            }
            if exists|i: int| 0 <= i < lines.len() && (#[trigger] lines[i]).account_id == b {
                let i = choose|i: int| 0 <= i < lines.len() && (#[trigger] lines[i]).account_id == b;
                if i < p.len() {
                    assert(p[i] == lines[i]);
                    assert(dp.contains(b));
                    if !dp.contains(a) {
                        assert(d == dp.push(a));
                        let k = choose|k: int| 0 <= k < dp.len() && dp[k] == b;
                        assert(d[k] == b);
                    }
                } else {
                    if !dp.contains(a) {
                        assert(d == dp.push(a));
                        assert(d[dp.len() as int] == a);
                    }
                }
            }
        }
    }
}

/// An account no line is posted to has no own total.
proof fn lemma_own_total_absent(lines: Seq<DetailNet>, a: u128, f: spec_fn(DetailNet) -> int)
    requires
        forall|i: int| 0 <= i < lines.len() ==> (#[trigger] lines[i]).account_id != a,
    ensures
        own_total(lines, a, f) == 0,
    decreases lines.len(),
{
    if lines.len() > 0 {
        let p = lines.drop_last();
        assert forall|i: int| 0 <= i < p.len() implies (#[trigger] p[i]).account_id != a by {
            assert(p[i] == lines[i]);
        }
        lemma_own_total_absent(p, a, f);
        assert(lines[lines.len() - 1].account_id != a);
    }
}

/// In a sequence without repeats, a value occurs once if it occurs at all.
proof fn lemma_count_distinct(ds: Seq<u128>, a: u128, n: int)
    requires
        0 <= n <= ds.len(),
        forall|i: int, j: int| 0 <= i < j < ds.len() ==> ds[i] != ds[j],
    ensures
        count_in(ds, a, n) == if (exists|i: int| 0 <= i < n && ds[i] == a) {
            1int
        } else {
            0int
        },
    decreases n,
{
    if n > 0 {
        lemma_count_distinct(ds, a, n - 1);
        if ds[n - 1] == a {
            assert(!(exists|i: int| 0 <= i < n - 1 && ds[i] == a));
        }
    }
}

/// Grouped totals over sequences that agree on their first `n` entries are
/// equal.
proof fn lemma_grouped_prefix(
    dir: Seq<AccountNode>,
    lines: Seq<DetailNet>,
    d1: Seq<u128>,
    d2: Seq<u128>,
    x: u128,
    f: spec_fn(DetailNet) -> int,
    n: int,
)
    requires
        0 <= n <= d1.len(),
        n <= d2.len(),
        forall|i: int| 0 <= i < n ==> d1[i] == d2[i],
    ensures
        grouped_total(dir, lines, d1, x, f, n) == grouped_total(dir, lines, d2, x, f, n),
    decreases n,
{
    if n > 0 {
        lemma_grouped_prefix(dir, lines, d1, d2, x, f, n - 1);
    }
}

/// Adding a last line to the lines adds, in the grouped total, its value
/// weighted by its account's climb once per entry of that account.
proof fn lemma_grouped_last(
    dir: Seq<AccountNode>,
    lines: Seq<DetailNet>,
    ds: Seq<u128>,
    x: u128,
    f: spec_fn(DetailNet) -> int,
    n: int,
)
    requires
        lines.len() > 0,
        0 <= n <= ds.len(),
    ensures
        grouped_total(dir, lines, ds, x, f, n) == grouped_total(dir, lines.drop_last(), ds, x, f, n) + count_in(
            ds,
            lines.last().account_id,
            n,
        ) * occurrences(climb(dir, lines.last().account_id), x) * f(lines.last()),
    decreases n,
{
    if n > 0 {
        lemma_grouped_last(dir, lines, ds, x, f, n - 1);
        let a = lines.last().account_id;
        let w = occurrences(climb(dir, a), x);
        let v = f(lines.last());
        let o = occurrences(climb(dir, ds[n - 1]), x);
        let own = own_total(lines, ds[n - 1], f);
        let own_p = own_total(lines.drop_last(), ds[n - 1], f);
        let k = count_in(ds, a, n - 1);
        let g = grouped_total(dir, lines, ds, x, f, n - 1);
        let gp = grouped_total(dir, lines.drop_last(), ds, x, f, n - 1);
        assert(g == gp + k * w * v);
        assert(grouped_total(dir, lines, ds, x, f, n) == g + o * own);
        assert(grouped_total(dir, lines.drop_last(), ds, x, f, n) == gp + o * own_p);
        if ds[n - 1] == a {
            assert(own == own_p + v);
            assert(o == w);
            assert(count_in(ds, a, n) == k + 1);
            assert(o * own == o * own_p + w * v) by (nonlinear_arith)
                requires
                    own == own_p + v,
                    o == w,
            ;
            assert((k + 1) * w * v == k * w * v + w * v) by (nonlinear_arith);
        } else {
            assert(own == own_p);
            assert(count_in(ds, a, n) == k);
        }
    } else {
        let w = occurrences(climb(dir, lines.last().account_id), x);
        let v = f(lines.last());
        assert(count_in(ds, lines.last().account_id, n) == 0);
        assert(0 * w * v == 0) by (nonlinear_arith);
    }
}

/// Grouping the lines by detail account does not change the weighted total.
proof fn lemma_grouped_is_climbed(dir: Seq<AccountNode>, lines: Seq<DetailNet>, x: u128, f: spec_fn(DetailNet) -> int)
    ensures
        grouped_total(dir, lines, detail_ids(lines), x, f, detail_ids(lines).len() as int) == climbed_total(
            dir,
            lines,
            x,
            f,
        ),
    decreases lines.len(),
{
    if lines.len() > 0 {
        let p = lines.drop_last();
        let l = lines.last();
        let a = l.account_id;
        let dp = detail_ids(p);
        let d = detail_ids(lines);
        let w = occurrences(climb(dir, a), x);
        lemma_grouped_is_climbed(dir, p, x, f);
        lemma_detail_ids(p);
        lemma_grouped_last(dir, lines, dp, x, f, dp.len() as int);
        lemma_count_distinct(dp, a, dp.len() as int);
        if dp.contains(a) {
            assert(d == dp);
            let i = choose|i: int| 0 <= i < dp.len() && dp[i] == a;
            assert(exists|i: int| 0 <= i < dp.len() && dp[i] == a);
            assert(1 * w * f(l) == w * f(l)) by (nonlinear_arith);
        } else {
            assert(d == dp.push(a));
            assert(!(exists|i: int| 0 <= i < dp.len() && dp[i] == a));
            lemma_grouped_prefix(dir, lines, d, dp, x, f, dp.len() as int);
            assert forall|i: int| 0 <= i < p.len() implies (#[trigger] p[i]).account_id != a by {
                if p[i].account_id == a {
                    assert(dp.contains(a));
                }
            }
            lemma_own_total_absent(p, a, f);
            assert(own_total(lines, a, f) == f(l));
            assert(d[dp.len() as int] == a);
            assert(0 * w * f(l) == 0) by (nonlinear_arith);
        }
    }
}

/// A line reaches `x` by being posted to it, or by climbing through it.
proof fn lemma_reached_split(dir: Seq<AccountNode>, lines: Seq<DetailNet>, x: u128, c: int)
    ensures
        reached_sum(dir, lines, x, c) == own_total(lines, x, val(c)) + climbed_total(dir, lines, x, val(c)),
    decreases lines.len(),
{
    if lines.len() > 0 {
        lemma_reached_split(dir, lines.drop_last(), x, c);
        let l = lines.last();
        let b: int = if l.account_id == x { 1 } else { 0 };
        let o = occurrences(climb(dir, l.account_id), x);
        let m = side(l, c).value();
        assert((b + o) * m == b * m + o * m) by (nonlinear_arith);
        assert(val(c)(l) == m);
    }
}

/// A value occurs in a path at most as often as the path is long.
proof fn lemma_occurrences_bound(path: Seq<u128>, x: u128)
    ensures
        0 <= occurrences(path, x) <= path.len(),
    decreases path.len(),
{
    if path.len() > 0 {
        lemma_occurrences_bound(path.drop_last(), x);
    }
}

/// A climb takes at most its step budget.
proof fn lemma_climb_from_len(dir: Seq<AccountNode>, cur: Option<u128>, steps: nat)
    ensures
        climb_from(dir, cur, steps).len() <= steps,
    decreases steps,
{
    if steps > 0 {
        if let Some(pid) = cur {
            if let Some(k) = node_index(dir, pid, dir.len() as int) {
                lemma_climb_from_len(dir, dir[k].parent_id, (steps - 1) as nat);
            }
        }
    }
}

/// Climbing weighs a line's magnitude at most one more time than the
/// directory has accounts.
proof fn lemma_climbed_bound(dir: Seq<AccountNode>, lines: Seq<DetailNet>, x: u128, c: int)
    ensures
        0 <= climbed_total(dir, lines, x, mag(c)) <= (dir.len() + 1) * all_total(lines, mag(c)),
        0 <= all_total(lines, mag(c)),
    decreases lines.len(),
{
    if lines.len() > 0 {
        let p = lines.drop_last();
        let l = lines.last();
        lemma_climbed_bound(dir, p, x, c);
        let path = climb(dir, l.account_id);
        lemma_occurrences_bound(path, x);
        let start = match node_index(dir, l.account_id, dir.len() as int) {
            Some(k) => dir[k].parent_id,
            None => None,
        };
        lemma_climb_from_len(dir, start, (dir.len() + 1) as nat);
        let o = occurrences(path, x);
        let v = mag(c)(l);
        let n1 = dir.len() + 1;
        let ct = climbed_total(dir, p, x, mag(c));
        let at = all_total(p, mag(c));
        assert(v >= 0);
        assert(0 <= o * v <= n1 * v) by (nonlinear_arith)
            requires
                0 <= o <= n1,
                v >= 0,
        ;
        assert(n1 * (at + v) == n1 * at + n1 * v) by (nonlinear_arith);
    }
}

/// One column of the rollup: every detail's own sum and every account's
/// rolled-up sum are exact, the latter being the lines reaching it.
proof fn lemma_rollup_column(dir: Seq<AccountNode>, lines: Seq<DetailNet>, c: int, s: u32)
    requires
        s <= MAX_SCALE,
        column_within(lines, c, s),
        (dir.len() + 2) * all_total(lines, mag(c)) <= value_room(s),
    ensures
        forall|i: int| 0 <= i < detail_ids(lines).len() ==> running(#[trigger] own_steps(lines, detail_ids(lines)[i], c)) is Some,
        forall|x: u128| (#[trigger] running(node_steps(dir, lines, x, c))) matches Some(t) && t.value() == reached_sum(dir, lines, x, c),
{
    let ds = detail_ids(lines);
    let aggs = aggs_of(lines, ds, c);
    let total = all_total(lines, mag(c));
    lemma_climbed_bound(dir, lines, 0, c);
    assert(total <= (dir.len() + 2) * total) by (nonlinear_arith)
        requires
            total >= 0,
    ;
    assert forall|i: int| 0 <= i < ds.len() implies {
        &&& running(#[trigger] own_steps(lines, ds[i], c)) is Some
        &&& aggs[i].wf()
        &&& aggs[i].scale <= s
        &&& aggs[i].value() == own_total(lines, ds[i], val(c))
        &&& own_total(lines, ds[i], mag(c)) >= abs_int(aggs[i].value())
    } by {
        let st = own_steps(lines, ds[i], c);
        lemma_own_steps(lines, ds[i], c, s);
        lemma_own_total_bound(lines, ds[i], c);
        lemma_running_value(st, s);
        lemma_value_bound(st);
    }
    assert forall|x: u128| (#[trigger] running(node_steps(dir, lines, x, c))) matches Some(t) && t.value()
        == reached_sum(dir, lines, x, c) by {
        let own = own_steps(lines, x, c);
        let prop = prop_steps(dir, ds, aggs, x, ds.len() as int);
        lemma_own_steps(lines, x, c, s);
        lemma_own_total_bound(lines, x, c);
        lemma_prop_steps(dir, lines, ds, aggs, x, c, s, ds.len() as int);
        lemma_steps_value_concat(own, prop, s);
        lemma_grouped_is_climbed(dir, lines, x, val(c));
        lemma_grouped_is_climbed(dir, lines, x, mag(c));
        lemma_climbed_bound(dir, lines, x, c);
        lemma_reached_split(dir, lines, x, c);
        assert((dir.len() + 1) * total + total == (dir.len() + 2) * total) by (nonlinear_arith);
        assert(node_steps(dir, lines, x, c) == own + prop);
        lemma_running_value(own + prop, s);
    }
}

/// The rolled-up trial balance adds up. When each column's amounts have a
/// scale of at most `s` and the column is small enough (its total magnitude,
/// times two more than the number of accounts, fits 96 bits at scale `s`), the
/// rollup does not overflow, and each account's rolled-up debit (credit) is,
/// as a number, the sum of the debits (credits) of the lines, each counted once when
/// posted to the account and once per time the account lies on the line
/// account's parent chain.
pub proof fn lemma_rollup_sums(dir: Seq<AccountNode>, lines: Seq<DetailNet>, s: u32)
    requires
        s <= MAX_SCALE,
        column_within(lines, 0, s),
        column_within(lines, 1, s),
        (dir.len() + 2) * all_total(lines, mag(0)) <= value_room(s),
        (dir.len() + 2) * all_total(lines, mag(1)) <= value_room(s),
    ensures
        tree_sums_spec(dir, lines) matches Some(sums) && sums.len() == dir.len() && forall|k: int|
            0 <= k < dir.len() ==> (#[trigger] sums[k]).0.value() == reached_sum(dir, lines, dir[k].id, 0)
                && sums[k].1.value() == reached_sum(dir, lines, dir[k].id, 1),
{
    lemma_rollup_column(dir, lines, 0, s);
    lemma_rollup_column(dir, lines, 1, s);
    let ds = detail_ids(lines);
    assert(!exists|i: int, c: int| 0 <= i < ds.len() && 0 <= c < 2 && running(#[trigger] own_steps(lines, ds[i], c)) is None) by {
        assert forall|i: int, c: int| 0 <= i < ds.len() && 0 <= c < 2 implies running(#[trigger] own_steps(lines, ds[i], c)) is Some by {
            if c == 0 {
                assert(running(own_steps(lines, ds[i], 0)) is Some);
            } else {
                assert(running(own_steps(lines, ds[i], 1)) is Some);
            }
        }
    }
    assert(!exists|k: int, c: int| 0 <= k < dir.len() && 0 <= c < 2 && running(#[trigger] node_steps(dir, lines, dir[k].id, c)) is None) by {
        assert forall|k: int, c: int| 0 <= k < dir.len() && 0 <= c < 2 implies running(#[trigger] node_steps(dir, lines, dir[k].id, c)) is Some by {
            if c == 0 {
                assert(running(node_steps(dir, lines, dir[k].id, 0)) is Some);
            } else {
                assert(running(node_steps(dir, lines, dir[k].id, 1)) is Some);
            }
        }
    }
    let sums = Seq::new(dir.len(), |k: int| (running(node_steps(dir, lines, dir[k].id, 0)).unwrap(), running(node_steps(dir, lines, dir[k].id, 1)).unwrap()));
    assert(tree_sums_spec(dir, lines) == Some(sums));
    assert forall|k: int| 0 <= k < dir.len() implies (#[trigger] sums[k]).0.value() == reached_sum(dir, lines, dir[k].id, 0)
        && sums[k].1.value() == reached_sum(dir, lines, dir[k].id, 1) by {
        assert(running(node_steps(dir, lines, dir[k].id, 0)) is Some);
        assert(running(node_steps(dir, lines, dir[k].id, 1)) is Some);
    }
}

/// The ids of the first `j` accounts of `path`, the last of them first.
pub open spec fn ids_down(dir: Seq<AccountNode>, path: Seq<int>, j: int) -> Seq<u128>
    decreases j,
{
    if j <= 0 {
        Seq::empty()
    } else {
        seq![dir[path[j - 1]].id] + ids_down(dir, path, j - 1)
    }
}

/// Account `x` is account `b` or one of its ancestors.
pub open spec fn on_chain(dir: Seq<AccountNode>, x: int, b: int) -> bool {
    exists|i: nat| ancestor(dir, b, i) == Some(x)
}

/// Every account hangs from a root (an account without a parent) by a chain
/// of distinct accounts: the parent links have no cycle, and every parent is
/// an account of the directory.
pub open spec fn rooted(dir: Seq<AccountNode>) -> bool {
    forall|b: int| 0 <= b < dir.len() ==> #[trigger] hangs(dir, b)
}

/// Account `b` hangs from a root by a chain of distinct accounts.
pub open spec fn hangs(dir: Seq<AccountNode>, b: int) -> bool {
    exists|path: Seq<int>| #[trigger] chain(dir, path) && path.last() == b
}

/// Every line is posted to an account of the directory.
pub open spec fn lines_in_dir(dir: Seq<AccountNode>, lines: Seq<DetailNet>) -> bool {
    forall|i: int| 0 <= i < lines.len() ==> node_index(dir, (#[trigger] lines[i]).account_id, dir.len() as int) is Some
}

/// Column `c` of the lines posted to account `x` or to one of its
/// descendants.
pub open spec fn chain_sum(dir: Seq<AccountNode>, lines: Seq<DetailNet>, x: int, c: int) -> int
    decreases lines.len(),
{
    if lines.len() == 0 {
        0
    } else {
        chain_sum(dir, lines.drop_last(), x, c) + if on_chain(
            dir,
            x,
            node_index(dir, lines.last().account_id, dir.len() as int).unwrap(),
        ) {
            side(lines.last(), c).value()
        } else {
            0
        }
    }
}

proof fn lemma_occ_prepend(a: u128, r: Seq<u128>, x: u128)
    ensures
        occurrences(seq![a] + r, x) == (if a == x {
            1int
        } else {
            0int
        }) + occurrences(r, x),
    decreases r.len(),
{
    if r.len() > 0 {
        lemma_occ_prepend(a, r.drop_last(), x);
        assert((seq![a] + r).drop_last() =~= seq![a] + r.drop_last());
        assert((seq![a] + r).last() == r.last());
    } else {
        let one = seq![a];
        assert(one + r =~= one);
        assert(one.drop_last() =~= Seq::<u128>::empty());
        assert(one.last() == a);
        assert(occurrences(one.drop_last(), x) == 0);
        assert(occurrences(r, x) == 0);
        assert(occurrences(one, x) == occurrences(one.drop_last(), x) + if one.last() == x {
            1int
        } else {
            0int
        });
    }
}

/// Climbing from an account of a chain passes its ancestors on the chain,
/// nearest first, and stops at the root.
proof fn lemma_climb_chain(dir: Seq<AccountNode>, path: Seq<int>, j: int, steps: nat)
    requires
        ids_unique(dir),
        chain(dir, path),
        0 <= j < path.len(),
        steps >= j,
    ensures
        climb_from(dir, dir[path[j]].parent_id, steps) == ids_down(dir, path, j),
    decreases j,
{
    if j == 0 {
        assert(dir[path[0]].parent_id is None);
    } else {
        assert(dir[path[j]].parent_id == Some(dir[path[j - 1]].id));
        lemma_node_index_of(dir, path[j - 1], dir.len() as int);
        lemma_climb_chain(dir, path, j - 1, (steps - 1) as nat);
    }
}

proof fn lemma_occ_ids_down(dir: Seq<AccountNode>, path: Seq<int>, j: int, x: int)
    requires
        ids_unique(dir),
        chain(dir, path),
        0 <= j <= path.len(),
        0 <= x < dir.len(),
    ensures
        occurrences(ids_down(dir, path, j), dir[x].id) == if exists|t: int| 0 <= t < j && path[t] == x {
            1int
        } else {
            0int
        },
    decreases j,
{
    if j > 0 {
        lemma_occ_ids_down(dir, path, j - 1, x);
        lemma_occ_prepend(dir[path[j - 1]].id, ids_down(dir, path, j - 1), dir[x].id);
        assert(0 <= path[j - 1] < dir.len());
        if path[j - 1] == x {
            if exists|t: int| 0 <= t < j - 1 && path[t] == x {
                let t = choose|t: int| 0 <= t < j - 1 && path[t] == x;
                assert(path[t] == path[j - 1]);
            }
        } else {
            assert(dir[path[j - 1]].id != dir[x].id);
            if exists|t: int| 0 <= t < j && path[t] == x {
                let t = choose|t: int| 0 <= t < j && path[t] == x;
                assert(t < j - 1);
            }
        }
    }
}

proof fn lemma_node_index_found(dir: Seq<AccountNode>, id: u128, n: int)
    requires
        0 <= n <= dir.len(),
    ensures
        node_index(dir, id, n) matches Some(b) ==> 0 <= b < n && dir[b].id == id,
    decreases n,
{
    if n > 0 {
        lemma_node_index_found(dir, id, n - 1);
    }
}

/// In a rooted directory a line on account `b` reaches account `x` once when
/// `x` is `b` or an ancestor of `b`, and not at all otherwise.
proof fn lemma_reach_rooted(dir: Seq<AccountNode>, x: int, b: int)
    requires
        ids_unique(dir),
        rooted(dir),
        0 <= x < dir.len(),
        0 <= b < dir.len(),
    ensures
        reach(dir, dir[x].id, dir[b].id) == if on_chain(dir, x, b) {
            1int
        } else {
            0int
        },
{
    assert(hangs(dir, b));
    let path = choose|path: Seq<int>| #[trigger] chain(dir, path) && path.last() == b;
    let n = path.len() as int;
    lemma_chain_bound(dir, path);
    lemma_node_index_of(dir, b, dir.len() as int);
    assert(path[n - 1] == b);
    lemma_climb_chain(dir, path, n - 1, (dir.len() + 1) as nat);
    assert(climb(dir, dir[b].id) == ids_down(dir, path, n - 1));
    lemma_occ_ids_down(dir, path, n - 1, x);
    if on_chain(dir, x, b) {
        let i = choose|i: nat| ancestor(dir, b, i) == Some(x);
        if i < n {
            lemma_chain_ancestor(dir, path, i as int);
        } else {
            lemma_chain_ancestor(dir, path, n);
            lemma_ancestor_none_stays(dir, b, n as nat, i);
        }
        assert(exists|t: int| 0 <= t < n && path[t] == x);
    }
    if exists|t: int| 0 <= t < n && path[t] == x {
        let t = choose|t: int| 0 <= t < n && path[t] == x;
        lemma_chain_ancestor(dir, path, n - 1 - t);
        assert(ancestor(dir, b, (n - 1 - t) as nat) == Some(x));
        assert(on_chain(dir, x, b));
    }
    if b == x {
        if exists|t: int| 0 <= t < n - 1 && path[t] == x {
            let t = choose|t: int| 0 <= t < n - 1 && path[t] == x;
            assert(path[t] == path[n - 1]);
        }
    } else {
        assert(dir[b].id != dir[x].id);
        if exists|t: int| 0 <= t < n && path[t] == x {
            let t = choose|t: int| 0 <= t < n && path[t] == x;
            assert(t != n - 1);
        }
    }
}

proof fn lemma_reached_is_chain_sum(dir: Seq<AccountNode>, lines: Seq<DetailNet>, x: int, c: int)
    requires
        ids_unique(dir),
        rooted(dir),
        lines_in_dir(dir, lines),
        0 <= x < dir.len(),
    ensures
        reached_sum(dir, lines, dir[x].id, c) == chain_sum(dir, lines, x, c),
    decreases lines.len(),
{
    if lines.len() > 0 {
        let init = lines.drop_last();
        assert(lines_in_dir(dir, init)) by {
            assert forall|i: int| 0 <= i < init.len() implies node_index(
                dir,
                (#[trigger] init[i]).account_id,
                dir.len() as int,
            ) is Some by {
                assert(init[i] == lines[i]);
            }
        }
        lemma_reached_is_chain_sum(dir, init, x, c);
        let l = lines.last();
        assert(l == lines[lines.len() - 1]);
        lemma_node_index_found(dir, l.account_id, dir.len() as int);
        let b = node_index(dir, l.account_id, dir.len() as int).unwrap();
        lemma_reach_rooted(dir, x, b);
        let v = side(l, c).value();
        let w = reach(dir, dir[x].id, l.account_id);
        assert(w == 1 || w == 0);
        assert(w * v == if w == 1 { v } else { 0 }) by (nonlinear_arith)
            requires
                w == 1 || w == 0,
        ;
    }
}

/// The rolled-up trial balance sums descendants. In a directory with unique
/// ids whose accounts all hang from a root (no cycle, every parent an
/// account), with every line posted to an account of it and the columns
/// small enough as for [`lemma_rollup_sums`], each account's rolled-up debit
/// (credit) is, as a number, the sum of the debits (credits) of the lines
/// posted to it or to one of its descendants.
pub proof fn lemma_rollup_descendants(dir: Seq<AccountNode>, lines: Seq<DetailNet>, s: u32)
    requires
        ids_unique(dir),
        rooted(dir),
        lines_in_dir(dir, lines),
        s <= MAX_SCALE,
        column_within(lines, 0, s),
        column_within(lines, 1, s),
        (dir.len() + 2) * all_total(lines, mag(0)) <= value_room(s),
        (dir.len() + 2) * all_total(lines, mag(1)) <= value_room(s),
    ensures
        tree_sums_spec(dir, lines) matches Some(sums) && sums.len() == dir.len() && forall|k: int|
            0 <= k < dir.len() ==> (#[trigger] sums[k]).0.value() == chain_sum(dir, lines, k, 0)
                && sums[k].1.value() == chain_sum(dir, lines, k, 1),
{
    lemma_rollup_sums(dir, lines, s);
    let sums = tree_sums_spec(dir, lines).unwrap();
    assert forall|k: int| 0 <= k < dir.len() implies (#[trigger] sums[k]).0.value() == chain_sum(dir, lines, k, 0)
        && sums[k].1.value() == chain_sum(dir, lines, k, 1) by {
        lemma_reached_is_chain_sum(dir, lines, k, 0);
        lemma_reached_is_chain_sum(dir, lines, k, 1);
    }
}

} // verus!
