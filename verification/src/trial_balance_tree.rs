//! The rolled-up trial-balance tree: the chart from the account directory,
//! each node with the net debit and credit of its own detail lines plus those
//! of its descendants.
//!
//! Children are ordered by account number (ties keep directory order), and a
//! node without activity and without kept children is left out. A detail's
//! sums climb its parent chain for at most one step more than the directory
//! has accounts, so a parent cycle in the data cannot hang the report, and the
//! climb stops at a parent missing from the directory.

use crate::amount::{running, running_total, Amount};
use crate::reporting::{text_less, text_lt, DetailNet};
use vstd::prelude::*;

verus! {

/// One account of the directory, as the tree needs it.
#[derive(Debug, Clone)]
pub struct AccountNode {
    pub id: u128,
    pub parent_id: Option<u128>,
    pub account_number: String,
    pub name: String,
    pub account_type: String,
    pub level: i32,
    pub is_header: bool,
}

/// One node of the rolled-up tree.
#[derive(Debug)]
pub struct TrialBalanceNode {
    pub account_number: String,
    pub name: String,
    pub account_type: String,
    pub level: i32,
    pub is_header: bool,
    pub debit: Amount,
    pub credit: Amount,
    pub children: Vec<TrialBalanceNode>,
}

/// No two accounts share an id.
pub open spec fn ids_unique(dir: Seq<AccountNode>) -> bool {
    forall|a: int, b: int| 0 <= a < dir.len() && 0 <= b < dir.len() && a != b ==> (#[trigger] dir[a]).id
        != (#[trigger] dir[b]).id
}

/// The accounts among the first `n` whose parent is `p`, in directory order.
pub open spec fn with_parent(dir: Seq<AccountNode>, p: Option<u128>, n: int) -> Seq<int>
    decreases n,
{
    if n <= 0 {
        Seq::empty()
    } else if dir[n - 1].parent_id == p {
        with_parent(dir, p, n - 1).push(n - 1)
    } else {
        with_parent(dir, p, n - 1)
    }
}

/// `x` inserted into `s` after every account whose number is not greater.
pub open spec fn insert_sorted(dir: Seq<AccountNode>, s: Seq<int>, x: int) -> Seq<int>
    decreases s.len(),
{
    if s.len() == 0 {
        seq![x]
    } else if text_lt(dir[x].account_number@, dir[s[0]].account_number@) {
        seq![x] + s
    } else {
        seq![s[0]] + insert_sorted(dir, s.drop_first(), x)
    }
}

/// `xs` sorted by account number, stably (insertion in order).
pub open spec fn sort_by_number(dir: Seq<AccountNode>, xs: Seq<int>) -> Seq<int>
    decreases xs.len(),
{
    if xs.len() == 0 {
        Seq::empty()
    } else {
        insert_sorted(dir, sort_by_number(dir, xs.drop_last()), xs.last())
    }
}

/// The children of account `k`, ordered by account number.
pub open spec fn sorted_children(dir: Seq<AccountNode>, k: int) -> Seq<int> {
    sort_by_number(dir, with_parent(dir, Some(dir[k].id), dir.len() as int))
}

/// The roots of the directory, ordered by account number.
pub open spec fn sorted_roots(dir: Seq<AccountNode>) -> Seq<int> {
    sort_by_number(dir, with_parent(dir, None, dir.len() as int))
}

/// The node's own sums are not both zero.
pub open spec fn active(sums: Seq<(Amount, Amount)>, c: int) -> bool {
    sums[c].0.mantissa != 0 || sums[c].1.mantissa != 0
}

/// A node is kept when it has activity or kept children (`f` is the depth
/// still available below it).
pub open spec fn keep(dir: Seq<AccountNode>, sums: Seq<(Amount, Amount)>, c: int, f: nat) -> bool
    decreases f, 0int, 0int,
{
    active(sums, c) || (f > 0 && kept_from(dir, sums, sorted_children(dir, c), (f - 1) as nat).len() > 0)
}

/// The kept accounts among `cs`, in order.
pub open spec fn kept_from(dir: Seq<AccountNode>, sums: Seq<(Amount, Amount)>, cs: Seq<int>, f: nat) -> Seq<int>
    decreases f, cs.len(), 1int,
{
    if cs.len() == 0 {
        Seq::empty()
    } else if keep(dir, sums, cs.last(), f) {
        kept_from(dir, sums, cs.drop_last(), f).push(cs.last())
    } else {
        kept_from(dir, sums, cs.drop_last(), f)
    }
}

/// `t` is the subtree of account `k` built with depth `f` left.
pub open spec fn node_matches(t: TrialBalanceNode, dir: Seq<AccountNode>, sums: Seq<(Amount, Amount)>, k: int, f: nat) -> bool
    decreases f,
{
    &&& t.account_number@ == dir[k].account_number@
    &&& t.name@ == dir[k].name@
    &&& t.account_type@ == dir[k].account_type@
    &&& t.level == dir[k].level
    &&& t.is_header == dir[k].is_header
    &&& t.debit == sums[k].0
    &&& t.credit == sums[k].1
    &&& if f == 0 {
        t.children.len() == 0
    } else {
        let ks = kept_from(dir, sums, sorted_children(dir, k), (f - 1) as nat);
        &&& t.children.len() == ks.len()
        &&& forall|j: int| 0 <= j < ks.len() ==> node_matches(#[trigger] t.children@[j], dir, sums, ks[j], (f - 1) as nat)
    }
}

/// `path` runs from a root down to its last account, each account a child
/// of the one before, without repeats.
pub open spec fn chain(dir: Seq<AccountNode>, path: Seq<int>) -> bool {
    &&& path.len() > 0
    &&& path.no_duplicates()
    &&& forall|i: int| 0 <= i < path.len() ==> 0 <= #[trigger] path[i] < dir.len()
    &&& dir[path[0]].parent_id is None
    &&& forall|i: int| 0 < i < path.len() ==> dir[#[trigger] path[i]].parent_id == Some(dir[path[i - 1]].id)
}

pub(crate) proof fn lemma_chain_bound(dir: Seq<AccountNode>, path: Seq<int>)
    requires
        chain(dir, path),
    ensures
        path.len() <= dir.len(),
{
    path.unique_seq_to_set();
    let s = path.to_set();
    let r = vstd::set_lib::set_int_range(0, dir.len() as int);
    vstd::set_lib::lemma_int_range(0, dir.len() as int);
    assert(s.subset_of(r)) by {
        assert forall|x: int| s.contains(x) implies r.contains(x) by {
            let i = choose|i: int| 0 <= i < path.len() && path[i] == x;
            assert(0 <= path[i] < dir.len());
        }
    }
    vstd::set_lib::lemma_len_subset(s, r);
}

/// A child of the last account of a chain extends the chain.
proof fn lemma_chain_push(dir: Seq<AccountNode>, path: Seq<int>, c: int)
    requires
        ids_unique(dir),
        chain(dir, path),
        0 <= c < dir.len(),
        dir[c].parent_id == Some(dir[path.last()].id),
    ensures
        chain(dir, path.push(c)),
{
    let n = path.push(c);
    if path.contains(c) {
        let a = choose|a: int| 0 <= a < path.len() && path[a] == c;
        if a == 0 {
            assert(dir[path[0]].parent_id is None);
        } else {
            assert(dir[path[a]].parent_id == Some(dir[path[a - 1]].id));
            assert(dir[path[a - 1]].id == dir[path.last()].id);
            assert(path[a - 1] == path[path.len() - 1]);
            assert(a - 1 == path.len() - 1);
        }
    }
    assert(n.no_duplicates()) by {
        assert forall|i: int, j: int| 0 <= i < n.len() && 0 <= j < n.len() && i != j implies n[i] != n[j] by {
            if i == path.len() as int {
                if n[j] == n[i] {
                    assert(path[j] == c);
                    assert(path.contains(c));
                }
            } else if j == path.len() as int {
                if n[j] == n[i] {
                    assert(path[i] == c);
                    assert(path.contains(c));
                }
            } else {
                assert(n[i] == path[i] && n[j] == path[j]);
            }
        }
    }
    assert forall|i: int| 0 < i < n.len() implies dir[#[trigger] n[i]].parent_id == Some(dir[n[i - 1]].id) by {
        if i < path.len() {
            assert(n[i] == path[i] && n[i - 1] == path[i - 1]);
        }
    }
}

/// Accounts of the directory whose parent is `p`.
pub open spec fn all_with_parent(dir: Seq<AccountNode>, s: Seq<int>, p: Option<u128>) -> bool {
    forall|j: int| 0 <= j < s.len() ==> 0 <= #[trigger] s[j] < dir.len() && dir[s[j]].parent_id == p
}

proof fn lemma_insert_sorted_parent(dir: Seq<AccountNode>, s: Seq<int>, x: int, p: Option<u128>)
    requires
        all_with_parent(dir, s, p),
        0 <= x < dir.len(),
        dir[x].parent_id == p,
    ensures
        all_with_parent(dir, insert_sorted(dir, s, x), p),
        insert_sorted(dir, s, x).len() == s.len() + 1,
    decreases s.len(),
{
    let r = insert_sorted(dir, s, x);
    if s.len() == 0 {
    } else if text_lt(dir[x].account_number@, dir[s[0]].account_number@) {
        assert forall|j: int| 0 <= j < r.len() implies 0 <= #[trigger] r[j] < dir.len() && dir[r[j]].parent_id == p by {
            if j > 0 {
                assert(r[j] == s[j - 1]);
            }
        }
    } else {
        let t = s.drop_first();
        assert(all_with_parent(dir, t, p)) by {
            assert forall|j: int| 0 <= j < t.len() implies 0 <= #[trigger] t[j] < dir.len() && dir[t[j]].parent_id == p by {
                assert(t[j] == s[j + 1]);
            }
        }
        lemma_insert_sorted_parent(dir, t, x, p);
        let q = insert_sorted(dir, t, x);
        assert forall|j: int| 0 <= j < r.len() implies 0 <= #[trigger] r[j] < dir.len() && dir[r[j]].parent_id == p by {
            if j == 0 {
                assert(r[0] == s[0]);
            } else {
                assert(r[j] == q[j - 1]);
            }
        }
    }
}

proof fn lemma_sort_parent(dir: Seq<AccountNode>, xs: Seq<int>, p: Option<u128>)
    requires
        all_with_parent(dir, xs, p),
    ensures
        all_with_parent(dir, sort_by_number(dir, xs), p),
    decreases xs.len(),
{
    if xs.len() > 0 {
        let d = xs.drop_last();
        assert(all_with_parent(dir, d, p)) by {
            assert forall|j: int| 0 <= j < d.len() implies 0 <= #[trigger] d[j] < dir.len() && dir[d[j]].parent_id == p by {
                assert(d[j] == xs[j]);
            }
        }
        lemma_sort_parent(dir, d, p);
        assert(xs[xs.len() - 1] == xs.last());
        lemma_insert_sorted_parent(dir, sort_by_number(dir, d), xs.last(), p);
    }
}

proof fn lemma_with_parent_all(dir: Seq<AccountNode>, p: Option<u128>, n: int)
    requires
        0 <= n <= dir.len(),
    ensures
        all_with_parent(dir, with_parent(dir, p, n), p),
    decreases n,
{
    if n > 0 {
        lemma_with_parent_all(dir, p, n - 1);
    }
}

/// The children of `k`, sorted: each one an account whose parent is `k`.
proof fn lemma_sorted_children(dir: Seq<AccountNode>, k: int)
    requires
        0 <= k < dir.len(),
    ensures
        all_with_parent(dir, sorted_children(dir, k), Some(dir[k].id)),
{
    lemma_with_parent_all(dir, Some(dir[k].id), dir.len() as int);
    lemma_sort_parent(dir, with_parent(dir, Some(dir[k].id), dir.len() as int), Some(dir[k].id));
}

proof fn lemma_sorted_roots(dir: Seq<AccountNode>)
    ensures
        all_with_parent(dir, sorted_roots(dir), None),
{
    lemma_with_parent_all(dir, None, dir.len() as int);
    lemma_sort_parent(dir, with_parent(dir, None, dir.len() as int), None);
}

/// The indices as integers.
pub open spec fn ix(v: Seq<usize>) -> Seq<int> {
    v.map_values(|i: usize| i as int)
}

/// The accounts whose parent is `p`, in directory order.
fn children_of(dir: &Vec<AccountNode>, p: Option<u128>) -> (r: Vec<usize>)
    ensures
        ix(r@) == with_parent(dir@, p, dir.len() as int),
{
    let mut out: Vec<usize> = Vec::new();
    let mut i: usize = 0;
    while i < dir.len()
        invariant
            i <= dir.len(),
            ix(out@) == with_parent(dir@, p, i as int),
        decreases dir.len() - i,
    {
        if dir[i].parent_id == p {
            out.push(i);
            proof {
                assert(ix(out@) =~= with_parent(dir@, p, i as int).push(i as int));
            }
        }
        i = i + 1;
    }
    out
}

proof fn lemma_insert_split(dir: Seq<AccountNode>, s: Seq<int>, x: int, i: int)
    requires
        0 <= i <= s.len(),
        forall|j: int| 0 <= j < i ==> !text_lt(dir[x].account_number@, dir[#[trigger] s[j]].account_number@),
        i == s.len() || text_lt(dir[x].account_number@, dir[s[i]].account_number@),
    ensures
        insert_sorted(dir, s, x) == s.take(i) + seq![x] + s.skip(i),
    decreases s.len(),
{
    if s.len() == 0 {
        assert(s.take(i) + seq![x] + s.skip(i) =~= seq![x]);
    } else if i == 0 {
        assert(s.take(0) + seq![x] + s.skip(0) =~= seq![x] + s);
    } else {
        let t = s.drop_first();
        assert forall|j: int| 0 <= j < i - 1 implies !text_lt(dir[x].account_number@, dir[#[trigger] t[j]].account_number@) by {
            assert(t[j] == s[j + 1]);
        }
        if i < s.len() {
            assert(t[i - 1] == s[i]);
        }
        lemma_insert_split(dir, t, x, i - 1);
        assert(!text_lt(dir[x].account_number@, dir[s[0]].account_number@));
        assert(s.take(i) + seq![x] + s.skip(i) =~= seq![s[0]] + (t.take(i - 1) + seq![x] + t.skip(i - 1)));
    }
}

fn insert_node(dir: &Vec<AccountNode>, s: &Vec<usize>, x: usize) -> (r: Vec<usize>)
    requires
        x < dir.len(),
        forall|j: int| 0 <= j < s.len() ==> #[trigger] s@[j] < dir.len(),
    ensures
        ix(r@) == insert_sorted(dir@, ix(s@), x as int),
        forall|j: int| 0 <= j < r.len() ==> #[trigger] r@[j] < dir.len(),
{
    let mut i: usize = 0;
    while i < s.len() && !text_less(dir[x].account_number.as_str(), dir[s[i]].account_number.as_str())
        invariant
            i <= s.len(),
            x < dir.len(),
            forall|j: int| 0 <= j < s.len() ==> #[trigger] s@[j] < dir.len(),
            forall|j: int| 0 <= j < i ==> !text_lt(dir@[x as int].account_number@, dir@[#[trigger] ix(s@)[j]].account_number@),
        decreases s.len() - i,
    {
        i = i + 1;
    }
    let mut out: Vec<usize> = Vec::new();
    let mut j: usize = 0;
    while j < i
        invariant
            j <= i <= s.len(),
            ix(out@) == ix(s@).take(j as int),
            forall|k: int| 0 <= k < out.len() ==> #[trigger] out@[k] < dir.len(),
            forall|k: int| 0 <= k < s.len() ==> #[trigger] s@[k] < dir.len(),
        decreases i - j,
    {
        let ghost before = out@;
        out.push(s[j]);
        proof {
            assert(ix(out@) =~= ix(before).push(s@[j as int] as int));
            assert(ix(s@).take(j + 1) =~= ix(s@).take(j as int).push(ix(s@)[j as int]));
            assert(ix(out@) =~= ix(s@).take(j + 1));
        }
        j = j + 1;
    }
    out.push(x);
    let mut k: usize = i;
    while k < s.len()
        invariant
            i <= k <= s.len(),
            x < dir.len(),
            ix(out@) == ix(s@).take(i as int) + seq![x as int] + ix(s@).subrange(i as int, k as int),
            forall|q: int| 0 <= q < out.len() ==> #[trigger] out@[q] < dir.len(),
            forall|q: int| 0 <= q < s.len() ==> #[trigger] s@[q] < dir.len(),
        decreases s.len() - k,
    {
        let ghost before = out@;
        out.push(s[k]);
        proof {
            assert(ix(out@) =~= ix(before).push(s@[k as int] as int));
            assert(ix(s@).subrange(i as int, k + 1) =~= ix(s@).subrange(i as int, k as int).push(ix(s@)[k as int]));
            assert(ix(out@) =~= ix(s@).take(i as int) + seq![x as int] + ix(s@).subrange(i as int, k + 1));
        }
        k = k + 1;
    }
    proof {
        assert(ix(s@).subrange(i as int, s.len() as int) =~= ix(s@).skip(i as int));
        lemma_insert_split(dir@, ix(s@), x as int, i as int);
    }
    out
}

/// `xs` sorted by account number, stably.
fn sort_nodes(dir: &Vec<AccountNode>, xs: &Vec<usize>) -> (r: Vec<usize>)
    requires
        forall|j: int| 0 <= j < xs.len() ==> #[trigger] xs@[j] < dir.len(),
    ensures
        ix(r@) == sort_by_number(dir@, ix(xs@)),
{
    let mut out: Vec<usize> = Vec::new();
    let mut i: usize = 0;
    while i < xs.len()
        invariant
            i <= xs.len(),
            forall|j: int| 0 <= j < xs.len() ==> #[trigger] xs@[j] < dir.len(),
            forall|j: int| 0 <= j < out.len() ==> #[trigger] out@[j] < dir.len(),
            ix(out@) == sort_by_number(dir@, ix(xs@).take(i as int)),
        decreases xs.len() - i,
    {
        out = insert_node(dir, &out, xs[i]);
        proof {
            assert(ix(xs@).take(i + 1).drop_last() =~= ix(xs@).take(i as int));
        }
        i = i + 1;
    }
    proof {
        assert(ix(xs@).take(xs.len() as int) =~= ix(xs@));
    }
    out
}

proof fn lemma_kept_step(dir: Seq<AccountNode>, sums: Seq<(Amount, Amount)>, cs: Seq<int>, j: int, f: nat)
    requires
        0 <= j < cs.len(),
    ensures
        kept_from(dir, sums, cs.take(j + 1), f) == if keep(dir, sums, cs[j], f) {
            kept_from(dir, sums, cs.take(j), f).push(cs[j])
        } else {
            kept_from(dir, sums, cs.take(j), f)
        },
{
    assert(cs.take(j + 1).drop_last() =~= cs.take(j));
}

/// The subtree of account `k`, built with depth `fuel` left; `path` is the
/// chain from its root down to it.
fn build_node(
    dir: &Vec<AccountNode>,
    sums: &Vec<(Amount, Amount)>,
    k: usize,
    fuel: usize,
    Ghost(path): Ghost<Seq<int>>,
) -> (t: TrialBalanceNode)
    requires
        dir.len() == sums.len(),
        ids_unique(dir@),
        chain(dir@, path),
        path.last() == k,
        k < dir.len(),
        fuel >= 1,
        path.len() + fuel == dir.len() + 1,
    ensures
        node_matches(t, dir@, sums@, k as int, fuel as nat),
    decreases fuel,
{
    let w = children_of(dir, Some(dir[k].id));
    proof {
        lemma_with_parent_all(dir@, Some(dir@[k as int].id), dir.len() as int);
        assert forall|j: int| 0 <= j < w.len() implies #[trigger] w@[j] < dir.len() by {
            assert(ix(w@)[j] == w@[j] as int);
        }
    }
    let cs = sort_nodes(dir, &w);
    proof {
        lemma_sorted_children(dir@, k as int);
    }
    let ghost f1: nat = (fuel - 1) as nat;
    let ghost scs = sorted_children(dir@, k as int);
    let mut kids: Vec<TrialBalanceNode> = Vec::new();
    let mut j: usize = 0;
    assert(scs.take(0) =~= Seq::<int>::empty());
    while j < cs.len()
        invariant
            j <= cs.len(),
            ix(cs@) == scs,
            scs == sorted_children(dir@, k as int),
            all_with_parent(dir@, scs, Some(dir@[k as int].id)),
            dir.len() == sums.len(),
            ids_unique(dir@),
            chain(dir@, path),
            path.last() == k,
            k < dir.len(),
            fuel >= 1,
            f1 == fuel - 1,
            path.len() + fuel == dir.len() + 1,
            kids.len() == kept_from(dir@, sums@, scs.take(j as int), f1).len(),
            forall|i: int| 0 <= i < kids.len() ==> node_matches(
                #[trigger] kids@[i],
                dir@,
                sums@,
                kept_from(dir@, sums@, scs.take(j as int), f1)[i],
                f1,
            ),
        decreases cs.len() - j,
    {
        let c = cs[j];
        proof {
            assert(scs[j as int] == c as int);
            lemma_chain_push(dir@, path, c as int);
            lemma_chain_bound(dir@, path.push(c as int));
            lemma_kept_step(dir@, sums@, scs, j as int, f1);
        }
        let child = build_node(dir, sums, c, fuel - 1, Ghost(path.push(c as int)));
        let keep_it = !sums[c].0.is_zero() || !sums[c].1.is_zero() || child.children.len() > 0;
        proof {
            assert(keep_it == keep(dir@, sums@, c as int, f1));
        }
        let ghost before = kids@;
        if keep_it {
            kids.push(child);
            proof {
                assert forall|i: int| 0 <= i < kids.len() implies node_matches(
                    #[trigger] kids@[i],
                    dir@,
                    sums@,
                    kept_from(dir@, sums@, scs.take(j + 1), f1)[i],
                    f1,
                ) by {
                    if i < before.len() {
                        assert(kids@[i] == before[i]);
                    }
                }
            }
        }
        j = j + 1;
    }
    proof {
        assert(scs.take(cs.len() as int) =~= scs);
    }
    let node = &dir[k];
    TrialBalanceNode {
        account_number: node.account_number.clone(),
        name: node.name.clone(),
        account_type: node.account_type.clone(),
        level: node.level,
        is_header: node.is_header,
        debit: sums[k].0,
        credit: sums[k].1,
        children: kids,
    }
}

/// The rolled-up tree over the directory, given each account's sums (its own
/// lines and its descendants'): the roots ordered by account number, each with
/// its kept subtree; nodes with no activity and no kept children left out.
pub fn build_tree(dir: &Vec<AccountNode>, sums: &Vec<(Amount, Amount)>) -> (r: Vec<TrialBalanceNode>)
    requires
        dir.len() == sums.len(),
        ids_unique(dir@),
    ensures
        ({
            let ks = kept_from(dir@, sums@, sorted_roots(dir@), dir.len() as nat);
            &&& r.len() == ks.len()
            &&& forall|j: int| 0 <= j < ks.len() ==> node_matches(#[trigger] r@[j], dir@, sums@, ks[j], dir.len() as nat)
        }),
{
    let w = children_of(dir, None);
    proof {
        lemma_with_parent_all(dir@, None, dir.len() as int);
        assert forall|j: int| 0 <= j < w.len() implies #[trigger] w@[j] < dir.len() by {
            assert(ix(w@)[j] == w@[j] as int);
        }
        lemma_sorted_roots(dir@);
    }
    let rs = sort_nodes(dir, &w);
    let ghost n: nat = dir.len() as nat;
    let ghost srs = sorted_roots(dir@);
    let mut out: Vec<TrialBalanceNode> = Vec::new();
    let mut j: usize = 0;
    assert(srs.take(0) =~= Seq::<int>::empty());
    while j < rs.len()
        invariant
            j <= rs.len(),
            ix(rs@) == srs,
            srs == sorted_roots(dir@),
            all_with_parent(dir@, srs, None),
            dir.len() == sums.len(),
            n == dir.len(),
            ids_unique(dir@),
            out.len() == kept_from(dir@, sums@, srs.take(j as int), n).len(),
            forall|i: int| 0 <= i < out.len() ==> node_matches(
                #[trigger] out@[i],
                dir@,
                sums@,
                kept_from(dir@, sums@, srs.take(j as int), n)[i],
                n,
            ),
        decreases rs.len() - j,
    {
        let r = rs[j];
        proof {
            assert(srs[j as int] == r as int);
            lemma_kept_step(dir@, sums@, srs, j as int, n);
            let p = seq![r as int];
            assert(p.no_duplicates());
            assert(chain(dir@, p));
        }
        let ghost root_path = seq![r as int];
        let t = build_node(dir, sums, r, dir.len(), Ghost(root_path));
        let keep_it = !sums[r].0.is_zero() || !sums[r].1.is_zero() || t.children.len() > 0;
        proof {
            assert(keep_it == keep(dir@, sums@, r as int, n));
        }
        let ghost before = out@;
        if keep_it {
            out.push(t);
            proof {
                assert forall|i: int| 0 <= i < out.len() implies node_matches(
                    #[trigger] out@[i],
                    dir@,
                    sums@,
                    kept_from(dir@, sums@, srs.take(j + 1), n)[i],
                    n,
                ) by {
                    if i < before.len() {
                        assert(out@[i] == before[i]);
                    }
                }
            }
        }
        j = j + 1;
    }
    proof {
        assert(srs.take(rs.len() as int) =~= srs);
    }
    out
}

/// The distinct accounts of the detail lines, in order of first appearance.
pub open spec fn detail_ids(lines: Seq<DetailNet>) -> Seq<u128>
    decreases lines.len(),
{
    if lines.len() == 0 {
        Seq::empty()
    } else if detail_ids(lines.drop_last()).contains(lines.last().account_id) {
        detail_ids(lines.drop_last())
    } else {
        detail_ids(lines.drop_last()).push(lines.last().account_id)
    }
}

/// The debit (`c == 0`) or credit of a detail line.
pub open spec fn side(l: DetailNet, c: int) -> Amount {
    if c == 0 {
        l.debit
    } else {
        l.credit
    }
}

/// The steps of account `id`'s own lines, column `c`.
pub open spec fn own_steps(lines: Seq<DetailNet>, id: u128, c: int) -> Seq<(bool, Amount)>
    decreases lines.len(),
{
    if lines.len() == 0 {
        Seq::empty()
    } else if lines.last().account_id == id {
        own_steps(lines.drop_last(), id, c).push((false, side(lines.last(), c)))
    } else {
        own_steps(lines.drop_last(), id, c)
    }
}

/// The first directory index of account `id`.
pub open spec fn node_index(dir: Seq<AccountNode>, id: u128, n: int) -> Option<int>
    decreases n,
{
    if n <= 0 {
        None
    } else if node_index(dir, id, n - 1) is Some {
        node_index(dir, id, n - 1)
    } else if dir[n - 1].id == id {
        Some(n - 1)
    } else {
        None
    }
}

/// The ancestors a detail's sums climb through: from `cur`, while it is an
/// account of the directory, for at most `steps` accounts.
pub open spec fn climb_from(dir: Seq<AccountNode>, cur: Option<u128>, steps: nat) -> Seq<u128>
    decreases steps,
{
    if steps == 0 {
        Seq::empty()
    } else {
        match cur {
            None => Seq::empty(),
            Some(pid) => match node_index(dir, pid, dir.len() as int) {
                None => Seq::empty(),
                Some(k) => seq![pid] + climb_from(dir, dir[k].parent_id, (steps - 1) as nat),
            },
        }
    }
}

/// The ancestors detail account `e` adds its sums to: its parent chain, at
/// most one more account than the directory holds.
pub open spec fn climb(dir: Seq<AccountNode>, e: u128) -> Seq<u128> {
    let start = match node_index(dir, e, dir.len() as int) {
        Some(k) => dir[k].parent_id,
        None => None,
    };
    climb_from(dir, start, (dir.len() + 1) as nat)
}

/// One step of `a` for every time `x` occurs in `path`.
pub open spec fn occ_steps(path: Seq<u128>, x: u128, a: Amount) -> Seq<(bool, Amount)>
    decreases path.len(),
{
    if path.len() == 0 {
        Seq::empty()
    } else if path.last() == x {
        occ_steps(path.drop_last(), x, a).push((false, a))
    } else {
        occ_steps(path.drop_last(), x, a)
    }
}

/// The propagated steps reaching account `x` from the first `n` details.
pub open spec fn prop_steps(dir: Seq<AccountNode>, ds: Seq<u128>, aggs: Seq<Amount>, x: u128, n: int) -> Seq<(bool, Amount)>
    decreases n,
{
    if n <= 0 {
        Seq::empty()
    } else {
        prop_steps(dir, ds, aggs, x, n - 1) + occ_steps(climb(dir, ds[n - 1]), x, aggs[n - 1])
    }
}

/// The own sums of each detail, column `c` (when none overflows).
pub open spec fn aggs_of(lines: Seq<DetailNet>, ds: Seq<u128>, c: int) -> Seq<Amount> {
    Seq::new(ds.len(), |i: int| running(own_steps(lines, ds[i], c)).unwrap())
}

/// All the steps of account `x`, column `c`: its own lines, then what its
/// descendants' details propagate, detail by detail.
pub open spec fn node_steps(dir: Seq<AccountNode>, lines: Seq<DetailNet>, x: u128, c: int) -> Seq<(bool, Amount)> {
    let ds = detail_ids(lines);
    own_steps(lines, x, c) + prop_steps(dir, ds, aggs_of(lines, ds, c), x, ds.len() as int)
}

/// Each directory account's rolled-up (debit, credit), or `None` when a sum
/// overflows.
pub open spec fn tree_sums_spec(dir: Seq<AccountNode>, lines: Seq<DetailNet>) -> Option<Seq<(Amount, Amount)>> {
    let ds = detail_ids(lines);
    if exists|i: int, c: int| 0 <= i < ds.len() && 0 <= c < 2 && running(#[trigger] own_steps(lines, ds[i], c)) is None {
        None
    } else if exists|k: int, c: int| 0 <= k < dir.len() && 0 <= c < 2 && running(#[trigger] node_steps(dir, lines, dir[k].id, c)) is None {
        None
    } else {
        Some(Seq::new(dir.len(), |k: int| (running(node_steps(dir, lines, dir[k].id, 0)).unwrap(), running(node_steps(dir, lines, dir[k].id, 1)).unwrap())))
    }
}

pub open spec fn nets_wf(lines: Seq<DetailNet>) -> bool {
    forall|i: int| 0 <= i < lines.len() ==> (#[trigger] lines[i]).debit.wf() && lines[i].credit.wf()
}

fn own_steps_exec(lines: &Vec<DetailNet>, id: u128, c: u8) -> (r: Vec<(bool, Amount)>)
    requires
        nets_wf(lines@),
    ensures
        r@ == own_steps(lines@, id, c as int),
        forall|k: int| 0 <= k < r.len() ==> (#[trigger] r@[k]).1.wf(),
{
    let mut out: Vec<(bool, Amount)> = Vec::new();
    let mut i: usize = 0;
    assert(lines@.take(0) =~= Seq::<DetailNet>::empty());
    while i < lines.len()
        invariant
            i <= lines.len(),
            nets_wf(lines@),
            out@ == own_steps(lines@.take(i as int), id, c as int),
            forall|k: int| 0 <= k < out.len() ==> (#[trigger] out@[k]).1.wf(),
        decreases lines.len() - i,
    {
        proof {
            assert(lines@.take(i + 1).drop_last() =~= lines@.take(i as int));
            assert(lines@.take(i + 1).last() == lines@[i as int]);
        }
        if lines[i].account_id == id {
            let a = if c == 0 {
                lines[i].debit
            } else {
                lines[i].credit
            };
            out.push((false, a));
        }
        i = i + 1;
    }
    proof {
        assert(lines@.take(lines.len() as int) =~= lines@);
    }
    out
}

fn detail_ids_exec(lines: &Vec<DetailNet>) -> (r: Vec<u128>)
    ensures
        r@ == detail_ids(lines@),
{
    let mut out: Vec<u128> = Vec::new();
    let mut i: usize = 0;
    assert(lines@.take(0) =~= Seq::<DetailNet>::empty());
    while i < lines.len()
        invariant
            i <= lines.len(),
            out@ == detail_ids(lines@.take(i as int)),
        decreases lines.len() - i,
    {
        proof {
            assert(lines@.take(i + 1).drop_last() =~= lines@.take(i as int));
            assert(lines@.take(i + 1).last() == lines@[i as int]);
        }
        let id = lines[i].account_id;
        let mut found = false;
        let mut j: usize = 0;
        while j < out.len()
            invariant
                j <= out.len(),
                found == exists|q: int| 0 <= q < j && out@[q] == id,
            decreases out.len() - j,
        {
            if out[j] == id {
                found = true;
            }
            j = j + 1;
        }
        proof {
            if found {
                let q = choose|q: int| 0 <= q < out.len() && out@[q] == id;
                assert(out@.contains(id));
            }
        }
        if !found {
            out.push(id);
        }
        i = i + 1;
    }
    proof {
        assert(lines@.take(lines.len() as int) =~= lines@);
    }
    out
}

fn node_index_exec(dir: &Vec<AccountNode>, id: u128) -> (r: Option<usize>)
    ensures
        (match r {
            Some(k) => Some(k as int),
            None => None,
        }) == node_index(dir@, id, dir.len() as int),
{
    let mut i: usize = 0;
    while i < dir.len()
        invariant
            i <= dir.len(),
            node_index(dir@, id, i as int) is None,
        decreases dir.len() - i,
    {
        if dir[i].id == id {
            proof {
                lemma_node_index_stable(dir@, id, i + 1, dir.len() as int);
            }
            return Some(i);
        }
        i = i + 1;
    }
    None
}

proof fn lemma_node_index_stable(dir: Seq<AccountNode>, id: u128, n: int, m: int)
    requires
        0 <= n <= m,
        node_index(dir, id, n) is Some,
    ensures
        node_index(dir, id, m) == node_index(dir, id, n),
    decreases m - n,
{
    if m > n {
        lemma_node_index_stable(dir, id, n, m - 1);
    }
}

proof fn lemma_node_index_range(dir: Seq<AccountNode>, id: u128, n: int)
    requires
        0 <= n <= dir.len(),
    ensures
        node_index(dir, id, n) matches Some(k) ==> 0 <= k < n,
    decreases n,
{
    if n > 0 {
        lemma_node_index_range(dir, id, n - 1);
    }
}

/// The ancestors detail `e` climbs through.
fn climb_exec(dir: &Vec<AccountNode>, e: u128) -> (r: Vec<u128>)
    ensures
        r@ == climb(dir@, e),
{
    proof {
        lemma_node_index_range(dir@, e, dir.len() as int);
    }
    let start = match node_index_exec(dir, e) {
        Some(k) => dir[k].parent_id,
        None => None,
    };
    let mut out: Vec<u128> = Vec::new();
    let mut cur = start;
    let mut steps: u128 = dir.len() as u128 + 1;
    while steps > 0
        invariant
            climb(dir@, e) == out@ + climb_from(dir@, cur, steps as nat),
        decreases steps,
    {
        match cur {
            None => {
                proof {
                    assert(out@ + climb_from(dir@, cur, steps as nat) =~= out@);
                }
                return out;
            },
            Some(pid) => {
                proof {
                    lemma_node_index_range(dir@, pid, dir.len() as int);
                }
                match node_index_exec(dir, pid) {
                    None => {
                        proof {
                            assert(out@ + climb_from(dir@, cur, steps as nat) =~= out@);
                        }
                        return out;
                    },
                    Some(k) => {
                        let ghost before = out@;
                        out.push(pid);
                        cur = dir[k].parent_id;
                        proof {
                            assert(before + (seq![pid] + climb_from(dir@, cur, (steps - 1) as nat)) =~= out@ + climb_from(dir@, cur, (steps - 1) as nat));
                        }
                        steps = steps - 1;
                    },
                }
            },
        }
    }
    proof {
        assert(out@ + climb_from(dir@, cur, 0) =~= out@);
    }
    out
}

fn push_occurrences(out: &mut Vec<(bool, Amount)>, path: &Vec<u128>, x: u128, a: Amount)
    ensures
        final(out)@ == old(out)@ + occ_steps(path@, x, a),
{
    let ghost start = out@;
    let mut i: usize = 0;
    assert(path@.take(0) =~= Seq::<u128>::empty());
    assert(start + occ_steps(Seq::<u128>::empty(), x, a) =~= start);
    while i < path.len()
        invariant
            i <= path.len(),
            out@ == start + occ_steps(path@.take(i as int), x, a),
        decreases path.len() - i,
    {
        proof {
            assert(path@.take(i + 1).drop_last() =~= path@.take(i as int));
            assert(path@.take(i + 1).last() == path@[i as int]);
        }
        if path[i] == x {
            out.push((false, a));
            proof {
                assert(out@ =~= start + occ_steps(path@.take(i + 1), x, a));
            }
        }
        i = i + 1;
    }
    proof {
        assert(path@.take(path.len() as int) =~= path@);
    }
}

/// The own sums of each detail, in detail order; `None` when one overflows.
fn detail_aggs(lines: &Vec<DetailNet>, ds: &Vec<u128>, c: u8) -> (r: Option<Vec<Amount>>)
    requires
        nets_wf(lines@),
        c < 2,
    ensures
        match r {
            Some(v) => v@ == aggs_of(lines@, ds@, c as int) && (forall|i: int| 0 <= i < ds.len() ==> running(
                #[trigger] own_steps(lines@, ds@[i], c as int),
            ) is Some) && (forall|i: int| 0 <= i < v.len() ==> (#[trigger] v@[i]).wf()),
            None => exists|i: int| 0 <= i < ds.len() && running(#[trigger] own_steps(lines@, ds@[i], c as int)) is None,
        },
{
    let mut out: Vec<Amount> = Vec::new();
    let mut i: usize = 0;
    while i < ds.len()
        invariant
            i <= ds.len(),
            nets_wf(lines@),
            out.len() == i,
            forall|q: int| 0 <= q < i ==> running(#[trigger] own_steps(lines@, ds@[q], c as int)) == Some(out@[q]),
            forall|q: int| 0 <= q < out.len() ==> (#[trigger] out@[q]).wf(),
        decreases ds.len() - i,
    {
        let st = own_steps_exec(lines, ds[i], c);
        match running_total(&st) {
            Some(a) => {
                out.push(a);
            },
            None => {
                return None;
            },
        }
        i = i + 1;
    }
    proof {
        assert(out@ =~= aggs_of(lines@, ds@, c as int));
    }
    Some(out)
}

/// Each directory account's rolled-up (debit, credit): its own detail lines,
/// then, detail by detail, the detail sums that climb to it. `None` when a
/// sum overflows.
pub fn tree_sums(dir: &Vec<AccountNode>, lines: &Vec<DetailNet>) -> (r: Option<Vec<(Amount, Amount)>>)
    requires
        nets_wf(lines@),
    ensures
        match r {
            Some(v) => tree_sums_spec(dir@, lines@) == Some(v@),
            None => tree_sums_spec(dir@, lines@) is None,
        },
{
    let ds = detail_ids_exec(lines);
    let aggd = match detail_aggs(lines, &ds, 0) {
        Some(v) => v,
        None => return None,
    };
    let aggc = match detail_aggs(lines, &ds, 1) {
        Some(v) => v,
        None => return None,
    };
    proof {
        assert forall|i: int, c: int| 0 <= i < ds.len() && 0 <= c < 2 implies running(#[trigger] own_steps(lines@, ds@[i], c)) is Some by {
            if c == 0 {
                assert(running(own_steps(lines@, ds@[i], 0)) is Some);
            } else {
                assert(running(own_steps(lines@, ds@[i], 1)) is Some);
            }
        }
    }
    let mut climbs: Vec<Vec<u128>> = Vec::new();
    let mut i: usize = 0;
    while i < ds.len()
        invariant
            i <= ds.len(),
            climbs.len() == i,
            forall|q: int| 0 <= q < i ==> (#[trigger] climbs@[q])@ == climb(dir@, ds@[q]),
        decreases ds.len() - i,
    {
        climbs.push(climb_exec(dir, ds[i]));
        i = i + 1;
    }
    let mut sums: Vec<(Amount, Amount)> = Vec::new();
    let mut k: usize = 0;
    while k < dir.len()
        invariant
            k <= dir.len(),
            nets_wf(lines@),
            ds@ == detail_ids(lines@),
            aggd@ == aggs_of(lines@, ds@, 0),
            aggc@ == aggs_of(lines@, ds@, 1),
            forall|q: int| 0 <= q < aggd.len() ==> (#[trigger] aggd@[q]).wf(),
            forall|q: int| 0 <= q < aggc.len() ==> (#[trigger] aggc@[q]).wf(),
            climbs.len() == ds.len(),
            forall|q: int| 0 <= q < ds.len() ==> (#[trigger] climbs@[q])@ == climb(dir@, ds@[q]),
            sums.len() == k,
            forall|i: int, c: int| 0 <= i < ds.len() && 0 <= c < 2 ==> running(#[trigger] own_steps(lines@, ds@[i], c)) is Some,
            forall|q: int| 0 <= q < k ==> #[trigger] sums@[q] == (running(node_steps(dir@, lines@, dir@[q].id, 0)).unwrap(), running(node_steps(dir@, lines@, dir@[q].id, 1)).unwrap()),
            forall|q: int, c: int| 0 <= q < k && 0 <= c < 2 ==> running(#[trigger] node_steps(dir@, lines@, dir@[q].id, c)) is Some,
        decreases dir.len() - k,
    {
        let x = dir[k].id;
        let mut pair: (Amount, Amount) = (Amount::zero(), Amount::zero());
        let mut c: u8 = 0;
        while c < 2
            invariant
                c <= 2,
                k < dir.len(),
                x == dir@[k as int].id,
                nets_wf(lines@),
                ds@ == detail_ids(lines@),
                aggd@ == aggs_of(lines@, ds@, 0),
                aggc@ == aggs_of(lines@, ds@, 1),
                forall|q: int| 0 <= q < aggd.len() ==> (#[trigger] aggd@[q]).wf(),
                forall|q: int| 0 <= q < aggc.len() ==> (#[trigger] aggc@[q]).wf(),
                climbs.len() == ds.len(),
                aggd.len() == ds.len(),
                aggc.len() == ds.len(),
                forall|q: int| 0 <= q < ds.len() ==> (#[trigger] climbs@[q])@ == climb(dir@, ds@[q]),
                forall|i: int, c: int| 0 <= i < ds.len() && 0 <= c < 2 ==> running(#[trigger] own_steps(lines@, ds@[i], c)) is Some,
                c >= 1 ==> Some(pair.0) == running(node_steps(dir@, lines@, x, 0)),
                c >= 2 ==> Some(pair.1) == running(node_steps(dir@, lines@, x, 1)),
            decreases 2 - c,
        {
            let mut steps = own_steps_exec(lines, x, c);
            let ghost own = steps@;
            let mut i: usize = 0;
            while i < ds.len()
                invariant
                    i <= ds.len(),
                    c < 2,
                    climbs.len() == ds.len(),
                    aggd.len() == ds.len(),
                    aggc.len() == ds.len(),
                    forall|q: int| 0 <= q < ds.len() ==> (#[trigger] climbs@[q])@ == climb(dir@, ds@[q]),
                    forall|q: int| 0 <= q < aggd.len() ==> (#[trigger] aggd@[q]).wf(),
                    forall|q: int| 0 <= q < aggc.len() ==> (#[trigger] aggc@[q]).wf(),
                    forall|q: int| 0 <= q < steps.len() ==> (#[trigger] steps@[q]).1.wf(),
                    steps@ == own + prop_steps(dir@, ds@, if c == 0 { aggd@ } else { aggc@ }, x, i as int),
                decreases ds.len() - i,
            {
                let a = if c == 0 {
                    aggd[i]
                } else {
                    aggc[i]
                };
                let ghost before = steps@;
                push_occurrences(&mut steps, &climbs[i], x, a);
                proof {
                    assert(steps@ =~= own + prop_steps(dir@, ds@, if c == 0 { aggd@ } else { aggc@ }, x, i + 1));
                    assert forall|q: int| 0 <= q < steps.len() implies (#[trigger] steps@[q]).1.wf() by {
                        if q >= before.len() {
                            lemma_occ_steps_amount(climbs@[i as int]@, x, a, q - before.len());
                        }
                    }
                }
                i = i + 1;
            }
            proof {
                assert(steps@ == node_steps(dir@, lines@, x, c as int));
            }
            match running_total(&steps) {
                Some(t) => {
                    if c == 0 {
                        pair.0 = t;
                    } else {
                        pair.1 = t;
                    }
                },
                None => {
                    proof {
                        assert(running(node_steps(dir@, lines@, dir@[k as int].id, c as int)) is None);
                    }
                    return None;
                },
            }
            c = c + 1;
        }
        sums.push(pair);
        k = k + 1;
    }
    proof {
        assert(sums@ =~= Seq::new(dir.len() as nat, |q: int| (running(node_steps(dir@, lines@, dir@[q].id, 0)).unwrap(), running(node_steps(dir@, lines@, dir@[q].id, 1)).unwrap())));
    }
    Some(sums)
}

proof fn lemma_occ_steps_amount(path: Seq<u128>, x: u128, a: Amount, q: int)
    requires
        0 <= q < occ_steps(path, x, a).len(),
    ensures
        occ_steps(path, x, a)[q].1 == a,
    decreases path.len(),
{
    if path.len() > 0 {
        if path.last() == x {
            if q < occ_steps(path.drop_last(), x, a).len() {
                lemma_occ_steps_amount(path.drop_last(), x, a, q);
            }
        } else {
            lemma_occ_steps_amount(path.drop_last(), x, a, q);
        }
    }
}

/// The rolled-up trial-balance tree over the account directory and the
/// detail nets of the trial balance. `None` when a sum overflows.
pub fn trial_balance_tree(dir: &Vec<AccountNode>, lines: &Vec<DetailNet>) -> (r: Option<Vec<TrialBalanceNode>>)
    requires
        ids_unique(dir@),
        nets_wf(lines@),
    ensures
        match tree_sums_spec(dir@, lines@) {
            None => r is None,
            Some(sums) => r matches Some(t) && {
                let ks = kept_from(dir@, sums, sorted_roots(dir@), dir.len() as nat);
                &&& t.len() == ks.len()
                &&& forall|j: int| 0 <= j < ks.len() ==> node_matches(#[trigger] t@[j], dir@, sums, ks[j], dir.len() as nat)
            },
        },
{
    let sums = match tree_sums(dir, lines) {
        Some(s) => s,
        None => return None,
    };
    proof {
        assert(sums.len() == dir.len());
    }
    Some(build_tree(dir, &sums))
}

/// Whether account `k` is among the kept accounts `ks` or, within depth `f`,
/// among their kept descendants: the accounts of a tree built from `ks`.
pub open spec fn shown(dir: Seq<AccountNode>, sums: Seq<(Amount, Amount)>, ks: Seq<int>, f: nat, k: int) -> bool
    decreases f, ks.len(),
{
    if ks.len() == 0 {
        false
    } else {
        shown(dir, sums, ks.drop_last(), f, k) || ks.last() == k || (f > 0 && shown(
            dir,
            sums,
            kept_from(dir, sums, sorted_children(dir, ks.last()), (f - 1) as nat),
            (f - 1) as nat,
            k,
        ))
    }
}

/// The account `m` parent links above account `k`, while each parent is an
/// account of the directory.
pub open spec fn ancestor(dir: Seq<AccountNode>, k: int, m: nat) -> Option<int>
    decreases m,
{
    if m == 0 {
        Some(k)
    } else {
        match ancestor(dir, k, (m - 1) as nat) {
            None => None,
            Some(a) => match dir[a].parent_id {
                None => None,
                Some(pid) => node_index(dir, pid, dir.len() as int),
            },
        }
    }
}

/// Keeping some of the accounts keeps them accounts with the same parent.
proof fn lemma_kept_with_parent(dir: Seq<AccountNode>, sums: Seq<(Amount, Amount)>, cs: Seq<int>, f: nat, p: Option<u128>)
    requires
        all_with_parent(dir, cs, p),
    ensures
        all_with_parent(dir, kept_from(dir, sums, cs, f), p),
    decreases cs.len(),
{
    if cs.len() > 0 {
        let init = cs.drop_last();
        assert(all_with_parent(dir, init, p)) by {
            assert forall|j: int| 0 <= j < init.len() implies 0 <= #[trigger] init[j] < dir.len() && dir[init[j]].parent_id
                == p by {
                assert(init[j] == cs[j]);
            }
        }
        lemma_kept_with_parent(dir, sums, init, f, p);
        assert(cs[cs.len() - 1] == cs.last());
        let k0 = kept_from(dir, sums, init, f);
        assert forall|j: int| 0 <= j < k0.push(cs.last()).len() implies 0 <= #[trigger] k0.push(cs.last())[j]
            < dir.len() && dir[k0.push(cs.last())[j]].parent_id == p by {
            if j < k0.len() {
                assert(k0.push(cs.last())[j] == k0[j]);
            }
        }
    }
}

/// An account shown in a tree hangs from a root by a chain: from the chain
/// `pre` that the accounts `ks` are children of (none for the roots).
proof fn lemma_shown_chain(
    dir: Seq<AccountNode>,
    sums: Seq<(Amount, Amount)>,
    ks: Seq<int>,
    f: nat,
    k: int,
    pre: Seq<int>,
)
    requires
        ids_unique(dir),
        (pre.len() == 0 && all_with_parent(dir, ks, None)) || (chain(dir, pre) && all_with_parent(
            dir,
            ks,
            Some(dir[pre.last()].id),
        )),
        shown(dir, sums, ks, f, k),
    ensures
        exists|path: Seq<int>| chain(dir, path) && path.last() == k,
    decreases f, ks.len(),
{
    let init = ks.drop_last();
    let c = ks.last();
    assert(ks[ks.len() - 1] == c);
    if shown(dir, sums, init, f, k) {
        if pre.len() == 0 {
            assert(all_with_parent(dir, init, None)) by {
                assert forall|j: int| 0 <= j < init.len() implies 0 <= #[trigger] init[j] < dir.len()
                    && dir[init[j]].parent_id is None by {
                    assert(init[j] == ks[j]);
                }
            }
        } else {
            assert(all_with_parent(dir, init, Some(dir[pre.last()].id))) by {
                assert forall|j: int| 0 <= j < init.len() implies 0 <= #[trigger] init[j] < dir.len()
                    && dir[init[j]].parent_id == Some(dir[pre.last()].id) by {
                    assert(init[j] == ks[j]);
                }
            }
        }
        lemma_shown_chain(dir, sums, init, f, k, pre);
    } else {
        let path = if pre.len() == 0 {
            seq![c]
        } else {
            pre.push(c)
        };
        if pre.len() == 0 {
            assert(0 <= c < dir.len() && dir[c].parent_id is None);
            assert(path.no_duplicates());
            assert(chain(dir, path));
        } else {
            assert(0 <= c < dir.len() && dir[c].parent_id == Some(dir[pre.last()].id));
            lemma_chain_push(dir, pre, c);
        }
        assert(path.last() == c);
        if c != k {
            let f1 = (f - 1) as nat;
            let kids = kept_from(dir, sums, sorted_children(dir, c), f1);
            lemma_sorted_children(dir, c);
            lemma_kept_with_parent(dir, sums, sorted_children(dir, c), f1, Some(dir[c].id));
            lemma_shown_chain(dir, sums, kids, f1, k, path);
        }
    }
}

/// Under unique ids, the index found for an account's id is the account's.
pub(crate) proof fn lemma_node_index_of(dir: Seq<AccountNode>, b: int, n: int)
    requires
        ids_unique(dir),
        0 <= b < dir.len(),
        0 <= n <= dir.len(),
    ensures
        node_index(dir, dir[b].id, n) == if n <= b {
            None::<int>
        } else {
            Some(b)
        },
    decreases n,
{
    if n > 0 {
        lemma_node_index_of(dir, b, n - 1);
    }
}

/// Walking up from the end of a chain retraces it, and leaves the directory
/// past its root.
pub(crate) proof fn lemma_chain_ancestor(dir: Seq<AccountNode>, path: Seq<int>, i: int)
    requires
        ids_unique(dir),
        chain(dir, path),
        0 <= i <= path.len(),
    ensures
        i < path.len() ==> ancestor(dir, path.last(), i as nat) == Some(path[path.len() - 1 - i]),
        i == path.len() ==> ancestor(dir, path.last(), i as nat) is None,
    decreases i,
{
    let n = path.len() as int;
    if i > 0 {
        lemma_chain_ancestor(dir, path, i - 1);
        let a = path[n - i];
        if i < n {
            lemma_node_index_of(dir, path[n - 1 - i], dir.len() as int);
            assert(dir[path[n - i]].parent_id == Some(dir[path[n - i - 1]].id));
        } else {
            assert(dir[path[0]].parent_id is None);
        }
    }
}

pub(crate) proof fn lemma_ancestor_none_stays(dir: Seq<AccountNode>, k: int, a: nat, m: nat)
    requires
        a <= m,
        ancestor(dir, k, a) is None,
    ensures
        ancestor(dir, k, m) is None,
    decreases m - a,
{
    if m > a {
        lemma_ancestor_none_stays(dir, k, a, (m - 1) as nat);
    }
}

/// An account on a parent cycle never shows in the tree. When walking up the
/// parent links from account `k` comes back to `k` after `m >= 1` steps, `k`
/// is not among the accounts of the rolled-up tree at any depth: every account
/// of the tree hangs from a root (an account without a parent) by a chain of
/// distinct accounts, and walking up from a cycle never reaches a root.
pub proof fn lemma_cycle_not_shown(dir: Seq<AccountNode>, sums: Seq<(Amount, Amount)>, k: int, m: nat)
    requires
        ids_unique(dir),
        0 <= k < dir.len(),
        m >= 1,
        ancestor(dir, k, m) == Some(k),
    ensures
        !shown(dir, sums, kept_from(dir, sums, sorted_roots(dir), dir.len() as nat), dir.len() as nat, k),
{
    let ks = kept_from(dir, sums, sorted_roots(dir), dir.len() as nat);
    if shown(dir, sums, ks, dir.len() as nat, k) {
        lemma_sorted_roots(dir);
        lemma_kept_with_parent(dir, sums, sorted_roots(dir), dir.len() as nat, None);
        lemma_shown_chain(dir, sums, ks, dir.len() as nat, k, Seq::empty());
        let path = choose|path: Seq<int>| chain(dir, path) && path.last() == k;
        let n = path.len() as int;
        if m < n {
            lemma_chain_ancestor(dir, path, m as int);
            assert(path[n - 1 - m] == path[n - 1]);
        } else {
            lemma_chain_ancestor(dir, path, n);
            lemma_ancestor_none_stays(dir, k, n as nat, m);
        }
    }
}

/// Some node of `ts`, or within depth `f` of their children, carries account
/// number `num`.
pub open spec fn has_number(ts: Seq<TrialBalanceNode>, f: nat, num: Seq<char>) -> bool
    decreases f, ts.len(),
{
    if ts.len() == 0 {
        false
    } else {
        has_number(ts.drop_last(), f, num) || ts.last().account_number@ == num || (f > 0 && has_number(
            ts.last().children@,
            (f - 1) as nat,
            num,
        ))
    }
}

/// No two accounts share an account number.
pub open spec fn numbers_unique(dir: Seq<AccountNode>) -> bool {
    forall|a: int, b: int|
        0 <= a < dir.len() && 0 <= b < dir.len() && a != b ==> (#[trigger] dir[a]).account_number@
            != (#[trigger] dir[b]).account_number@
}

/// A node built for the accounts `ks` carries an account number only when an
/// account shown from `ks` has it.
proof fn lemma_number_shown(
    dir: Seq<AccountNode>,
    sums: Seq<(Amount, Amount)>,
    ts: Seq<TrialBalanceNode>,
    ks: Seq<int>,
    f: nat,
    num: Seq<char>,
)
    requires
        ts.len() == ks.len(),
        forall|j: int| 0 <= j < ks.len() ==> node_matches(#[trigger] ts[j], dir, sums, ks[j], f),
        has_number(ts, f, num),
    ensures
        exists|k: int| shown(dir, sums, ks, f, k) && dir[k].account_number@ == num,
    decreases f, ts.len(),
{
    let n = ts.len() as int;
    let t = ts.last();
    let c = ks.last();
    assert(ts[n - 1] == t && ks[n - 1] == c);
    assert(node_matches(ts[n - 1], dir, sums, ks[n - 1], f));
    if has_number(ts.drop_last(), f, num) {
        assert forall|j: int| 0 <= j < ks.drop_last().len() implies node_matches(
            #[trigger] ts.drop_last()[j],
            dir,
            sums,
            ks.drop_last()[j],
            f,
        ) by {
            assert(ts.drop_last()[j] == ts[j] && ks.drop_last()[j] == ks[j]);
        }
        lemma_number_shown(dir, sums, ts.drop_last(), ks.drop_last(), f, num);
        let k = choose|k: int| shown(dir, sums, ks.drop_last(), f, k) && dir[k].account_number@ == num;
        assert(shown(dir, sums, ks, f, k));
    } else if t.account_number@ == num {
        assert(shown(dir, sums, ks, f, c));
    } else {
        let f1 = (f - 1) as nat;
        let kids = kept_from(dir, sums, sorted_children(dir, c), f1);
        assert(t.children.len() == kids.len());
        assert forall|j: int| 0 <= j < kids.len() implies node_matches(#[trigger] t.children@[j], dir, sums, kids[j], f1) by {
        }
        lemma_number_shown(dir, sums, t.children@, kids, f1, num);
        let k = choose|k: int| shown(dir, sums, kids, f1, k) && dir[k].account_number@ == num;
        assert(shown(dir, sums, ks, f, k));
    }
}

/// No node of the returned tree, at any depth, stands for an account on a
/// parent cycle. For a tree as [`trial_balance_tree`] returns it (over
/// accounts with unique ids and unique numbers), when walking up the parent
/// links from account `k` comes back to `k` after `m >= 1` steps, no node
/// carries `k`'s account number.
pub proof fn lemma_cycle_not_in_tree(
    dir: Seq<AccountNode>,
    sums: Seq<(Amount, Amount)>,
    t: Seq<TrialBalanceNode>,
    k: int,
    m: nat,
)
    requires
        ids_unique(dir),
        numbers_unique(dir),
        0 <= k < dir.len(),
        m >= 1,
        ancestor(dir, k, m) == Some(k),
        t.len() == kept_from(dir, sums, sorted_roots(dir), dir.len() as nat).len(),
        forall|j: int|
            0 <= j < t.len() ==> node_matches(
                #[trigger] t[j],
                dir,
                sums,
                kept_from(dir, sums, sorted_roots(dir), dir.len() as nat)[j],
                dir.len() as nat,
            ),
    ensures
        !has_number(t, dir.len() as nat, dir[k].account_number@),
{
    let ks = kept_from(dir, sums, sorted_roots(dir), dir.len() as nat);
    lemma_cycle_not_shown(dir, sums, k, m);
    if has_number(t, dir.len() as nat, dir[k].account_number@) {
        lemma_number_shown(dir, sums, t, ks, dir.len() as nat, dir[k].account_number@);
        let k2 = choose|k2: int| shown(dir, sums, ks, dir.len() as nat, k2) && dir[k2].account_number@ == dir[k].account_number@;
        lemma_sorted_roots(dir);
        lemma_kept_with_parent(dir, sums, sorted_roots(dir), dir.len() as nat, None);
        lemma_shown_chain(dir, sums, ks, dir.len() as nat, k2, Seq::empty());
        let path = choose|path: Seq<int>| chain(dir, path) && path.last() == k2;
        assert(0 <= path[path.len() - 1] < dir.len());
        assert(k2 == k);
    }
}

} // verus!
