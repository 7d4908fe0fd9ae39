//! Installing a registered chart of accounts into a company: the account rows
//! derived from a validated dataset, the overlap gate, and the install report.
//!
//! Every row id is deterministic: the version-5 uuid, in the URL namespace,
//! of "account:<company>:<chart>:<code>", so that re-installing is an
//! idempotent upsert. A row's level is its depth below a root, its path the
//! numbers from its root joined by "/", and it is a header exactly when some
//! account of the dataset names it as parent. An existing account that
//! collides on number or code is accepted only when it is this chart's own
//! row; every other collision is reported.

use crate::chart_dataset::{account_sound, dataset_valid, parent_known, ChartAccountDef, ChartDataset, DatasetError};
use crate::ids::{uuid_hyphenated, with_uuid};
use crate::text::{clone_opt, str_eq};
use uuid::Uuid;
use vstd::prelude::*;

verus! {

/// Summary of one registered chart, for the listing endpoint.
#[derive(Debug, Clone)]
pub struct ChartInfo {
    pub code: String,
    pub version: String,
    pub name: String,
    pub accounts: usize,
}

/// The registered charts, in registration order.
pub fn list_charts(datasets: &Vec<ChartDataset>) -> (r: Vec<ChartInfo>)
    ensures
        r.len() == datasets.len(),
        forall|i: int| 0 <= i < r.len() ==> {
            &&& (#[trigger] r@[i]).code@ == datasets@[i].code@
            &&& r@[i].version@ == datasets@[i].version@
            &&& r@[i].name@ == datasets@[i].name@
            &&& r@[i].accounts == datasets@[i].accounts.len()
        },
{
    let mut out: Vec<ChartInfo> = Vec::new();
    let mut i: usize = 0;
    while i < datasets.len()
        invariant
            i <= datasets.len(),
            out.len() == i,
            forall|k: int| 0 <= k < i ==> {
                &&& (#[trigger] out@[k]).code@ == datasets@[k].code@
                &&& out@[k].version@ == datasets@[k].version@
                &&& out@[k].name@ == datasets@[k].name@
                &&& out@[k].accounts == datasets@[k].accounts.len()
            },
        decreases datasets.len() - i,
    {
        let ds = &datasets[i];
        out.push(ChartInfo {
            code: ds.code.clone(),
            version: ds.version.clone(),
            name: ds.name.clone(),
            accounts: ds.accounts.len(),
        });
        i = i + 1;
    }
    out
}

/// What `Uuid::new_v5(&Uuid::NAMESPACE_URL, name.as_bytes())` gives.
pub uninterp spec fn uuid_v5_url(name: Seq<char>) -> u128;

/// Calls `Uuid::new_v5` in the URL namespace on the UTF-8 bytes of `name`.
/// The uuid is named (`uuid_v5_url`), not stated.
#[verifier::external_body]
fn v5_url(name: &str) -> (r: u128)
    ensures
        r == uuid_v5_url(name@),
{
    Uuid::new_v5(&Uuid::NAMESPACE_URL, name.as_bytes()).as_u128()
}

/// The name hashed into a row id.
pub open spec fn id_name(company_id: u128, chart_code: Seq<char>, account_code: Seq<char>) -> Seq<char> {
    "account:"@ + uuid_hyphenated(company_id) + ":"@ + chart_code + ":"@ + account_code
}

/// The deterministic id of one dataset row, stable across reinstalls and
/// versions.
pub fn deterministic_id(company_id: u128, chart_code: &str, account_code: &str) -> (r: u128)
    ensures
        r == uuid_v5_url(id_name(company_id, chart_code@, account_code@)),
{
    let mut name = with_uuid("account:", company_id);
    name.append(":");
    name.append(chart_code);
    name.append(":");
    name.append(account_code);
    v5_url(name.as_str())
}

/// One account row to upsert.
#[derive(Debug, Clone)]
pub struct ChartAccountRow {
    pub id: u128,
    pub company_id: u128,
    pub def: ChartAccountDef,
    pub parent_id: Option<u128>,
    pub level: i32,
    pub path: String,
    pub is_header: bool,
    pub is_detail: bool,
    pub chart_code: String,
    pub chart_version: String,
}

/// The last index before `j` whose account has code `code`.
pub open spec fn last_code_index(a: Seq<ChartAccountDef>, code: Seq<char>, j: int) -> Option<int>
    decreases j,
{
    if j <= 0 {
        None
    } else if a[j - 1].code@ == code {
        Some(j - 1)
    } else {
        last_code_index(a, code, j - 1)
    }
}

pub proof fn lemma_last_code_index(a: Seq<ChartAccountDef>, code: Seq<char>, j: int)
    ensures
        last_code_index(a, code, j) matches Some(k) ==> 0 <= k < j && a[k].code@ == code,
    decreases j,
{
    if j > 0 && a[j - 1].code@ != code {
        lemma_last_code_index(a, code, j - 1);
    }
}

/// Every parent is the code of an account earlier in the list.
pub open spec fn parents_before(a: Seq<ChartAccountDef>) -> bool {
    forall|i: int| 0 <= i < a.len() && (#[trigger] a[i]).parent_code is Some ==> last_code_index(
        a,
        a[i].parent_code.unwrap()@,
        i,
    ) is Some
}

proof fn lemma_code_found(a: Seq<ChartAccountDef>, code: Seq<char>, j: int, k: int)
    requires
        0 <= k < j <= a.len(),
        a[k].code@ == code,
    ensures
        last_code_index(a, code, j) is Some,
    decreases j,
{
    if a[j - 1].code@ != code {
        lemma_code_found(a, code, j - 1, k);
    }
}

/// A dataset whose every parent names an account strictly before it (as a
/// dataset that passes [`crate::chart_dataset::validate_dataset`] does) lists
/// parents first, which is what deriving its rows needs.
pub proof fn lemma_validated_parents_before(a: Seq<ChartAccountDef>)
    requires
        forall|i: int| 0 <= i < a.len() ==> #[trigger] parent_known(a, i),
    ensures
        parents_before(a),
{
    assert forall|i: int| 0 <= i < a.len() && (#[trigger] a[i]).parent_code is Some implies last_code_index(
        a,
        a[i].parent_code.unwrap()@,
        i,
    ) is Some by {
        assert(parent_known(a, i));
        let p = a[i].parent_code.unwrap();
        let k = choose|k: int| 0 <= k < i && (#[trigger] a[k]).code@ == p@;
        lemma_code_found(a, p@, i, k);
    }
}

/// The index of the parent of account `i`: the latest earlier account with
/// the parent's code.
pub open spec fn parent_of(a: Seq<ChartAccountDef>, i: int) -> Option<int> {
    match a[i].parent_code {
        None => None,
        Some(p) => last_code_index(a, p@, i),
    }
}

/// The depth of account `i` below its root.
pub open spec fn row_level(a: Seq<ChartAccountDef>, i: int) -> int
    decreases i,
{
    if i < 0 || i >= a.len() {
        0
    } else {
        match parent_of(a, i) {
            None => 0,
            Some(j) => {
                proof {
                    lemma_last_code_index(a, a[i].parent_code.unwrap()@, i);
                }
                row_level(a, j) + 1
            },
        }
    }
}

/// The numbers from the root of account `i` down to it, joined by "/".
pub open spec fn row_path(a: Seq<ChartAccountDef>, i: int) -> Seq<char>
    decreases i,
{
    if i < 0 || i >= a.len() {
        Seq::empty()
    } else {
        match parent_of(a, i) {
            None => a[i].number@,
            Some(j) => {
                proof {
                    lemma_last_code_index(a, a[i].parent_code.unwrap()@, i);
                }
                row_path(a, j) + "/"@ + a[i].number@
            },
        }
    }
}

/// Some account names `code` as its parent.
pub open spec fn is_parent_code(a: Seq<ChartAccountDef>, code: Seq<char>) -> bool {
    exists|k: int| 0 <= k < a.len() && ((#[trigger] a[k]).parent_code matches Some(p) && p@ == code)
}

fn copy_def(d: &ChartAccountDef) -> (r: ChartAccountDef)
    ensures
        r == *d,
{
    ChartAccountDef {
        number: d.number.clone(),
        code: d.code.clone(),
        name: d.name.clone(),
        account_type: d.account_type,
        account_subtype: d.account_subtype,
        normal_balance: d.normal_balance,
        parent_code: clone_opt(&d.parent_code),
        is_reconcilable: d.is_reconcilable,
        currency: d.currency.clone(),
        sort_order: d.sort_order,
    }
}

fn names_parent(a: &Vec<ChartAccountDef>, code: &str) -> (r: bool)
    ensures
        r == is_parent_code(a@, code@),
{
    let mut k: usize = 0;
    while k < a.len()
        invariant
            k <= a.len(),
            forall|j: int| 0 <= j < k ==> !((#[trigger] a@[j]).parent_code matches Some(p) && p@ == code@),
        decreases a.len() - k,
    {
        match &a[k].parent_code {
            Some(p) => {
                if str_eq(p.as_str(), code) {
                    return true;
                }
            },
            None => {},
        }
        k = k + 1;
    }
    false
}

/// The row an account derives into.
pub open spec fn row_of(company_id: u128, ds_code: Seq<char>, ds_version: Seq<char>, a: Seq<ChartAccountDef>, i: int, r: ChartAccountRow) -> bool {
    &&& r.id == uuid_v5_url(id_name(company_id, ds_code, a[i].code@))
    &&& r.company_id == company_id
    &&& r.def == a[i]
    &&& r.parent_id == match a[i].parent_code {
        None => None,
        Some(p) => Some(uuid_v5_url(id_name(company_id, ds_code, p@))),
    }
    &&& r.level == row_level(a, i)
    &&& r.path@ == row_path(a, i)
    &&& r.is_header == is_parent_code(a, a[i].code@)
    &&& r.is_detail == !r.is_header
    &&& r.chart_code@ == ds_code
    &&& r.chart_version@ == ds_version
}

proof fn lemma_level_bound(a: Seq<ChartAccountDef>, i: int)
    ensures
        0 <= row_level(a, i) <= if i < 0 { 0 } else { i },
    decreases i,
{
    if 0 <= i < a.len() {
        if let Some(j) = parent_of(a, i) {
            lemma_last_code_index(a, a[i].parent_code.unwrap()@, i);
            lemma_level_bound(a, j);
        }
    }
}

fn find_parent(a: &Vec<ChartAccountDef>, i: usize, p: &String) -> (j: usize)
    requires
        i < a.len(),
        parents_before(a@),
        a@[i as int].parent_code == Some(*p),
    ensures
        j < i,
        parent_of(a@, i as int) == Some(j as int),
{
    assert(last_code_index(a@, p@, i as int) is Some);
    let mut k: usize = i;
    while k > 0 && !str_eq(a[k - 1].code.as_str(), p.as_str())
        invariant
            k <= i < a.len(),
            last_code_index(a@, p@, i as int) == last_code_index(a@, p@, k as int),
            last_code_index(a@, p@, i as int) is Some,
        decreases k,
    {
        k = k - 1;
    }
    proof {
        lemma_last_code_index(a@, p@, k as int);
    }
    k - 1
}

proof fn lemma_row_unfold(a: Seq<ChartAccountDef>, i: int, j: int)
    requires
        0 <= j < i < a.len(),
        parent_of(a, i) == Some(j),
    ensures
        row_level(a, i) == row_level(a, j) + 1,
        row_path(a, i) == row_path(a, j) + "/"@ + a[i].number@,
{
}

proof fn lemma_row_root(a: Seq<ChartAccountDef>, i: int)
    requires
        0 <= i < a.len(),
        a[i].parent_code is None,
    ensures
        row_level(a, i) == 0,
        row_path(a, i) == a[i].number@,
{
}

fn derive_one(company_id: u128, ds: &ChartDataset, rows: &Vec<ChartAccountRow>, i: usize) -> (r: ChartAccountRow)
    requires
        i < ds.accounts.len() < i32::MAX,
        parents_before(ds.accounts@),
        rows.len() == i,
        forall|k: int| 0 <= k < i ==> row_of(company_id, ds.code@, ds.version@, ds.accounts@, k, #[trigger] rows@[k]),
    ensures
        row_of(company_id, ds.code@, ds.version@, ds.accounts@, i as int, r),
{
    let a = &ds.accounts;
    let def = &a[i];
    let (level, path, parent_id): (i32, String, Option<u128>) = match &def.parent_code {
        None => {
            proof {
                lemma_row_root(a@, i as int);
            }
            (0, def.number.clone(), None)
        },
        Some(p) => {
            let j = find_parent(a, i, p);
            proof {
                lemma_level_bound(a@, j as int);
                lemma_row_unfold(a@, i as int, j as int);
                reveal_strlit("/");
            }
            let parent_row = &rows[j];
            assert(row_of(company_id, ds.code@, ds.version@, a@, j as int, rows@[j as int]));
            let mut path = parent_row.path.clone();
            path.append("/");
            path.append(def.number.as_str());
            (parent_row.level + 1, path, Some(deterministic_id(company_id, ds.code.as_str(), p.as_str())))
        },
    };
    let is_header = names_parent(a, def.code.as_str());
    ChartAccountRow {
        id: deterministic_id(company_id, ds.code.as_str(), def.code.as_str()),
        company_id,
        def: copy_def(def),
        parent_id,
        level,
        path,
        is_header,
        is_detail: !is_header,
        chart_code: ds.code.clone(),
        chart_version: ds.version.clone(),
    }
}

/// A dataset that passes the checks derives its rows without fault: it is
/// valid, so every parent comes before its children, which is what
/// [`derive_rows`] asks of it beyond a size that fits `i32`.
pub proof fn lemma_valid_dataset_derives(a: Seq<ChartAccountDef>)
    requires
        dataset_valid(a),
    ensures
        parents_before(a),
{
    assert forall|i: int| 0 <= i < a.len() implies #[trigger] parent_known(a, i) by {
        assert(account_sound(a, i));
    }
    lemma_validated_parents_before(a);
}

/// The account rows of a validated dataset, in dataset order: each with its
/// deterministic id and its parent's, its level and path, and whether it is a
/// header. Since the dataset lists parents first, every row's parent is an
/// earlier row.
pub fn derive_rows(company_id: u128, ds: &ChartDataset) -> (r: Vec<ChartAccountRow>)
    requires
        parents_before(ds.accounts@),
        ds.accounts.len() < i32::MAX,
    ensures
        r.len() == ds.accounts.len(),
        forall|i: int| 0 <= i < r.len() ==> row_of(company_id, ds.code@, ds.version@, ds.accounts@, i, #[trigger] r@[i]),
{
    let mut rows: Vec<ChartAccountRow> = Vec::new();
    let mut i: usize = 0;
    while i < ds.accounts.len()
        invariant
            i <= ds.accounts.len() < i32::MAX,
            parents_before(ds.accounts@),
            rows.len() == i,
            forall|k: int| 0 <= k < i ==> row_of(company_id, ds.code@, ds.version@, ds.accounts@, k, #[trigger] rows@[k]),
        decreases ds.accounts.len() - i,
    {
        let row = derive_one(company_id, ds, &rows, i);
        rows.push(row);
        i = i + 1;
    }
    rows
}

/// Parents first: the parent id of every derived row is the id of an
/// earlier row.
pub proof fn lemma_parent_rows_earlier(company_id: u128, ds_code: Seq<char>, ds_version: Seq<char>, a: Seq<ChartAccountDef>, rows: Seq<ChartAccountRow>)
    requires
        parents_before(a),
        rows.len() == a.len(),
        forall|i: int| 0 <= i < rows.len() ==> row_of(company_id, ds_code, ds_version, a, i, #[trigger] rows[i]),
    ensures
        forall|i: int| 0 <= i < rows.len() && (#[trigger] rows[i]).parent_id is Some ==> exists|j: int| 0 <= j < i
            && rows[i].parent_id == Some(#[trigger] rows[j].id),
{
    assert forall|i: int| 0 <= i < rows.len() && (#[trigger] rows[i]).parent_id is Some implies exists|j: int| 0 <= j < i
        && rows[i].parent_id == Some(#[trigger] rows[j].id) by {
        assert(row_of(company_id, ds_code, ds_version, a, i, rows[i]));
        let p = a[i].parent_code.unwrap();
        assert(last_code_index(a, p@, i) is Some);
        lemma_last_code_index(a, p@, i);
        let j = last_code_index(a, p@, i).unwrap();
        assert(row_of(company_id, ds_code, ds_version, a, j, rows[j]));
        assert(rows[j].id == uuid_v5_url(id_name(company_id, ds_code, a[j].code@)));
    }
}

/// An existing non-deleted account that collides with the dataset on number
/// or code.
#[derive(Debug, Clone)]
pub struct OverlapRow {
    pub id: u128,
    pub account_number: String,
    pub account_code: String,
    pub chart_code: Option<String>,
}

/// An overlap is this chart's own row: one of the rows to install has its
/// number (or its code) and its id, and it carries this chart's code.
pub open spec fn is_own(rows: Seq<ChartAccountRow>, o: OverlapRow, chart_code: Seq<char>) -> bool {
    &&& o.chart_code matches Some(c) && c@ == chart_code
    &&& exists|k: int| 0 <= k < rows.len() && (#[trigger] rows[k]).id == o.id && (rows[k].def.number@
        == o.account_number@ || rows[k].def.code@ == o.account_code@)
}

fn own_row(rows: &Vec<ChartAccountRow>, o: &OverlapRow, chart_code: &str) -> (r: bool)
    ensures
        r == is_own(rows@, *o, chart_code@),
{
    let ours_chart = match &o.chart_code {
        Some(c) => str_eq(c.as_str(), chart_code),
        None => false,
    };
    if !ours_chart {
        return false;
    }
    let mut k: usize = 0;
    while k < rows.len()
        invariant
            k <= rows.len(),
            o.chart_code matches Some(c) && c@ == chart_code@,
            forall|j: int| 0 <= j < k ==> !((#[trigger] rows@[j]).id == o.id && (rows@[j].def.number@
                == o.account_number@ || rows@[j].def.code@ == o.account_code@)),
        decreases rows.len() - k,
    {
        let r = &rows[k];
        if r.id == o.id && (str_eq(r.def.number.as_str(), o.account_number.as_str()) || str_eq(
            r.def.code.as_str(),
            o.account_code.as_str(),
        )) {
            assert(rows@[k as int].id == o.id && (rows@[k as int].def.number@ == o.account_number@
                || rows@[k as int].def.code@ == o.account_code@));
            assert(o.chart_code matches Some(c) && c@ == chart_code@);
            assert(exists|k: int| 0 <= k < rows.len() && (#[trigger] rows@[k]).id == o.id && (rows@[k].def.number@
                == o.account_number@ || rows@[k].def.code@ == o.account_code@));
            return true;
        }
        k = k + 1;
    }
    false
}

/// The (number, code) pairs of the overlaps that are not this chart's own
/// rows, in order.
pub open spec fn blocking(rows: Seq<ChartAccountRow>, overlaps: Seq<OverlapRow>, chart_code: Seq<char>) -> Seq<(Seq<char>, Seq<char>)>
    decreases overlaps.len(),
{
    if overlaps.len() == 0 {
        Seq::empty()
    } else if is_own(rows, overlaps.last(), chart_code) {
        blocking(rows, overlaps.drop_last(), chart_code)
    } else {
        blocking(rows, overlaps.drop_last(), chart_code).push((overlaps.last().account_number@, overlaps.last().account_code@))
    }
}

/// Re-installing a chart over the rows it installed is no conflict: when
/// every overlapping account is one of this chart's rows to install (its id,
/// its number, its code and this chart's code), nothing blocks the install;
/// and an overlap that is none of them always does.
pub proof fn lemma_reinstall_unblocked(rows: Seq<ChartAccountRow>, overlaps: Seq<OverlapRow>, chart_code: Seq<char>)
    ensures
        (forall|i: int| 0 <= i < overlaps.len() ==> exists|k: int| 0 <= k < rows.len() && {
            &&& (#[trigger] rows[k]).id == (#[trigger] overlaps[i]).id
            &&& rows[k].def.number@ == overlaps[i].account_number@
            &&& overlaps[i].chart_code matches Some(c) && c@ == chart_code
        }) ==> blocking(rows, overlaps, chart_code).len() == 0,
        forall|i: int| 0 <= i < overlaps.len() && !is_own(rows, #[trigger] overlaps[i], chart_code) ==> blocking(
            rows,
            overlaps,
            chart_code,
        ).contains((overlaps[i].account_number@, overlaps[i].account_code@)),
    decreases overlaps.len(),
{
    if overlaps.len() > 0 {
        let p = overlaps.drop_last();
        lemma_reinstall_unblocked(rows, p, chart_code);
        let o = overlaps.last();
        let b = blocking(rows, overlaps, chart_code);
        let bp = blocking(rows, p, chart_code);
        if forall|i: int| 0 <= i < overlaps.len() ==> exists|k: int| 0 <= k < rows.len() && {
            &&& (#[trigger] rows[k]).id == (#[trigger] overlaps[i]).id
            &&& rows[k].def.number@ == overlaps[i].account_number@
            &&& overlaps[i].chart_code matches Some(c) && c@ == chart_code
        } {
            assert forall|i: int| 0 <= i < p.len() implies exists|k: int| 0 <= k < rows.len() && {
                &&& (#[trigger] rows[k]).id == (#[trigger] p[i]).id
                &&& rows[k].def.number@ == p[i].account_number@
                &&& p[i].chart_code matches Some(c) && c@ == chart_code
            } by {
                assert(p[i] == overlaps[i]);
            }
            assert(overlaps[overlaps.len() - 1] == o);
            let k = choose|k: int| 0 <= k < rows.len() && {
                &&& (#[trigger] rows[k]).id == o.id
                &&& rows[k].def.number@ == o.account_number@
                &&& o.chart_code matches Some(c) && c@ == chart_code
            };
            assert(is_own(rows, o, chart_code));
        }
        assert forall|i: int| 0 <= i < overlaps.len() && !is_own(rows, #[trigger] overlaps[i], chart_code) implies b.contains(
            (overlaps[i].account_number@, overlaps[i].account_code@),
        ) by {
            if i < p.len() {
                assert(p[i] == overlaps[i]);
                assert(bp.contains((p[i].account_number@, p[i].account_code@)));
                if !is_own(rows, o, chart_code) {
                    let q = choose|q: int| 0 <= q < bp.len() && bp[q] == (p[i].account_number@, p[i].account_code@);
                    assert(b[q] == bp[q]);
                }
            } else {
                assert(overlaps[i] == o);
                assert(b[bp.len() as int] == (o.account_number@, o.account_code@));
            }
        }
    }
}

pub open spec fn pair_views(v: Seq<(String, String)>) -> Seq<(Seq<char>, Seq<char>)> {
    v.map_values(|p: (String, String)| (p.0@, p.1@))
}

pub open spec fn string_views(v: Seq<String>) -> Seq<Seq<char>> {
    v.map_values(|s: String| s@)
}

pub open spec fn dataset_codes(v: Seq<ChartDataset>) -> Seq<Seq<char>> {
    v.map_values(|d: ChartDataset| d.code@)
}

pub open spec fn id_pairs(v: Seq<(String, u128)>) -> Seq<(Seq<char>, u128)> {
    v.map_values(|p: (String, u128)| (p.0@, p.1))
}

pub open spec fn row_ids(v: Seq<ChartAccountRow>) -> Seq<(Seq<char>, u128)> {
    v.map_values(|row: ChartAccountRow| (row.def.code@, row.id))
}

/// The overlaps that block an install, as (number, code): every overlap that
/// is not this chart's own row, in order.
pub fn conflicts(rows: &Vec<ChartAccountRow>, overlaps: &Vec<OverlapRow>, chart_code: &str) -> (r: Vec<(String, String)>)
    ensures
        pair_views(r@) == blocking(rows@, overlaps@, chart_code@),
{
    let mut out: Vec<(String, String)> = Vec::new();
    let mut i: usize = 0;
    while i < overlaps.len()
        invariant
            i <= overlaps.len(),
            pair_views(out@) == blocking(rows@, overlaps@.take(i as int), chart_code@),
        decreases overlaps.len() - i,
    {
        let o = &overlaps[i];
        proof {
            assert(overlaps@.take(i + 1).drop_last() =~= overlaps@.take(i as int));
        }
        if !own_row(rows, o, chart_code) {
            out.push((o.account_number.clone(), o.account_code.clone()));
        }
        proof {
            assert(overlaps@.take(i + 1) =~= overlaps@.take(i as int).push(*o));
            assert(pair_views(out@) =~= blocking(rows@, overlaps@.take(i + 1), chart_code@));
        }
        i = i + 1;
    }
    proof {
        assert(overlaps@.take(overlaps.len() as int) =~= overlaps@);
    }
    out
}

/// The index of the first registered dataset with code `code`.
pub open spec fn find_chart_spec(datasets: Seq<ChartDataset>, code: Seq<char>, i: int) -> Option<int>
    decreases datasets.len() - i,
{
    if i < 0 || i >= datasets.len() {
        None
    } else if datasets[i].code@ == code {
        Some(i)
    } else {
        find_chart_spec(datasets, code, i + 1)
    }
}

/// The first registered dataset with code `code`, by index.
pub fn find_chart(datasets: &Vec<ChartDataset>, code: &str) -> (r: Option<usize>)
    ensures
        (match r {
            Some(i) => Some(i as int),
            None => None,
        }) == find_chart_spec(datasets@, code@, 0),
{
    let mut i: usize = 0;
    while i < datasets.len()
        invariant
            i <= datasets.len(),
            find_chart_spec(datasets@, code@, 0) == find_chart_spec(datasets@, code@, i as int),
        decreases datasets.len() - i,
    {
        if str_eq(datasets[i].code.as_str(), code) {
            return Some(i);
        }
        i = i + 1;
    }
    None
}

/// The codes of the registered datasets, in order (named by an unknown-chart
/// refusal).
pub fn registered_codes(datasets: &Vec<ChartDataset>) -> (r: Vec<String>)
    ensures
        string_views(r@) == dataset_codes(datasets@),
{
    let mut out: Vec<String> = Vec::new();
    let mut i: usize = 0;
    while i < datasets.len()
        invariant
            i <= datasets.len(),
            string_views(out@) == dataset_codes(datasets@.take(i as int)),
        decreases datasets.len() - i,
    {
        let ghost before = out@;
        let c = datasets[i].code.clone();
        out.push(c);
        proof {
            assert(datasets@.take(i + 1) =~= datasets@.take(i as int).push(datasets@[i as int]));
            assert(string_views(out@) =~= string_views(before).push(c@));
            assert(dataset_codes(datasets@.take(i + 1)) =~= dataset_codes(datasets@.take(i as int)).push(datasets@[i as int].code@));
            assert(string_views(out@) =~= dataset_codes(datasets@.take(i + 1)));
        }
        i = i + 1;
    }
    proof {
        assert(datasets@.take(datasets.len() as int) =~= datasets@);
    }
    out
}

/// Install refusals and failures.
#[derive(Debug, Clone)]
pub enum ChartInstallError {
    /// The chart code and the company that already has journal entries.
    ChartHasPostings(String, u128),
    /// The chart code and the colliding (number, code) pairs.
    AccountNumberConflict(String, Vec<(String, String)>),
    /// The unknown code and the registered ones.
    UnknownChart(String, Vec<String>),
    /// The dataset code and why it is invalid.
    InvalidDataset(String, DatasetError),
    /// A storage failure, with its message.
    Db(String),
    /// A transaction failure, with its message.
    Tx(String),
}

/// What upserting one row did.
#[derive(Debug, Clone, Copy, PartialEq, Eq, Structural)]
pub enum UpsertOutcome {
    Inserted,
    Updated,
    Resurrected,
}

/// How many of the first `n` outcomes are `o`.
pub open spec fn count_outcome(outcomes: Seq<UpsertOutcome>, o: UpsertOutcome, n: int) -> nat
    decreases n,
{
    if n <= 0 {
        0
    } else {
        count_outcome(outcomes, o, n - 1) + if outcomes[n - 1] == o {
            1nat
        } else {
            0nat
        }
    }
}

/// The counts of inserted, updated and resurrected rows.
pub fn tally(outcomes: &Vec<UpsertOutcome>) -> (r: (usize, usize, usize))
    ensures
        r.0 == count_outcome(outcomes@, UpsertOutcome::Inserted, outcomes.len() as int),
        r.1 == count_outcome(outcomes@, UpsertOutcome::Updated, outcomes.len() as int),
        r.2 == count_outcome(outcomes@, UpsertOutcome::Resurrected, outcomes.len() as int),
        r.0 + r.1 + r.2 == outcomes.len(),
{
    let mut a: usize = 0;
    let mut b: usize = 0;
    let mut c: usize = 0;
    let mut i: usize = 0;
    while i < outcomes.len()
        invariant
            i <= outcomes.len(),
            a == count_outcome(outcomes@, UpsertOutcome::Inserted, i as int),
            b == count_outcome(outcomes@, UpsertOutcome::Updated, i as int),
            c == count_outcome(outcomes@, UpsertOutcome::Resurrected, i as int),
            a + b + c == i,
        decreases outcomes.len() - i,
    {
        match outcomes[i] {
            UpsertOutcome::Inserted => {
                a = a + 1;
            },
            UpsertOutcome::Updated => {
                b = b + 1;
            },
            UpsertOutcome::Resurrected => {
                c = c + 1;
            },
        }
        i = i + 1;
    }
    (a, b, c)
}

/// What an install did.
#[derive(Debug, Clone)]
pub struct InstallReport {
    pub chart_code: String,
    pub chart_version: String,
    pub company_id: u128,
    pub accounts_installed: usize,
    pub accounts_updated: usize,
    pub accounts_resurrected: usize,
    /// (account code, account id) of every installed row, in dataset order.
    pub account_ids: Vec<(String, u128)>,
}

/// The report of an install: the counts of the upsert outcomes and each
/// row's code and id.
pub fn install_report(ds: &ChartDataset, company_id: u128, rows: &Vec<ChartAccountRow>, outcomes: &Vec<UpsertOutcome>) -> (r: InstallReport)
    ensures
        r.chart_code@ == ds.code@,
        r.chart_version@ == ds.version@,
        r.company_id == company_id,
        r.accounts_installed == count_outcome(outcomes@, UpsertOutcome::Inserted, outcomes.len() as int),
        r.accounts_updated == count_outcome(outcomes@, UpsertOutcome::Updated, outcomes.len() as int),
        r.accounts_resurrected == count_outcome(outcomes@, UpsertOutcome::Resurrected, outcomes.len() as int),
        id_pairs(r.account_ids@) == row_ids(rows@),
{
    let (a, b, c) = tally(outcomes);
    let mut ids: Vec<(String, u128)> = Vec::new();
    let mut i: usize = 0;
    while i < rows.len()
        invariant
            i <= rows.len(),
            id_pairs(ids@) == row_ids(rows@.take(i as int)),
        decreases rows.len() - i,
    {
        let ghost before = ids@;
        let c = rows[i].def.code.clone();
        ids.push((c, rows[i].id));
        proof {
            assert(rows@.take(i + 1) =~= rows@.take(i as int).push(rows@[i as int]));
            assert(id_pairs(ids@) =~= id_pairs(before).push((c@, rows@[i as int].id)));
            assert(row_ids(rows@.take(i + 1)) =~= row_ids(rows@.take(i as int)).push((rows@[i as int].def.code@, rows@[i as int].id)));
            assert(id_pairs(ids@) =~= row_ids(rows@.take(i + 1)));
        }
        i = i + 1;
    }
    proof {
        assert(rows@.take(rows.len() as int) =~= rows@);
    }
    InstallReport {
        chart_code: ds.code.clone(),
        chart_version: ds.version.clone(),
        company_id,
        accounts_installed: a,
        accounts_updated: b,
        accounts_resurrected: c,
        account_ids: ids,
    }
}

} // verus!
