//! Tax-tag repair after a legal change: the guards of the officer verb that
//! re-tags already posted journal lines inside a date window.
//!
//! A run is refused, in this order, when its justification is blank, its
//! window is inverted, it has no rules, or a rule has no selector or no tags;
//! then when the window overlaps a locked fiscal period, or a closed one
//! without the explicit override. The tags a rule writes are its tag list with
//! repeats dropped, first occurrence kept. The caller applies the rules in
//! storage and records the audit row.

use crate::text::{chars_of, ostr, string_from, trim, trim_chars};
use vstd::prelude::*;

verus! {

/// One re-assignment rule: which posted lines it selects, and the tag set
/// those lines must carry afterwards. At least one selector must be set.
#[derive(Debug, Clone)]
pub struct TaxTagRule {
    /// Restrict to lines posted on this GL account (None = any).
    pub account_id: Option<u128>,
    /// Restrict to tax lines (true) / base lines (false) (None = any).
    pub is_tax_line: Option<bool>,
    /// The tax-report tag identifiers the selected lines must carry.
    pub tags: Vec<String>,
}

#[derive(Debug, Clone)]
pub struct RepairRequest {
    pub company_id: u128,
    /// Days since 0001-01-01 (day 1 is that date).
    pub date_from: i32,
    pub date_to: i32,
    pub rules: Vec<TaxTagRule>,
    /// Explicit override for windows overlapping closed fiscal periods.
    pub allow_closed_periods: bool,
    /// Count and report without writing.
    pub dry_run: bool,
    /// The officer running the repair.
    pub actor: Option<u128>,
    /// Mandatory legal-change justification.
    pub reason: String,
}

#[derive(Debug, Clone)]
pub struct RuleReport {
    pub account_id: Option<u128>,
    pub is_tax_line: Option<bool>,
    pub tags: Vec<String>,
    pub lines_examined: i64,
    pub lines_retagged: i64,
}

#[derive(Debug, Clone)]
pub struct RepairReport {
    pub run_id: u128,
    pub dry_run: bool,
    pub lines_examined: i64,
    pub lines_retagged: i64,
    pub per_rule: Vec<RuleReport>,
    /// Fiscal periods the run crossed with the override armed.
    pub closed_periods_overridden: Vec<String>,
}

/// Why a repair run was refused.
#[derive(Debug, Clone)]
pub enum TaxTagRepairError {
    /// The justification is empty or whitespace.
    ReasonRequired,
    /// date_from is after date_to.
    WindowInverted,
    /// A rule selects nothing (both selectors unset).
    RuleWithoutSelector(usize),
    /// A rule carries an empty tag set (or there are no rules: index 0).
    RuleWithoutTags(usize),
    /// The window overlaps a locked fiscal period; no override exists.
    LockedPeriodInWindow(Vec<String>),
    /// The window overlaps a closed fiscal period and the override is unset.
    ClosedPeriodRequiresOverride(Vec<String>),
    /// Storage failure.
    Internal(String),
}

impl TaxTagRepairError {
    pub open spec fn code_text(&self) -> Seq<char> {
        match self {
            TaxTagRepairError::ReasonRequired => "reason_required"@,
            TaxTagRepairError::WindowInverted => "window_inverted"@,
            TaxTagRepairError::RuleWithoutSelector(_) => "rule_without_selector"@,
            TaxTagRepairError::RuleWithoutTags(_) => "rule_without_tags"@,
            TaxTagRepairError::LockedPeriodInWindow(_) => "locked_period_in_window"@,
            TaxTagRepairError::ClosedPeriodRequiresOverride(_) => "closed_period_requires_override"@,
            TaxTagRepairError::Internal(_) => "internal_error"@,
        }
    }

    /// The stable machine-readable code of the refusal.
    pub fn code(&self) -> (r: &'static str)
        ensures
            r@ == self.code_text(),
    {
        match self {
            TaxTagRepairError::ReasonRequired => "reason_required",
            TaxTagRepairError::WindowInverted => "window_inverted",
            TaxTagRepairError::RuleWithoutSelector(_) => "rule_without_selector",
            TaxTagRepairError::RuleWithoutTags(_) => "rule_without_tags",
            TaxTagRepairError::LockedPeriodInWindow(_) => "locked_period_in_window",
            TaxTagRepairError::ClosedPeriodRequiresOverride(_) => "closed_period_requires_override",
            TaxTagRepairError::Internal(_) => "internal_error",
        }
    }

    /// 500 for storage failures, 422 for every refusal of the request.
    pub fn http_status(&self) -> (r: u16)
        ensures
            r == (if self is Internal {
                500u16
            } else {
                422u16
            }),
    {
        match self {
            TaxTagRepairError::Internal(_) => 500,
            _ => 422,
        }
    }
}

/// The first rule that is refused: one without a selector, or without tags,
/// checking each rule in order for both.
pub open spec fn first_bad_rule(rules: Seq<TaxTagRule>, i: int) -> Option<(int, bool)>
    decreases rules.len() - i,
{
    if i < 0 || i >= rules.len() {
        None
    } else if rules[i].account_id is None && rules[i].is_tax_line is None {
        Some((i, true))
    } else if rules[i].tags.len() == 0 {
        Some((i, false))
    } else {
        first_bad_rule(rules, i + 1)
    }
}

/// Which refusal a request meets first, before storage is consulted:
/// 1 blank reason, 2 inverted window, 3 no rules, 4 a rule without selector or
/// tags, 0 none.
pub open spec fn request_refusal(req: RepairRequest) -> int {
    if trim(req.reason@).len() == 0 {
        1
    } else if req.date_from > req.date_to {
        2
    } else if req.rules.len() == 0 {
        3
    } else if first_bad_rule(req.rules@, 0) is Some {
        4
    } else {
        0
    }
}

proof fn lemma_first_bad_rule_range(rules: Seq<TaxTagRule>, i: int)
    ensures
        first_bad_rule(rules, i) matches Some((j, _)) ==> 0 <= i <= j < rules.len(),
    decreases rules.len() - i,
{
    if 0 <= i < rules.len() {
        lemma_first_bad_rule_range(rules, i + 1);
    }
}

/// The guards checked before storage is touched, in order: a non-blank
/// reason, a window that is not inverted, at least one rule, and every rule
/// with a selector and tags.
pub fn validate_request(req: &RepairRequest) -> (r: Result<(), TaxTagRepairError>)
    ensures
        request_refusal(*req) == 0 <==> r is Ok,
        request_refusal(*req) == 1 ==> r matches Err(TaxTagRepairError::ReasonRequired),
        request_refusal(*req) == 2 ==> r matches Err(TaxTagRepairError::WindowInverted),
        request_refusal(*req) == 3 ==> r matches Err(TaxTagRepairError::RuleWithoutTags(0)),
        request_refusal(*req) == 4 ==> match first_bad_rule(req.rules@, 0) {
            Some((i, true)) => r matches Err(TaxTagRepairError::RuleWithoutSelector(j)) && j == i,
            Some((i, false)) => r matches Err(TaxTagRepairError::RuleWithoutTags(j)) && j == i,
            None => false,
        },
{
    let reason = chars_of(req.reason.as_str());
    let t = trim_chars(&reason);
    if t.len() == 0 {
        return Err(TaxTagRepairError::ReasonRequired);
    }
    if req.date_from > req.date_to {
        return Err(TaxTagRepairError::WindowInverted);
    }
    if req.rules.len() == 0 {
        return Err(TaxTagRepairError::RuleWithoutTags(0));
    }
    let mut i: usize = 0;
    while i < req.rules.len()
        invariant
            i <= req.rules.len(),
            trim(req.reason@).len() != 0,
            req.date_from <= req.date_to,
            req.rules.len() > 0,
            first_bad_rule(req.rules@, 0) == first_bad_rule(req.rules@, i as int),
        decreases req.rules.len() - i,
    {
        let rule = &req.rules[i];
        if rule.account_id.is_none() && rule.is_tax_line.is_none() {
            return Err(TaxTagRepairError::RuleWithoutSelector(i));
        }
        if rule.tags.len() == 0 {
            return Err(TaxTagRepairError::RuleWithoutTags(i));
        }
        i = i + 1;
    }
    Ok(())
}

/// The lock posture of the window: any overlapping locked period refuses
/// outright; overlapping closed periods refuse unless the override is armed.
pub fn check_lock_posture(locked: Vec<String>, closed: &Vec<String>, allow_closed_periods: bool) -> (r: Result<(), TaxTagRepairError>)
    ensures
        locked.len() > 0 ==> (r matches Err(TaxTagRepairError::LockedPeriodInWindow(p)) && p@ == locked@),
        locked.len() == 0 && closed.len() > 0 && !allow_closed_periods ==> (r matches Err(
            TaxTagRepairError::ClosedPeriodRequiresOverride(p),
        ) && p@ == closed@),
        locked.len() == 0 && (closed.len() == 0 || allow_closed_periods) ==> r is Ok,
{
    if locked.len() > 0 {
        return Err(TaxTagRepairError::LockedPeriodInWindow(locked));
    }
    if closed.len() > 0 && !allow_closed_periods {
        return Err(TaxTagRepairError::ClosedPeriodRequiresOverride(closed.clone()));
    }
    Ok(())
}

/// The views of a list of texts.
pub open spec fn texts(v: Seq<String>) -> Seq<Seq<char>> {
    v.map_values(|s: String| s@)
}

/// `s` with repeats dropped, the first occurrence of each text kept in place.
pub open spec fn dedup(s: Seq<Seq<char>>) -> Seq<Seq<char>>
    decreases s.len(),
{
    if s.len() == 0 {
        Seq::empty()
    } else if s.drop_last().contains(s.last()) {
        dedup(s.drop_last())
    } else {
        dedup(s.drop_last()).push(s.last())
    }
}

/// No text occurs twice in `s`.
pub open spec fn no_repeats(s: Seq<Seq<char>>) -> bool {
    forall|i: int, j: int| 0 <= i < j < s.len() ==> s[i] != s[j]
}

fn contains_text(v: &Vec<String>, t: &String) -> (r: bool)
    ensures
        r == texts(v@).contains(t@),
{
    let mut i: usize = 0;
    while i < v.len()
        invariant
            i <= v.len(),
            forall|k: int| 0 <= k < i ==> v@[k]@ != t@,
        decreases v.len() - i,
    {
        if v[i] == *t {
            assert(texts(v@)[i as int] == t@);
            return true;
        }
        i = i + 1;
    }
    proof {
        if texts(v@).contains(t@) {
            let k = choose|k: int| 0 <= k < texts(v@).len() && texts(v@)[k] == t@;
            assert(v@[k]@ == t@);
        }
    }
    false
}

/// The tags a rule writes: its tag list with repeats dropped, first
/// occurrence kept, order preserved.
pub fn dedup_tags(tags: &Vec<String>) -> (r: Vec<String>)
    ensures
        texts(r@) == dedup(texts(tags@)),
{
    let mut out: Vec<String> = Vec::new();
    let mut i: usize = 0;
    while i < tags.len()
        invariant
            i <= tags.len(),
            texts(out@) == dedup(texts(tags@.take(i as int))),
        decreases tags.len() - i,
    {
        let t = &tags[i];
        proof {
            let s = texts(tags@.take(i + 1));
            assert(s.drop_last() =~= texts(tags@.take(i as int)));
            assert(s.last() == t@);
            lemma_dedup_contains(texts(tags@.take(i as int)), t@);
        }
        if !contains_text(&out, t) {
            out.push(t.clone());
            proof {
                assert(texts(out@) =~= dedup(texts(tags@.take(i as int))).push(t@));
            }
        }
        i = i + 1;
    }
    proof {
        assert(tags@.take(tags.len() as int) =~= tags@);
    }
    out
}

proof fn lemma_push_contains(q: Seq<Seq<char>>, y: Seq<char>, x: Seq<char>)
    ensures
        q.push(y).contains(x) <==> (q.contains(x) || x == y),
{
    let r = q.push(y);
    if r.contains(x) {
        let k = choose|k: int| 0 <= k < r.len() && r[k] == x;
        if k < q.len() {
            assert(q[k] == x);
        }
    }
    if q.contains(x) {
        let k = choose|k: int| 0 <= k < q.len() && q[k] == x;
        assert(r[k] == x);
    }
    if x == y {
        assert(r[q.len() as int] == x);
    }
}

/// A text is in the deduplicated list exactly when it is in the list.
pub proof fn lemma_dedup_contains(s: Seq<Seq<char>>, x: Seq<char>)
    ensures
        dedup(s).contains(x) <==> s.contains(x),
    decreases s.len(),
{
    if s.len() > 0 {
        let p = s.drop_last();
        let l = s.last();
        lemma_dedup_contains(p, x);
        assert(s =~= p.push(l));
        lemma_push_contains(p, l, x);
        if !p.contains(l) {
            lemma_push_contains(dedup(p), l, x);
        }
    }
}

/// The deduplicated list repeats no text.
pub proof fn lemma_dedup_no_repeats(s: Seq<Seq<char>>)
    ensures
        no_repeats(dedup(s)),
    decreases s.len(),
{
    if s.len() > 0 {
        let p = s.drop_last();
        lemma_dedup_no_repeats(p);
        lemma_dedup_contains(p, s.last());
        if !p.contains(s.last()) {
            let d = dedup(p);
            assert forall|i: int, j: int| 0 <= i < j < dedup(s).len() implies dedup(s)[i] != dedup(s)[j] by {
                if j == d.len() {
                    assert(d[i] != s.last()) by {
                        if d[i] == s.last() {
                            assert(d.contains(s.last()));
                        }
                    }
                }
            }
        }
    }
}

/// Deduplicating twice changes nothing.
pub proof fn lemma_dedup_idempotent(s: Seq<Seq<char>>)
    ensures
        dedup(dedup(s)) == dedup(s),
{
    lemma_dedup_no_repeats(s);
    lemma_dedup_of_distinct(dedup(s));
}

proof fn lemma_dedup_of_distinct(s: Seq<Seq<char>>)
    requires
        no_repeats(s),
    ensures
        dedup(s) == s,
    decreases s.len(),
{
    if s.len() > 0 {
        let p = s.drop_last();
        assert(no_repeats(p)) by {
            assert forall|i: int, j: int| 0 <= i < j < p.len() implies p[i] != p[j] by {
                assert(p[i] == s[i] && p[j] == s[j]);
            }
        }
        lemma_dedup_of_distinct(p);
        assert(!p.contains(s.last())) by {
            if p.contains(s.last()) {
                let k = choose|k: int| 0 <= k < p.len() && p[k] == s.last();
                assert(s[k] == s[s.len() - 1]);
            }
        }
        assert(p.push(s.last()) =~= s);
    }
}

/// The per-rule report of a rule that examined and re-tagged the given counts.
pub fn rule_report(rule: &TaxTagRule, lines_examined: i64, lines_retagged: i64) -> (r: RuleReport)
    ensures
        r.account_id == rule.account_id,
        r.is_tax_line == rule.is_tax_line,
        texts(r.tags@) == texts(rule.tags@),
        r.lines_examined == lines_examined,
        r.lines_retagged == lines_retagged,
{
    let mut tags: Vec<String> = Vec::new();
    let mut i: usize = 0;
    while i < rule.tags.len()
        invariant
            i <= rule.tags.len(),
            texts(tags@) == texts(rule.tags@.take(i as int)),
        decreases rule.tags.len() - i,
    {
        let t = &rule.tags[i];
        tags.push(t.clone());
        proof {
            assert(rule.tags@.take(i + 1) =~= rule.tags@.take(i as int).push(rule.tags@[i as int]));
            assert(texts(tags@) =~= texts(rule.tags@.take(i as int)).push(t@));
            assert(texts(tags@) =~= texts(rule.tags@.take(i + 1)));
        }
        i = i + 1;
    }
    proof {
        assert(rule.tags@.take(rule.tags.len() as int) =~= rule.tags@);
    }
    RuleReport {
        account_id: rule.account_id,
        is_tax_line: rule.is_tax_line,
        tags,
        lines_examined,
        lines_retagged,
    }
}

/// The sum of the examined counts of the first `n` reports.
pub open spec fn examined_total(per_rule: Seq<RuleReport>) -> int
    decreases per_rule.len(),
{
    if per_rule.len() == 0 {
        0
    } else {
        examined_total(per_rule.drop_last()) + per_rule.last().lines_examined
    }
}

/// The sum of the re-tagged counts of the reports.
pub open spec fn retagged_total(per_rule: Seq<RuleReport>) -> int
    decreases per_rule.len(),
{
    if per_rule.len() == 0 {
        0
    } else {
        retagged_total(per_rule.drop_last()) + per_rule.last().lines_retagged
    }
}

/// Every partial sum of the counts fits an `i64`.
pub open spec fn totals_fit(per_rule: Seq<RuleReport>) -> bool {
    forall|n: int| 0 <= n <= per_rule.len() ==> {
        &&& i64::MIN <= #[trigger] examined_total(per_rule.take(n)) <= i64::MAX
        &&& i64::MIN <= retagged_total(per_rule.take(n)) <= i64::MAX
    }
}

/// The report of a run: the per-rule reports and their totals, and the
/// closed periods that the armed override let it cross.
pub fn repair_report(run_id: u128, dry_run: bool, per_rule: Vec<RuleReport>, closed: Vec<String>) -> (r: RepairReport)
    requires
        totals_fit(per_rule@),
    ensures
        r.run_id == run_id,
        r.dry_run == dry_run,
        r.lines_examined == examined_total(per_rule@),
        r.lines_retagged == retagged_total(per_rule@),
        r.per_rule@ == per_rule@,
        r.closed_periods_overridden@ == closed@,
{
    let mut examined: i64 = 0;
    let mut retagged: i64 = 0;
    let mut i: usize = 0;
    while i < per_rule.len()
        invariant
            i <= per_rule.len(),
            totals_fit(per_rule@),
            examined == examined_total(per_rule@.take(i as int)),
            retagged == retagged_total(per_rule@.take(i as int)),
        decreases per_rule.len() - i,
    {
        proof {
            let t = per_rule@.take(i + 1);
            assert(t.drop_last() =~= per_rule@.take(i as int));
            assert(examined_total(t) == examined + per_rule@[i as int].lines_examined);
            assert(i64::MIN <= examined_total(per_rule@.take(i + 1)) <= i64::MAX);
        }
        examined = examined + per_rule[i].lines_examined;
        retagged = retagged + per_rule[i].lines_retagged;
        i = i + 1;
    }
    proof {
        assert(per_rule@.take(per_rule.len() as int) =~= per_rule@);
    }
    RepairReport { run_id, dry_run, lines_examined: examined, lines_retagged: retagged, per_rule, closed_periods_overridden: closed }
}

/// The justification as stored on the audit row: trimmed.
pub fn audit_reason(req: &RepairRequest) -> (r: String)
    ensures
        r@ == trim(req.reason@),
{
    crate::text::trim_str(req.reason.as_str())
}

} // verus!
