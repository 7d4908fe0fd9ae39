//! Matching imported bank-statement lines against the unreconciled ledger
//! entries of a bank account.
//!
//! Matching is greedy, in statement order, by exact signed amount and
//! reference first: a line takes the first open book entry that has the same
//! amount and the same reference, and only falls back to the first open entry
//! of that amount when no reference pairs them. A reference is compared
//! trimmed and lowercased. Loading the entries and writing the reconciliation
//! are done by the caller around these decisions.

use crate::amount::{
    all_wf, amount_of, amount_opt, dec_eq, dec_sub, lemma_amount_opt, parts_of, sub_spec, sum_amounts,
    sum_of, Amount,
};
use crate::text::{
    chars_of, clone_opt, lower_text, lowercase, ostr, string_from, string_of, trim, trim_chars,
};
use crate::ids::{chrono_compact_date, dated_number, uuid_hyphenated};
use vstd::prelude::*;

verus! {

/// One line imported from a bank statement.
#[derive(Debug, Clone)]
pub struct StatementLine {
    /// Days since 0001-01-01 (day 1 is that date).
    pub date: i32,
    /// Signed: receipts positive, payments negative.
    pub amount: Amount,
    pub reference: Option<String>,
}

/// An unreconciled ledger entry of the bank account.
#[derive(Debug, Clone)]
pub struct BookEntry {
    pub ledger_id: u128,
    pub amount: Amount,
    pub reference: Option<String>,
}

/// A ledger entry paired with the statement line that took it.
#[derive(Debug, Clone)]
pub struct MatchedPair {
    pub ledger_id: u128,
    pub statement_reference: Option<String>,
}

/// A statement line that no book entry paired.
#[derive(Debug, Clone)]
pub struct UnmatchedStatement {
    pub reference: Option<String>,
    pub amount: Amount,
}

/// A book entry that no statement line took.
#[derive(Debug, Clone, Copy)]
pub struct UnmatchedBook {
    pub ledger_id: u128,
    pub amount: Amount,
}

/// What the matching decided.
#[derive(Debug, Clone)]
pub struct MatchOutcome {
    pub matched: Vec<MatchedPair>,
    pub unmatched_book: Vec<UnmatchedBook>,
    pub unmatched_statement: Vec<UnmatchedStatement>,
}

/// The comparable form of a reference: trimmed and lowercased, `None` when
/// nothing is left to compare.
pub open spec fn reference_key(r: Option<Seq<char>>) -> Option<Seq<char>> {
    match r {
        Some(s) => if trim(s).len() == 0 {
            None
        } else {
            Some(lower_text(trim(s)))
        },
        None => None,
    }
}

/// The comparable form of a reference, or `None` when there is nothing to
/// compare. Case and surrounding whitespace are not part of a reference: the
/// same cheque number reaches the book and the statement through different
/// hands.
pub fn references_pair(reference: Option<&str>) -> (r: Option<String>)
    ensures
        ostr(r) == reference_key(crate::emv_qr::opt_view(reference)),
{
    match reference {
        None => None,
        Some(s) => {
            let cs = chars_of(s);
            let t = trim_chars(&cs);
            if t.len() == 0 {
                None
            } else {
                let ts = string_of(&t);
                Some(lowercase(ts.as_str()))
            }
        },
    }
}

fn key_of(reference: &Option<String>) -> (r: Option<String>)
    ensures
        ostr(r) == reference_key(ostr(*reference)),
{
    match reference {
        Some(s) => references_pair(Some(s.as_str())),
        None => references_pair(None),
    }
}

/// Book entry `b`, still open, pairs with `line` by amount and reference.
pub open spec fn ref_hit(b: BookEntry, taken: bool, line: StatementLine) -> bool {
    &&& !taken
    &&& b.amount.value() == line.amount.value()
    &&& reference_key(ostr(line.reference)) is Some
    &&& reference_key(ostr(b.reference)) == reference_key(ostr(line.reference))
}

/// Book entry `b`, still open, has the amount of `line`.
pub open spec fn amount_hit(b: BookEntry, taken: bool, line: StatementLine) -> bool {
    !taken && b.amount.value() == line.amount.value()
}

/// The first index from `i` on whose entry pairs with `line` by reference.
pub open spec fn first_ref_hit(book: Seq<BookEntry>, taken: Seq<bool>, line: StatementLine, i: int) -> Option<int>
    decreases book.len() - i,
{
    if i < 0 || i >= book.len() {
        None
    } else if ref_hit(book[i], taken[i], line) {
        Some(i)
    } else {
        first_ref_hit(book, taken, line, i + 1)
    }
}

/// The first index from `i` on whose entry has the amount of `line`.
pub open spec fn first_amount_hit(book: Seq<BookEntry>, taken: Seq<bool>, line: StatementLine, i: int) -> Option<int>
    decreases book.len() - i,
{
    if i < 0 || i >= book.len() {
        None
    } else if amount_hit(book[i], taken[i], line) {
        Some(i)
    } else {
        first_amount_hit(book, taken, line, i + 1)
    }
}

/// The entry that `line` takes, given which entries are taken already.
pub open spec fn pick(book: Seq<BookEntry>, taken: Seq<bool>, line: StatementLine) -> Option<int> {
    match first_ref_hit(book, taken, line, 0) {
        Some(i) => Some(i),
        None => first_amount_hit(book, taken, line, 0),
    }
}

/// Which entries are taken once `lines` have been matched in order.
pub open spec fn taken_after(book: Seq<BookEntry>, lines: Seq<StatementLine>) -> Seq<bool>
    decreases lines.len(),
{
    if lines.len() == 0 {
        Seq::new(book.len(), |i: int| false)
    } else {
        let t = taken_after(book, lines.drop_last());
        match pick(book, t, lines.last()) {
            Some(i) => t.update(i, true),
            None => t,
        }
    }
}

/// The pairs (ledger id, statement reference) made by matching `lines`.
pub open spec fn matched_spec(book: Seq<BookEntry>, lines: Seq<StatementLine>) -> Seq<(u128, Option<Seq<char>>)>
    decreases lines.len(),
{
    if lines.len() == 0 {
        Seq::empty()
    } else {
        let prev = lines.drop_last();
        match pick(book, taken_after(book, prev), lines.last()) {
            Some(i) => matched_spec(book, prev).push((book[i].ledger_id, ostr(lines.last().reference))),
            None => matched_spec(book, prev),
        }
    }
}

/// The statement lines, as (reference, amount), that no entry paired.
pub open spec fn unmatched_statement_spec(book: Seq<BookEntry>, lines: Seq<StatementLine>) -> Seq<(Option<Seq<char>>, Amount)>
    decreases lines.len(),
{
    if lines.len() == 0 {
        Seq::empty()
    } else {
        let prev = lines.drop_last();
        match pick(book, taken_after(book, prev), lines.last()) {
            Some(i) => unmatched_statement_spec(book, prev),
            None => unmatched_statement_spec(book, prev).push((ostr(lines.last().reference), lines.last().amount)),
        }
    }
}

/// The entries among the first `n`, as (ledger id, amount), that are not taken.
pub open spec fn open_entries(book: Seq<BookEntry>, taken: Seq<bool>, n: int) -> Seq<(u128, Amount)>
    decreases n,
{
    if n <= 0 {
        Seq::empty()
    } else if taken[n - 1] {
        open_entries(book, taken, n - 1)
    } else {
        open_entries(book, taken, n - 1).push((book[n - 1].ledger_id, book[n - 1].amount))
    }
}

pub open spec fn matched_view(v: Seq<MatchedPair>) -> Seq<(u128, Option<Seq<char>>)> {
    v.map_values(|p: MatchedPair| (p.ledger_id, ostr(p.statement_reference)))
}

pub open spec fn unmatched_statement_view(v: Seq<UnmatchedStatement>) -> Seq<(Option<Seq<char>>, Amount)> {
    v.map_values(|u: UnmatchedStatement| (ostr(u.reference), u.amount))
}

pub open spec fn unmatched_book_view(v: Seq<UnmatchedBook>) -> Seq<(u128, Amount)> {
    v.map_values(|u: UnmatchedBook| (u.ledger_id, u.amount))
}

pub open spec fn book_wf(book: Seq<BookEntry>) -> bool {
    forall|i: int| 0 <= i < book.len() ==> (#[trigger] book[i]).amount.wf()
}

pub open spec fn lines_wf(lines: Seq<StatementLine>) -> bool {
    forall|i: int| 0 <= i < lines.len() ==> (#[trigger] lines[i]).amount.wf()
}

proof fn lemma_first_ref_hit_range(book: Seq<BookEntry>, taken: Seq<bool>, line: StatementLine, i: int)
    ensures
        first_ref_hit(book, taken, line, i) matches Some(j) ==> i <= j < book.len() && ref_hit(
            book[j],
            taken[j],
            line,
        ),
    decreases book.len() - i,
{
    if 0 <= i < book.len() && !ref_hit(book[i], taken[i], line) {
        lemma_first_ref_hit_range(book, taken, line, i + 1);
    }
}

proof fn lemma_first_amount_hit_range(book: Seq<BookEntry>, taken: Seq<bool>, line: StatementLine, i: int)
    ensures
        first_amount_hit(book, taken, line, i) matches Some(j) ==> i <= j < book.len() && amount_hit(
            book[j],
            taken[j],
            line,
        ),
    decreases book.len() - i,
{
    if 0 <= i < book.len() && !amount_hit(book[i], taken[i], line) {
        lemma_first_amount_hit_range(book, taken, line, i + 1);
    }
}

/// The entry a line takes is one of the book's, and was open.
pub proof fn lemma_pick_range(book: Seq<BookEntry>, taken: Seq<bool>, line: StatementLine)
    ensures
        pick(book, taken, line) matches Some(j) ==> 0 <= j < book.len() && !taken[j]
            && book[j].amount.value() == line.amount.value(),
{
    lemma_first_ref_hit_range(book, taken, line, 0);
    lemma_first_amount_hit_range(book, taken, line, 0);
}

proof fn lemma_taken_after_len(book: Seq<BookEntry>, lines: Seq<StatementLine>)
    ensures
        taken_after(book, lines).len() == book.len(),
    decreases lines.len(),
{
    if lines.len() > 0 {
        lemma_taken_after_len(book, lines.drop_last());
        lemma_pick_range(book, taken_after(book, lines.drop_last()), lines.last());
    }
}

/// The first open entry pairing with `line` by reference, when `want` (the
/// key of the line's reference) is given.
fn find_ref_hit(
    book: &Vec<BookEntry>,
    keys: &Vec<Option<String>>,
    taken: &Vec<bool>,
    line: &StatementLine,
    want: &Option<String>,
) -> (r: Option<usize>)
    requires
        book.len() == keys.len() == taken.len(),
        book_wf(book@),
        line.amount.wf(),
        forall|i: int| 0 <= i < book.len() ==> ostr(#[trigger] keys@[i]) == reference_key(ostr(book@[i].reference)),
        ostr(*want) == reference_key(ostr(line.reference)),
    ensures
        (match r {
            Some(i) => Some(i as int),
            None => None,
        }) == first_ref_hit(book@, taken@, *line, 0),
{
    let w = match want {
        Some(w) => w,
        None => {
            proof {
                lemma_first_ref_hit_range(book@, taken@, *line, 0);
            }
            return None;
        },
    };
    let mut i: usize = 0;
    while i < book.len()
        invariant
            i <= book.len() == keys.len() == taken.len(),
            book_wf(book@),
            line.amount.wf(),
            forall|i: int| 0 <= i < book.len() ==> ostr(#[trigger] keys@[i]) == reference_key(ostr(book@[i].reference)),
            reference_key(ostr(line.reference)) == Some(w@),
            first_ref_hit(book@, taken@, *line, 0) == first_ref_hit(book@, taken@, *line, i as int),
        decreases book.len() - i,
    {
        let b = &book[i];
        let same_key = match &keys[i] {
            Some(k) => *k == *w,
            None => false,
        };
        if !taken[i] && same_key && dec_eq(b.amount, line.amount) {
            return Some(i);
        }
        assert(!ref_hit(book@[i as int], taken@[i as int], *line)) by {
            assert(ostr(keys@[i as int]) == reference_key(ostr(book@[i as int].reference)));
        }
        i = i + 1;
    }
    None
}

/// The first open entry with the amount of `line`.
fn find_amount_hit(book: &Vec<BookEntry>, taken: &Vec<bool>, line: &StatementLine) -> (r: Option<usize>)
    requires
        book.len() == taken.len(),
        book_wf(book@),
        line.amount.wf(),
    ensures
        (match r {
            Some(i) => Some(i as int),
            None => None,
        }) == first_amount_hit(book@, taken@, *line, 0),
{
    let mut i: usize = 0;
    while i < book.len()
        invariant
            i <= book.len() == taken.len(),
            book_wf(book@),
            line.amount.wf(),
            first_amount_hit(book@, taken@, *line, 0) == first_amount_hit(book@, taken@, *line, i as int),
        decreases book.len() - i,
    {
        if !taken[i] && dec_eq(book[i].amount, line.amount) {
            return Some(i);
        }
        i = i + 1;
    }
    None
}

/// Greedy matching of `lines` against `book`, reference first (see the module
/// documentation): which entries pair with which lines, which entries stay
/// open, and which lines stay unpaired.
pub fn match_statement(book: &Vec<BookEntry>, lines: &Vec<StatementLine>) -> (r: MatchOutcome)
    requires
        book_wf(book@),
        lines_wf(lines@),
    ensures
        matched_view(r.matched@) == matched_spec(book@, lines@),
        unmatched_statement_view(r.unmatched_statement@) == unmatched_statement_spec(book@, lines@),
        unmatched_book_view(r.unmatched_book@) == open_entries(
            book@,
            taken_after(book@, lines@),
            book.len() as int,
        ),
{
    let mut keys: Vec<Option<String>> = Vec::new();
    let mut taken: Vec<bool> = Vec::new();
    let mut j: usize = 0;
    while j < book.len()
        invariant
            j <= book.len(),
            keys.len() == j,
            taken@ == Seq::new(j as nat, |i: int| false),
            forall|i: int| 0 <= i < j ==> ostr(#[trigger] keys@[i]) == reference_key(ostr(book@[i].reference)),
        decreases book.len() - j,
    {
        keys.push(key_of(&book[j].reference));
        taken.push(false);
        j = j + 1;
    }
    let mut matched: Vec<MatchedPair> = Vec::new();
    let mut unmatched_stmt: Vec<UnmatchedStatement> = Vec::new();
    let mut k: usize = 0;
    proof {
        assert(lines@.take(0) =~= Seq::<StatementLine>::empty());
        assert(taken@ =~= taken_after(book@, lines@.take(0)));
    }
    while k < lines.len()
        invariant
            k <= lines.len(),
            book_wf(book@),
            lines_wf(lines@),
            keys.len() == book.len() == taken.len(),
            forall|i: int| 0 <= i < book.len() ==> ostr(#[trigger] keys@[i]) == reference_key(ostr(book@[i].reference)),
            taken@ == taken_after(book@, lines@.take(k as int)),
            matched_view(matched@) == matched_spec(book@, lines@.take(k as int)),
            unmatched_statement_view(unmatched_stmt@) == unmatched_statement_spec(book@, lines@.take(k as int)),
        decreases lines.len() - k,
    {
        let line = &lines[k];
        let want = key_of(&line.reference);
        let hit = match find_ref_hit(book, &keys, &taken, line, &want) {
            Some(i) => Some(i),
            None => find_amount_hit(book, &taken, line),
        };
        proof {
            let pre = lines@.take(k as int);
            let cur = lines@.take(k + 1);
            assert(cur.drop_last() =~= pre);
            assert(cur.last() == lines@[k as int]);
            lemma_pick_range(book@, taken@, lines@[k as int]);
        }
        match hit {
            Some(i) => {
                taken.set(i, true);
                matched.push(MatchedPair { ledger_id: book[i].ledger_id, statement_reference: clone_opt(&line.reference) });
                proof {
                    assert(matched_view(matched@) =~= matched_spec(book@, lines@.take(k as int)).push(
                        (book@[i as int].ledger_id, ostr(lines@[k as int].reference)),
                    ));
                }
            },
            None => {
                unmatched_stmt.push(UnmatchedStatement { reference: clone_opt(&line.reference), amount: line.amount });
                proof {
                    assert(unmatched_statement_view(unmatched_stmt@) =~= unmatched_statement_spec(
                        book@,
                        lines@.take(k as int),
                    ).push((ostr(lines@[k as int].reference), lines@[k as int].amount)));
                }
            },
        }
        k = k + 1;
    }
    proof {
        assert(lines@.take(lines.len() as int) =~= lines@);
    }
    let mut unmatched_book: Vec<UnmatchedBook> = Vec::new();
    let mut i: usize = 0;
    while i < book.len()
        invariant
            i <= book.len() == taken.len(),
            unmatched_book_view(unmatched_book@) == open_entries(book@, taken@, i as int),
        decreases book.len() - i,
    {
        if !taken[i] {
            unmatched_book.push(UnmatchedBook { ledger_id: book[i].ledger_id, amount: book[i].amount });
            proof {
                assert(unmatched_book_view(unmatched_book@) =~= open_entries(book@, taken@, i as int).push(
                    (book@[i as int].ledger_id, book@[i as int].amount),
                ));
            }
        }
        i = i + 1;
    }
    MatchOutcome { matched, unmatched_book, unmatched_statement: unmatched_stmt }
}

/// The number of `true` flags in `t`.
pub open spec fn count_true(t: Seq<bool>) -> nat
    decreases t.len(),
{
    if t.len() == 0 {
        0
    } else {
        count_true(t.drop_last()) + if t.last() {
            1nat
        } else {
            0nat
        }
    }
}

proof fn lemma_count_none(n: nat)
    ensures
        count_true(Seq::new(n, |i: int| false)) == 0,
    decreases n,
{
    if n > 0 {
        assert(Seq::new(n, |i: int| false).drop_last() =~= Seq::new((n - 1) as nat, |i: int| false));
        lemma_count_none((n - 1) as nat);
    }
}

proof fn lemma_count_update(t: Seq<bool>, i: int)
    requires
        0 <= i < t.len(),
        !t[i],
    ensures
        count_true(t.update(i, true)) == count_true(t) + 1,
    decreases t.len(),
{
    let u = t.update(i, true);
    if i == t.len() - 1 {
        assert(u.drop_last() =~= t.drop_last());
    } else {
        assert(u.drop_last() =~= t.drop_last().update(i, true));
        lemma_count_update(t.drop_last(), i);
    }
}

proof fn lemma_matched_count(book: Seq<BookEntry>, lines: Seq<StatementLine>)
    ensures
        count_true(taken_after(book, lines)) == matched_spec(book, lines).len(),
        taken_after(book, lines).len() == book.len(),
    decreases lines.len(),
{
    lemma_taken_after_len(book, lines);
    if lines.len() == 0 {
        lemma_count_none(book.len());
    } else {
        let prev = lines.drop_last();
        lemma_matched_count(book, prev);
        let t = taken_after(book, prev);
        lemma_pick_range(book, t, lines.last());
        if let Some(i) = pick(book, t, lines.last()) {
            lemma_count_update(t, i);
        }
    }
}

proof fn lemma_open_count(book: Seq<BookEntry>, taken: Seq<bool>, n: int)
    requires
        0 <= n <= taken.len(),
    ensures
        open_entries(book, taken, n).len() + count_true(taken.take(n)) == n,
    decreases n,
{
    if n > 0 {
        assert(taken.take(n).drop_last() =~= taken.take(n - 1));
        lemma_open_count(book, taken, n - 1);
    }
}

/// Every statement line is either matched or left unmatched, never both.
pub proof fn lemma_statement_partition(book: Seq<BookEntry>, lines: Seq<StatementLine>)
    ensures
        matched_spec(book, lines).len() + unmatched_statement_spec(book, lines).len() == lines.len(),
    decreases lines.len(),
{
    if lines.len() > 0 {
        lemma_statement_partition(book, lines.drop_last());
    }
}

/// Every book entry is either taken by exactly one statement line or stays
/// open: the matches and the open entries together are the whole book.
pub proof fn lemma_book_partition(book: Seq<BookEntry>, lines: Seq<StatementLine>)
    ensures
        matched_spec(book, lines).len() + open_entries(
            book,
            taken_after(book, lines),
            book.len() as int,
        ).len() == book.len(),
{
    lemma_matched_count(book, lines);
    let t = taken_after(book, lines);
    lemma_open_count(book, t, book.len() as int);
    assert(t.take(book.len() as int) =~= t);
}

/// The totals of one reconciliation run, before it is stored.
#[derive(Debug, Clone)]
pub struct ReconcileSummary {
    pub matched_count: i32,
    pub unmatched_book: i32,
    pub unmatched_statement: i32,
    pub closing_book_balance: Amount,
    pub closing_statement_balance: Amount,
    pub difference: Amount,
    pub is_balanced: bool,
    /// "completed" when balanced, otherwise "in_progress".
    pub status: String,
}

/// The outcome of a stored reconciliation run.
#[derive(Debug, Clone, Copy)]
pub struct ReconcileResult {
    pub reconciliation_id: u128,
    pub matched_count: i32,
    pub unmatched_book: i32,
    pub unmatched_statement: i32,
    pub closing_book_balance: Amount,
    pub closing_statement_balance: Amount,
    pub difference: Amount,
    pub is_balanced: bool,
}

/// Why a reconciliation run was refused.
#[derive(Debug, Clone)]
pub enum ReconcileError {
    AccountNotFound(u128),
    Internal(String),
}

impl ReconcileError {
    pub open spec fn code_text(&self) -> Seq<char> {
        match self {
            ReconcileError::AccountNotFound(_) => "account_not_found"@,
            ReconcileError::Internal(_) => "internal_error"@,
        }
    }

    /// The stable code that prefixes the error's message.
    pub fn code(&self) -> (r: &'static str)
        ensures
            r@ == self.code_text(),
    {
        match self {
            ReconcileError::AccountNotFound(_) => "account_not_found",
            ReconcileError::Internal(_) => "internal_error",
        }
    }
}

/// The amounts of the statement lines, in order.
pub open spec fn line_amounts(lines: Seq<StatementLine>) -> Seq<Amount> {
    lines.map_values(|l: StatementLine| l.amount)
}

pub open spec fn status_text(balanced: bool) -> Seq<char> {
    if balanced {
        "completed"@
    } else {
        "in_progress"@
    }
}

/// Totals of a matching run: the statement's closing balance is the sum of
/// its lines, the difference is the book's closing balance less it, and the
/// run is balanced when nothing is left unmatched on either side. `None` when
/// a sum or the difference overflows the decimal range.
pub fn summarize(lines: &Vec<StatementLine>, outcome: &MatchOutcome, closing_book_balance: Amount) -> (r: Option<ReconcileSummary>)
    requires
        lines_wf(lines@),
        closing_book_balance.wf(),
    ensures
        match amount_opt(sum_of(line_amounts(lines@))) {
            None => r is None,
            Some(total) => match sub_spec(closing_book_balance, total) {
                None => r is None,
                Some(diff) => r matches Some(s) && {
                    let balanced = outcome.unmatched_book.len() == 0 && outcome.unmatched_statement.len() == 0;
                    &&& s.closing_statement_balance == total
                    &&& s.difference == diff
                    &&& s.closing_book_balance == closing_book_balance
                    &&& s.is_balanced == balanced
                    &&& s.status@ == status_text(balanced)
                    &&& s.matched_count == outcome.matched.len() as i32
                    &&& s.unmatched_book == outcome.unmatched_book.len() as i32
                    &&& s.unmatched_statement == outcome.unmatched_statement.len() as i32
                },
            },
        },
{
    let mut amounts: Vec<Amount> = Vec::new();
    let mut i: usize = 0;
    while i < lines.len()
        invariant
            i <= lines.len(),
            lines_wf(lines@),
            amounts@ == line_amounts(lines@.take(i as int)),
        decreases lines.len() - i,
    {
        amounts.push(lines[i].amount);
        proof {
            assert(line_amounts(lines@.take(i + 1)) =~= line_amounts(lines@.take(i as int)).push(lines@[i as int].amount));
        }
        i = i + 1;
    }
    proof {
        assert(lines@.take(lines.len() as int) =~= lines@);
        assert(all_wf(amounts@));
    }
    let total = match sum_amounts(&amounts) {
        Some(t) => t,
        None => return None,
    };
    let difference = match dec_sub(closing_book_balance, total) {
        Some(d) => d,
        None => return None,
    };
    let is_balanced = outcome.unmatched_book.len() == 0 && outcome.unmatched_statement.len() == 0;
    let status = if is_balanced {
        string_from("completed")
    } else {
        string_from("in_progress")
    };
    Some(ReconcileSummary {
        matched_count: outcome.matched.len() as i32,
        unmatched_book: outcome.unmatched_book.len() as i32,
        unmatched_statement: outcome.unmatched_statement.len() as i32,
        closing_book_balance,
        closing_statement_balance: total,
        difference,
        is_balanced,
        status,
    })
}

impl ReconcileResult {
    /// The result of a run once it is stored under `reconciliation_id`.
    pub fn from_summary(reconciliation_id: u128, s: &ReconcileSummary) -> (r: ReconcileResult)
        ensures
            r.reconciliation_id == reconciliation_id,
            r.matched_count == s.matched_count,
            r.unmatched_book == s.unmatched_book,
            r.unmatched_statement == s.unmatched_statement,
            r.closing_book_balance == s.closing_book_balance,
            r.closing_statement_balance == s.closing_statement_balance,
            r.difference == s.difference,
            r.is_balanced == s.is_balanced,
    {
        ReconcileResult {
            reconciliation_id,
            matched_count: s.matched_count,
            unmatched_book: s.unmatched_book,
            unmatched_statement: s.unmatched_statement,
            closing_book_balance: s.closing_book_balance,
            closing_statement_balance: s.closing_statement_balance,
            difference: s.difference,
            is_balanced: s.is_balanced,
        }
    }
}

/// The reconciliation number "REC-<yyyymmdd>-<first 8 characters of the
/// uuid>", for a statement date and a freshly drawn uuid.
pub fn reconciliation_number(statement_date: i32, nonce: u128) -> (r: Option<String>)
    ensures
        match chrono_compact_date(statement_date) {
            Some(d) => r matches Some(t) && t@ == "REC-"@ + d + "-"@ + uuid_hyphenated(nonce).take(8),
            None => r is None,
        },
{
    let r = dated_number("REC-", statement_date, nonce);
    proof {
        reveal_strlit("REC-");
    }
    r
}

} // verus!
