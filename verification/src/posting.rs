//! Double-entry posting: the request shape, its validation, the reversal of a
//! posted entry, and the running-balance plan of the immutable ledger rows.
//!
//! A posting is accepted when it has at least two lines, its debits and
//! credits sum to the same number, every line hits a postable account, a party
//! is given exactly on receivable/payable accounts, and its fiscal period is not
//! closed. Storage (loading accounts, writing journals and ledger rows) is done
//! by the caller around these decisions.

use crate::amount::{
    add_spec, all_wf, dec_add, dec_eq, dec_sub, lemma_amount_opt, sub_spec, sum_amounts, sum_of,
    Amount,
};
use crate::ids::{chrono_compact_date, dated_number, uuid_hyphenated, with_uuid};
use crate::text::{str_eq, string_from};
use vstd::prelude::*;

verus! {

/// One debit/credit line of a posting request.
#[derive(Debug, Clone)]
pub struct PostingLine {
    pub account_id: u128,
    pub debit: Amount,
    pub credit: Amount,
    /// "customer" | "supplier" | "employee"
    pub party_type: Option<String>,
    pub party_id: Option<u128>,
    pub cost_center_id: Option<u128>,
    pub project_id: Option<u128>,
    pub department_id: Option<u128>,
    pub description: Option<String>,
}

/// A request to record a balanced set of lines in the general ledger.
#[derive(Debug, Clone)]
pub struct PostingRequest {
    pub company_id: u128,
    pub branch_id: Option<u128>,
    /// order | payment | settlement | refund | expense | inventory | manual
    pub source_type: String,
    pub source_id: u128,
    pub source_reference: Option<String>,
    /// Days since 0001-01-01 (day 1 is that date).
    pub posting_date: i32,
    pub currency: String,
    /// "original" | "reversal"
    pub posting_type: String,
    pub reverses_post_id: Option<u128>,
    pub description: Option<String>,
    pub lines: Vec<PostingLine>,
    /// The real dedup key when set; otherwise dedup is on
    /// (company, source_type, source_id, posting_type).
    pub idempotency_key: Option<String>,
}

impl PostingRequest {
    /// An original posting in IDR with no lines yet.
    pub fn original(company_id: u128, source_type: &str, source_id: u128, posting_date: i32) -> (r:
        PostingRequest)
        ensures
            r.company_id == company_id,
            r.branch_id is None,
            r.source_type@ == source_type@,
            r.source_id == source_id,
            r.source_reference is None,
            r.posting_date == posting_date,
            r.currency@ == "IDR"@,
            r.posting_type@ == "original"@,
            r.reverses_post_id is None,
            r.description is None,
            r.lines@.len() == 0,
            r.idempotency_key is None,
    {
        PostingRequest {
            company_id,
            branch_id: None,
            source_type: string_from(source_type),
            source_id,
            source_reference: None,
            posting_date,
            currency: string_from("IDR"),
            posting_type: string_from("original"),
            reverses_post_id: None,
            description: None,
            lines: Vec::new(),
            idempotency_key: None,
        }
    }

    /// Set the idempotency key (the per-post dedup identity).
    pub fn with_idempotency_key(self, key: String) -> (r: PostingRequest)
        ensures
            r.idempotency_key == Some(key),
            r.company_id == self.company_id,
            r.branch_id == self.branch_id,
            r.source_type == self.source_type,
            r.source_id == self.source_id,
            r.source_reference == self.source_reference,
            r.posting_date == self.posting_date,
            r.currency == self.currency,
            r.posting_type == self.posting_type,
            r.reverses_post_id == self.reverses_post_id,
            r.description == self.description,
            r.lines == self.lines,
    {
        let mut r = self;
        r.idempotency_key = Some(key);
        r
    }
}

/// Outcome of a successful post.
#[derive(Debug, Clone)]
pub struct PostingResult {
    pub post_id: u128,
    pub journal_id: u128,
    pub posting_status: String,
    /// An existing posted entry was returned instead of writing a new one.
    pub idempotent_reuse: bool,
}

/// Typed posting failure; `code()` is the stable error string.
#[derive(Debug, Clone)]
pub enum PostingError {
    TooFewLines,
    Unbalanced,
    /// The account number.
    NonPostableAccount(String),
    AccountNotFound(u128),
    /// The account number.
    PartyRequired(String),
    /// The account number.
    PartyNotAllowed(String),
    PeriodClosed,
    Conflict(String),
    /// A storage failure, with its message.
    Db(String),
}

impl PostingError {
    pub open spec fn code_text(&self) -> Seq<char> {
        match self {
            PostingError::TooFewLines => "too_few_lines"@,
            PostingError::Unbalanced => "unbalanced"@,
            PostingError::NonPostableAccount(_) => "non_postable_account"@,
            PostingError::AccountNotFound(_) => "account_not_found"@,
            PostingError::PartyRequired(_) => "party_required"@,
            PostingError::PartyNotAllowed(_) => "party_not_allowed"@,
            PostingError::PeriodClosed => "period_closed"@,
            PostingError::Conflict(_) => "conflict"@,
            PostingError::Db(_) => "internal_error"@,
        }
    }

    /// The stable error string.
    pub fn code(&self) -> (r: &'static str)
        ensures
            r@ == self.code_text(),
    {
        match self {
            PostingError::TooFewLines => "too_few_lines",
            PostingError::Unbalanced => "unbalanced",
            PostingError::NonPostableAccount(_) => "non_postable_account",
            PostingError::AccountNotFound(_) => "account_not_found",
            PostingError::PartyRequired(_) => "party_required",
            PostingError::PartyNotAllowed(_) => "party_not_allowed",
            PostingError::PeriodClosed => "period_closed",
            PostingError::Conflict(_) => "conflict",
            PostingError::Db(_) => "internal_error",
        }
    }

    /// HTTP status: a missing account is 404, storage is 500, the rest 422.
    pub fn http_status(&self) -> (r: u16)
        ensures
            r == match self {
                PostingError::AccountNotFound(_) => 404u16,
                PostingError::Db(_) => 500u16,
                _ => 422u16,
            },
    {
        match self {
            PostingError::AccountNotFound(_) => 404,
            PostingError::Db(_) => 500,
            _ => 422,
        }
    }
}

/// Per-account snapshot loaded for validation and the ledger rows.
#[derive(Debug, Clone)]
pub struct AccountInfo {
    pub id: u128,
    pub number: String,
    pub name: String,
    pub account_type: String,
    pub subtype: String,
    /// "debit" | "credit"
    pub normal_balance: String,
    pub is_detail: bool,
    pub is_header: bool,
    pub status: String,
    pub current_balance: Amount,
}

/// Every amount of every line is inside the 96-bit range.
pub open spec fn lines_wf(lines: Seq<PostingLine>) -> bool {
    forall|i: int| 0 <= i < lines.len() ==> (#[trigger] lines[i]).debit.wf() && lines[i].credit.wf()
}

pub open spec fn debits(lines: Seq<PostingLine>) -> Seq<Amount> {
    lines.map_values(|l: PostingLine| l.debit)
}

pub open spec fn credits(lines: Seq<PostingLine>) -> Seq<Amount> {
    lines.map_values(|l: PostingLine| l.credit)
}

/// The number a (mantissa, scale) pair stands for, at 28 fractional digits.
pub open spec fn parts_value(p: (i128, u32)) -> int {
    Amount { mantissa: p.0, scale: p.1 }.value()
}

/// The debits and credits both sum without overflow, to the same number.
pub open spec fn balanced(lines: Seq<PostingLine>) -> bool {
    match (sum_of(debits(lines)), sum_of(credits(lines))) {
        (Some(d), Some(c)) => parts_value(d) == parts_value(c),
        _ => false,
    }
}

fn collect_amounts(lines: &Vec<PostingLine>, debit_side: bool) -> (r: Vec<Amount>)
    requires
        lines_wf(lines@),
    ensures
        debit_side ==> r@ == debits(lines@),
        !debit_side ==> r@ == credits(lines@),
        all_wf(r@),
{
    let mut r: Vec<Amount> = Vec::new();
    let mut i: usize = 0;
    while i < lines.len()
        invariant
            i <= lines.len(),
            lines_wf(lines@),
            r@.len() == i,
            forall|k: int| 0 <= k < i ==> #[trigger] r@[k] == if debit_side {
                lines@[k].debit
            } else {
                lines@[k].credit
            },
        decreases lines.len() - i,
    {
        if debit_side {
            r.push(lines[i].debit);
        } else {
            r.push(lines[i].credit);
        }
        i = i + 1;
    }
    proof {
        if debit_side {
            assert(r@ =~= debits(lines@));
        } else {
            assert(r@ =~= credits(lines@));
        }
    }
    r
}

/// The totals of a posting: (Σ debit, Σ credit); `None` when a sum overflows.
pub fn totals(lines: &Vec<PostingLine>) -> (r: Option<(Amount, Amount)>)
    requires
        lines_wf(lines@),
    ensures
        r is Some <==> sum_of(debits(lines@)) is Some && sum_of(credits(lines@)) is Some,
        r matches Some((d, c)) ==> Some((d.mantissa, d.scale)) == sum_of(debits(lines@)) && Some(
            (c.mantissa, c.scale),
        ) == sum_of(credits(lines@)) && d.wf() && c.wf(),
{
    let ds = collect_amounts(lines, true);
    let cs = collect_amounts(lines, false);
    let d = sum_amounts(&ds);
    let c = sum_amounts(&cs);
    match (d, c) {
        (Some(d), Some(c)) => Some((d, c)),
        _ => None,
    }
}

/// The count and balance checks: fewer than two lines refuse first, then
/// unequal totals. `None` when a total overflows the decimal range.
pub fn check_balance(lines: &Vec<PostingLine>) -> (r: Option<Result<(), PostingError>>)
    requires
        lines_wf(lines@),
    ensures
        lines@.len() < 2 ==> r matches Some(Err(PostingError::TooFewLines)),
        lines@.len() >= 2 ==> (r is None <==> (sum_of(debits(lines@)) is None || sum_of(
            credits(lines@),
        ) is None)),
        lines@.len() >= 2 && balanced(lines@) ==> r matches Some(Ok(())),
        lines@.len() >= 2 && !balanced(lines@) && r is Some ==> r matches Some(
            Err(PostingError::Unbalanced),
        ),
{
    if lines.len() < 2 {
        return Some(Err(PostingError::TooFewLines));
    }
    match totals(lines) {
        None => None,
        Some((d, c)) => {
            if dec_eq(d, c) {
                Some(Ok(()))
            } else {
                Some(Err(PostingError::Unbalanced))
            }
        },
    }
}

/// The first account with id `id` among the first `n`.
pub open spec fn account_index(a: Seq<AccountInfo>, id: u128, n: int) -> Option<int>
    decreases n,
{
    if n <= 0 {
        None
    } else if account_index(a, id, n - 1) is Some {
        account_index(a, id, n - 1)
    } else if a[n - 1].id == id {
        Some(n - 1)
    } else {
        None
    }
}

pub proof fn lemma_account_index_stable(a: Seq<AccountInfo>, id: u128, n: int, m: int)
    requires
        0 <= n <= m,
        account_index(a, id, n) is Some,
    ensures
        account_index(a, id, m) == account_index(a, id, n),
    decreases m - n,
{
    if m > n {
        lemma_account_index_stable(a, id, n, m - 1);
    }
}

pub proof fn lemma_account_index_bounds(a: Seq<AccountInfo>, id: u128, n: int)
    ensures
        account_index(a, id, n) matches Some(k) ==> 0 <= k < n && a[k].id == id,
    decreases n,
{
    if n > 0 {
        lemma_account_index_bounds(a, id, n - 1);
    }
}

/// The position of the first account with id `id`.
pub fn find_account(accounts: &Vec<AccountInfo>, id: u128) -> (r: Option<usize>)
    ensures
        match r {
            Some(k) => account_index(accounts@, id, accounts@.len() as int) == Some(k as int) && k
                < accounts@.len(),
            None => account_index(accounts@, id, accounts@.len() as int) is None,
        },
{
    let mut i: usize = 0;
    while i < accounts.len()
        invariant
            i <= accounts.len(),
            account_index(accounts@, id, i as int) is None,
        decreases accounts.len() - i,
    {
        if accounts[i].id == id {
            proof {
                assert(account_index(accounts@, id, i + 1) == Some(i as int));
                lemma_account_index_stable(accounts@, id, i + 1, accounts.len() as int);
            }
            return Some(i);
        }
        i = i + 1;
    }
    None
}

/// An account that takes postings: a detail, non-header, active account.
pub open spec fn postable(a: AccountInfo) -> bool {
    !a.is_header && a.is_detail && a.status@ == "active"@
}

/// A receivable or payable account, which needs a party on every line.
pub open spec fn party_account(a: AccountInfo) -> bool {
    a.subtype@ == "accounts_receivable"@ || a.subtype@ == "accounts_payable"@
}

/// Which check a line fails against the loaded accounts (0: none):
/// 1 account missing, 2 not postable, 3 party required, 4 party not allowed.
pub open spec fn line_refusal(l: PostingLine, a: Seq<AccountInfo>) -> nat {
    match account_index(a, l.account_id, a.len() as int) {
        None => 1,
        Some(k) => if !postable(a[k]) {
            2
        } else if party_account(a[k]) && !(l.party_type is Some && l.party_id is Some) {
            3
        } else if !party_account(a[k]) && (l.party_type is Some || l.party_id is Some) {
            4
        } else {
            0
        },
    }
}

/// The party rule of a posting line. When the line's account is found (at
/// `k`) and is an active, detail, non-header account: a receivable or payable account takes the line exactly when it
/// names both a party type and a party (otherwise `PartyRequired`, check 3);
/// any other account takes it exactly when it names neither (otherwise
/// `PartyNotAllowed`, check 4).
pub proof fn lemma_party_rule(l: PostingLine, a: Seq<AccountInfo>, k: int)
    ensures
        account_index(a, l.account_id, a.len() as int) == Some(k) && postable(a[k]) ==> {
            let sub = a[k].subtype@;
            let has_party = l.party_type is Some && l.party_id is Some;
            let any_party = l.party_type is Some || l.party_id is Some;
            &&& (sub == "accounts_receivable"@ || sub == "accounts_payable"@) ==> (line_refusal(l, a) == if has_party {
                0nat
            } else {
                3nat
            })
            &&& !(sub == "accounts_receivable"@ || sub == "accounts_payable"@) ==> (line_refusal(l, a) == if any_party {
                4nat
            } else {
                0nat
            })
        },
{
}

/// The error of a line failing check `k`.
pub open spec fn line_error(l: PostingLine, a: Seq<AccountInfo>, e: PostingError) -> bool {
    let k = line_refusal(l, a);
    match e {
        PostingError::AccountNotFound(id) => k == 1 && id == l.account_id,
        PostingError::NonPostableAccount(n) => k == 2 && n@ == a[account_index(
            a,
            l.account_id,
            a.len() as int,
        ).unwrap()].number@,
        PostingError::PartyRequired(n) => k == 3 && n@ == a[account_index(
            a,
            l.account_id,
            a.len() as int,
        ).unwrap()].number@,
        PostingError::PartyNotAllowed(n) => k == 4 && n@ == a[account_index(
            a,
            l.account_id,
            a.len() as int,
        ).unwrap()].number@,
        _ => false,
    }
}

/// The first of the first `n` lines that fails a check.
pub open spec fn first_line_refusal(lines: Seq<PostingLine>, a: Seq<AccountInfo>, n: int) -> Option<
    int,
>
    decreases n,
{
    if n <= 0 {
        None
    } else if first_line_refusal(lines, a, n - 1) is Some {
        first_line_refusal(lines, a, n - 1)
    } else if line_refusal(lines[n - 1], a) != 0 {
        Some(n - 1)
    } else {
        None
    }
}

pub proof fn lemma_first_line_refusal_stable(
    lines: Seq<PostingLine>,
    a: Seq<AccountInfo>,
    n: int,
    m: int,
)
    requires
        0 <= n <= m,
        first_line_refusal(lines, a, n) is Some,
    ensures
        first_line_refusal(lines, a, m) == first_line_refusal(lines, a, n),
    decreases m - n,
{
    if m > n {
        lemma_first_line_refusal_stable(lines, a, n, m - 1);
    }
}

fn check_line(l: &PostingLine, accounts: &Vec<AccountInfo>) -> (r: Result<(), PostingError>)
    ensures
        r is Ok <==> line_refusal(*l, accounts@) == 0,
        r matches Err(e) ==> line_error(*l, accounts@, e),
{
    let k = match find_account(accounts, l.account_id) {
        Some(k) => k,
        None => {
            return Err(PostingError::AccountNotFound(l.account_id));
        },
    };
    let acct = &accounts[k];
    proof {
        reveal_strlit("active");
        reveal_strlit("accounts_receivable");
        reveal_strlit("accounts_payable");
    }
    if acct.is_header || !acct.is_detail || !str_eq(acct.status.as_str(), "active") {
        return Err(PostingError::NonPostableAccount(acct.number.clone()));
    }
    let is_party_account = str_eq(acct.subtype.as_str(), "accounts_receivable") || str_eq(
        acct.subtype.as_str(),
        "accounts_payable",
    );
    let has_party = l.party_type.is_some() && l.party_id.is_some();
    if is_party_account && !has_party {
        return Err(PostingError::PartyRequired(acct.number.clone()));
    }
    if !is_party_account && (l.party_type.is_some() || l.party_id.is_some()) {
        return Err(PostingError::PartyNotAllowed(acct.number.clone()));
    }
    Ok(())
}

/// The per-line account checks, in line order.
pub fn check_line_accounts(lines: &Vec<PostingLine>, accounts: &Vec<AccountInfo>) -> (r: Result<
    (),
    PostingError,
>)
    ensures
        r is Ok <==> first_line_refusal(lines@, accounts@, lines@.len() as int) is None,
        first_line_refusal(lines@, accounts@, lines@.len() as int) matches Some(i) ==> (r matches Err(
            e,
        ) && line_error(lines@[i], accounts@, e)),
{
    let mut i: usize = 0;
    while i < lines.len()
        invariant
            i <= lines.len(),
            first_line_refusal(lines@, accounts@, i as int) is None,
        decreases lines.len() - i,
    {
        match check_line(&lines[i], accounts) {
            Ok(()) => {},
            Err(e) => {
                proof {
                    assert(first_line_refusal(lines@, accounts@, i + 1) == Some(i as int));
                    lemma_first_line_refusal_stable(lines@, accounts@, i + 1, lines.len() as int);
                }
                return Err(e);
            },
        }
        i = i + 1;
    }
    Ok(())
}

/// Validate a posting against its loaded accounts and whether its fiscal
/// period is closed or locked, in the order: line count, balance, per-line
/// accounts, period. `None` when a total overflows the decimal range.
pub fn validate_posting(
    lines: &Vec<PostingLine>,
    accounts: &Vec<AccountInfo>,
    period_blocked: bool,
) -> (r: Option<Result<(), PostingError>>)
    requires
        lines_wf(lines@),
    ensures
        lines@.len() < 2 ==> r matches Some(Err(PostingError::TooFewLines)),
        lines@.len() >= 2 ==> (r is None <==> (sum_of(debits(lines@)) is None || sum_of(
            credits(lines@),
        ) is None)),
        lines@.len() >= 2 && !balanced(lines@) && r is Some ==> r matches Some(
            Err(PostingError::Unbalanced),
        ),
        lines@.len() >= 2 && balanced(lines@) ==> match first_line_refusal(
            lines@,
            accounts@,
            lines@.len() as int,
        ) {
            Some(i) => r matches Some(Err(e)) && line_error(lines@[i], accounts@, e),
            None => if period_blocked {
                r matches Some(Err(PostingError::PeriodClosed))
            } else {
                r matches Some(Ok(()))
            },
        },
{
    match check_balance(lines) {
        None => {
            return None;
        },
        Some(Err(e)) => {
            return Some(Err(e));
        },
        Some(Ok(())) => {},
    }
    match check_line_accounts(lines, accounts) {
        Err(e) => {
            return Some(Err(e));
        },
        Ok(()) => {},
    }
    if period_blocked {
        return Some(Err(PostingError::PeriodClosed));
    }
    Some(Ok(()))
}

/// The swapped line of a reversal: debit and credit exchanged, the rest kept,
/// described as "Reversal".
pub open spec fn reversed_line(l: PostingLine, r: PostingLine) -> bool {
    &&& r.account_id == l.account_id
    &&& r.debit == l.credit
    &&& r.credit == l.debit
    &&& r.party_type == l.party_type
    &&& r.party_id == l.party_id
    &&& r.cost_center_id == l.cost_center_id
    &&& r.project_id == l.project_id
    &&& r.department_id == l.department_id
    &&& r.description matches Some(d) && d@ == "Reversal"@
}

/// The lines of the reversal of a posted journal: each original line with
/// debit and credit swapped, in the original order.
pub fn reversal_lines(original: &Vec<PostingLine>) -> (r: Vec<PostingLine>)
    ensures
        r@.len() == original@.len(),
        forall|i: int| 0 <= i < r@.len() ==> reversed_line(original@[i], #[trigger] r@[i]),
{
    let mut r: Vec<PostingLine> = Vec::new();
    let mut i: usize = 0;
    while i < original.len()
        invariant
            i <= original.len(),
            r@.len() == i,
            forall|k: int| 0 <= k < i ==> reversed_line(original@[k], #[trigger] r@[k]),
        decreases original.len() - i,
    {
        let l = &original[i];
        r.push(
            PostingLine {
                account_id: l.account_id,
                debit: l.credit,
                credit: l.debit,
                party_type: l.party_type.clone(),
                party_id: l.party_id,
                cost_center_id: l.cost_center_id,
                project_id: l.project_id,
                department_id: l.department_id,
                description: Some(string_from("Reversal")),
            },
        );
        i = i + 1;
    }
    r
}

/// Reversing swaps the totals, so the reversal of a balanced posting is
/// balanced (and only then).
pub proof fn lemma_reversal_balanced(original: Seq<PostingLine>, rev: Seq<PostingLine>)
    requires
        rev.len() == original.len(),
        forall|i: int| 0 <= i < rev.len() ==> reversed_line(original[i], #[trigger] rev[i]),
    ensures
        debits(rev) == credits(original),
        credits(rev) == debits(original),
        balanced(rev) == balanced(original),
{
    assert(debits(rev) =~= credits(original));
    assert(credits(rev) =~= debits(original));
}

/// The journal type and journal source labels of a posting's source and
/// posting type.
pub open spec fn source_labels(source_type: Seq<char>, posting_type: Seq<char>) -> (Seq<char>, Seq<
    char,
>) {
    if posting_type == "reversal"@ {
        ("reversing"@, "adjustment"@)
    } else if source_type == "order"@ {
        ("sales"@, "order"@)
    } else if source_type == "payment"@ {
        ("cash_receipt"@, "payment"@)
    } else if source_type == "settlement"@ {
        ("general"@, "settlement"@)
    } else if source_type == "refund"@ {
        ("general"@, "adjustment"@)
    } else if source_type == "expense"@ {
        ("purchase"@, "adjustment"@)
    } else if source_type == "inventory"@ {
        ("general"@, "system"@)
    } else {
        ("general"@, "manual"@)
    }
}

/// Map a posting source type and posting type to (journal_type,
/// journal_source) labels.
pub fn map_source(source_type: &str, posting_type: &str) -> (r: (&'static str, &'static str))
    ensures
        (r.0@, r.1@) == source_labels(source_type@, posting_type@),
{
    if str_eq(posting_type, "reversal") {
        return ("reversing", "adjustment");
    }
    if str_eq(source_type, "order") {
        ("sales", "order")
    } else if str_eq(source_type, "payment") {
        ("cash_receipt", "payment")
    } else if str_eq(source_type, "settlement") {
        ("general", "settlement")
    } else if str_eq(source_type, "refund") {
        ("general", "adjustment")
    } else if str_eq(source_type, "expense") {
        ("purchase", "adjustment")
    } else if str_eq(source_type, "inventory") {
        ("general", "system")
    } else {
        ("general", "manual")
    }
}

// ---------------------------------------------------------------------------
// Ledger plan: running balances and sequence numbers
// ---------------------------------------------------------------------------

/// The running state of one account while ledger rows are planned: seeded
/// from the (locked) account's current balance and its highest ledger sequence
/// number.
#[derive(Debug, Clone, Copy)]
pub struct LedgerAccountState {
    pub account_id: u128,
    /// The account's normal balance is "debit".
    pub debit_normal: bool,
    pub balance: Amount,
    pub sequence: i32,
}

/// One immutable ledger row to write for one posting line.
#[derive(Debug, Clone, Copy)]
pub struct LedgerEntryPlan {
    pub account_id: u128,
    pub balance_before: Amount,
    pub balance_change: Amount,
    pub balance_after: Amount,
    pub sequence_number: i32,
}

/// The rows to write, the final account states, and the posting's totals.
#[derive(Debug, Clone)]
pub struct LedgerPlan {
    pub entries: Vec<LedgerEntryPlan>,
    pub accounts: Vec<LedgerAccountState>,
    pub total_debit: Amount,
    pub total_credit: Amount,
}

/// The first state of account `id` among the first `n`.
pub open spec fn state_index(s: Seq<LedgerAccountState>, id: u128, n: int) -> Option<int>
    decreases n,
{
    if n <= 0 {
        None
    } else if state_index(s, id, n - 1) is Some {
        state_index(s, id, n - 1)
    } else if s[n - 1].account_id == id {
        Some(n - 1)
    } else {
        None
    }
}

pub proof fn lemma_state_index_stable(s: Seq<LedgerAccountState>, id: u128, n: int, m: int)
    requires
        0 <= n <= m,
        state_index(s, id, n) is Some,
    ensures
        state_index(s, id, m) == state_index(s, id, n),
    decreases m - n,
{
    if m > n {
        lemma_state_index_stable(s, id, n, m - 1);
    }
}

pub proof fn lemma_state_index_bounds(s: Seq<LedgerAccountState>, id: u128, n: int)
    ensures
        state_index(s, id, n) matches Some(k) ==> 0 <= k < n && s[k].account_id == id,
    decreases n,
{
    if n > 0 {
        lemma_state_index_bounds(s, id, n - 1);
    }
}

/// The index of account `id` does not depend on balances and sequences.
pub proof fn lemma_state_index_update(
    s: Seq<LedgerAccountState>,
    k: int,
    v: LedgerAccountState,
    id: u128,
    n: int,
)
    requires
        0 <= k < s.len(),
        n <= s.len(),
        v.account_id == s[k].account_id,
    ensures
        state_index(s.update(k, v), id, n) == state_index(s, id, n),
    decreases n,
{
    if n > 0 {
        lemma_state_index_update(s, k, v, id, n - 1);
    }
}

pub open spec fn states_wf(s: Seq<LedgerAccountState>) -> bool {
    forall|i: int| 0 <= i < s.len() ==> (#[trigger] s[i]).balance.wf()
}

/// Every line's account has a state.
pub open spec fn accounts_known(lines: Seq<PostingLine>, s: Seq<LedgerAccountState>) -> bool {
    forall|i: int| 0 <= i < lines.len() ==> state_index(s, (#[trigger] lines[i]).account_id, s.len() as int) is Some
}

/// One line: the change on the account's normal side, the running balance
/// after it, and the next sequence number; `None` on overflow.
pub open spec fn plan_step(s: Seq<LedgerAccountState>, l: PostingLine) -> Option<
    (Seq<LedgerAccountState>, LedgerEntryPlan),
> {
    let k = state_index(s, l.account_id, s.len() as int).unwrap();
    let st = s[k];
    let change = if st.debit_normal {
        sub_spec(l.debit, l.credit)
    } else {
        sub_spec(l.credit, l.debit)
    };
    match change {
        None => None,
        Some(c) => match add_spec(st.balance, c) {
            None => None,
            Some(after) => if st.sequence == i32::MAX {
                None
            } else {
                let next = (st.sequence + 1) as i32;
                Some(
                    (
                        s.update(
                            k,
                            LedgerAccountState { balance: after, sequence: next, ..st },
                        ),
                        LedgerEntryPlan {
                            account_id: l.account_id,
                            balance_before: st.balance,
                            balance_change: c,
                            balance_after: after,
                            sequence_number: next,
                        },
                    ),
                )
            },
        },
    }
}

/// The plan of the first lines: entries, states, Σ debit, Σ credit.
pub open spec fn ledger_plan(lines: Seq<PostingLine>, s0: Seq<LedgerAccountState>) -> Option<
    (Seq<LedgerEntryPlan>, Seq<LedgerAccountState>, Amount, Amount),
>
    decreases lines.len(),
{
    if lines.len() == 0 {
        Some((seq![], s0, Amount { mantissa: 0, scale: 0 }, Amount { mantissa: 0, scale: 0 }))
    } else {
        match ledger_plan(lines.drop_last(), s0) {
            None => None,
            Some((es, s, td, tc)) => {
                let l = lines.last();
                match (add_spec(td, l.debit), add_spec(tc, l.credit)) {
                    (Some(td2), Some(tc2)) => match plan_step(s, l) {
                        None => None,
                        Some((s2, e)) => Some((es.push(e), s2, td2, tc2)),
                    },
                    _ => None,
                }
            },
        }
    }
}

fn find_state(states: &Vec<LedgerAccountState>, id: u128) -> (r: Option<usize>)
    ensures
        match r {
            Some(k) => state_index(states@, id, states@.len() as int) == Some(k as int) && k
                < states@.len(),
            None => state_index(states@, id, states@.len() as int) is None,
        },
{
    let mut i: usize = 0;
    while i < states.len()
        invariant
            i <= states.len(),
            state_index(states@, id, i as int) is None,
        decreases states.len() - i,
    {
        if states[i].account_id == id {
            proof {
                assert(state_index(states@, id, i + 1) == Some(i as int));
                lemma_state_index_stable(states@, id, i + 1, states.len() as int);
            }
            return Some(i);
        }
        i = i + 1;
    }
    None
}

/// Plan the ledger rows of a posting: for each line, in order, the balance
/// change on the account's normal side (debit - credit for debit-normal
/// accounts, credit - debit otherwise), the running balance before and after,
/// and the next sequence number of that account; plus the final states and the
/// totals. `None` when the decimal arithmetic or a sequence number overflows.
pub fn plan_ledger_entries(lines: &Vec<PostingLine>, accounts: Vec<LedgerAccountState>) -> (r:
    Option<LedgerPlan>)
    requires
        lines_wf(lines@),
        states_wf(accounts@),
        accounts_known(lines@, accounts@),
    ensures
        match ledger_plan(lines@, accounts@) {
            None => r is None,
            Some((es, s, td, tc)) => r matches Some(p) && p.entries@ == es && p.accounts@ == s
                && p.total_debit == td && p.total_credit == tc,
        },
{
    let mut states = accounts;
    let ghost s0 = states@;
    let mut entries: Vec<LedgerEntryPlan> = Vec::new();
    let mut td = Amount::zero();
    let mut tc = Amount::zero();
    let mut i: usize = 0;
    while i < lines.len()
        invariant
            i <= lines.len(),
            lines_wf(lines@),
            accounts_known(lines@, s0),
            s0 == accounts@,
            states@.len() == s0.len(),
            states_wf(states@),
            td.wf(),
            tc.wf(),
            forall|id: u128| state_index(states@, id, states@.len() as int) == state_index(s0, id, s0.len() as int),
            ledger_plan(lines@.subrange(0, i as int), s0) == Some((entries@, states@, td, tc)),
        decreases lines.len() - i,
    {
        let l = &lines[i];
        proof {
            let t = lines@.subrange(0, i + 1);
            assert(t.drop_last() =~= lines@.subrange(0, i as int));
            assert(t.last() == lines@[i as int]);
            assert(lines@[i as int].debit.wf() && lines@[i as int].credit.wf());
            assert(state_index(s0, lines@[i as int].account_id, s0.len() as int) is Some);
        }
        let td2 = dec_add(td, l.debit);
        let tc2 = dec_add(tc, l.credit);
        proof {
            lemma_amount_opt(td2);
            lemma_amount_opt(tc2);
        }
        let (td2, tc2) = match (td2, tc2) {
            (Some(a), Some(b)) => (a, b),
            _ => {
                proof {
                    assert(ledger_plan(lines@.subrange(0, i + 1), s0) is None);
                    lemma_plan_none_stays(lines@, s0, i + 1, lines.len() as int);
                    assert(lines@.subrange(0, lines.len() as int) =~= lines@);
                }
                return None;
            },
        };
        let k = match find_state(&states, l.account_id) {
            Some(k) => k,
            None => {
                proof {
                    assert(state_index(states@, l.account_id, states@.len() as int) == state_index(
                        s0,
                        l.account_id,
                        s0.len() as int,
                    ));
                }
                return None;
            },
        };
        let st = states[k];
        proof {
            lemma_state_index_bounds(states@, l.account_id, states@.len() as int);
        }
        let change = if st.debit_normal {
            dec_sub(l.debit, l.credit)
        } else {
            dec_sub(l.credit, l.debit)
        };
        proof {
            lemma_amount_opt(change);
        }
        let change = match change {
            Some(c) => c,
            None => {
                proof {
                    assert(plan_step(states@, lines@[i as int]) is None);
                    assert(ledger_plan(lines@.subrange(0, i + 1), s0) is None);
                    lemma_plan_none_stays(lines@, s0, i + 1, lines.len() as int);
                    assert(lines@.subrange(0, lines.len() as int) =~= lines@);
                }
                return None;
            },
        };
        let after = dec_add(st.balance, change);
        proof {
            lemma_amount_opt(after);
        }
        let after = match after {
            Some(a) => a,
            None => {
                proof {
                    assert(plan_step(states@, lines@[i as int]) is None);
                    assert(ledger_plan(lines@.subrange(0, i + 1), s0) is None);
                    lemma_plan_none_stays(lines@, s0, i + 1, lines.len() as int);
                    assert(lines@.subrange(0, lines.len() as int) =~= lines@);
                }
                return None;
            },
        };
        if st.sequence == i32::MAX {
            proof {
                assert(plan_step(states@, lines@[i as int]) is None);
                assert(ledger_plan(lines@.subrange(0, i + 1), s0) is None);
                lemma_plan_none_stays(lines@, s0, i + 1, lines.len() as int);
                assert(lines@.subrange(0, lines.len() as int) =~= lines@);
            }
            return None;
        }
        let next = st.sequence + 1;
        let new_state = LedgerAccountState { balance: after, sequence: next, ..st };
        proof {
            assert forall|id: u128| state_index(states@.update(k as int, new_state), id, states@.len() as int)
                == state_index(s0, id, s0.len() as int) by {
                lemma_state_index_update(states@, k as int, new_state, id, states@.len() as int);
            }
        }
        states.set(k, new_state);
        entries.push(
            LedgerEntryPlan {
                account_id: l.account_id,
                balance_before: st.balance,
                balance_change: change,
                balance_after: after,
                sequence_number: next,
            },
        );
        td = td2;
        tc = tc2;
        i = i + 1;
    }
    proof {
        assert(lines@.subrange(0, lines.len() as int) =~= lines@);
    }
    Some(LedgerPlan { entries, accounts: states, total_debit: td, total_credit: tc })
}

pub proof fn lemma_plan_none_stays(
    lines: Seq<PostingLine>,
    s0: Seq<LedgerAccountState>,
    n: int,
    m: int,
)
    requires
        0 <= n <= m <= lines.len(),
        ledger_plan(lines.subrange(0, n), s0) is None,
    ensures
        ledger_plan(lines.subrange(0, m), s0) is None,
    decreases m - n,
{
    if m > n {
        lemma_plan_none_stays(lines, s0, n, m - 1);
        assert(lines.subrange(0, m).drop_last() =~= lines.subrange(0, m - 1));
    }
}

/// How many of `lines` post to account `id`.
pub open spec fn lines_on(lines: Seq<PostingLine>, id: u128) -> nat
    decreases lines.len(),
{
    if lines.len() == 0 {
        0
    } else {
        lines_on(lines.drop_last(), id) + if lines.last().account_id == id {
            1nat
        } else {
            0nat
        }
    }
}

/// The plan keeps the account ids of the states in place.
pub proof fn lemma_plan_keeps_ids(lines: Seq<PostingLine>, s0: Seq<LedgerAccountState>)
    requires
        ledger_plan(lines, s0) is Some,
        accounts_known(lines, s0),
    ensures
        ({
            let s = ledger_plan(lines, s0).unwrap().1;
            &&& s.len() == s0.len()
            &&& forall|i: int| 0 <= i < s.len() ==> (#[trigger] s[i]).account_id == s0[i].account_id
            &&& forall|id: u128| state_index(s, id, s.len() as int) == state_index(s0, id, s0.len() as int)
        }),
    decreases lines.len(),
{
    if lines.len() > 0 {
        let init = lines.drop_last();
        assert(accounts_known(init, s0)) by {
            assert forall|i: int| 0 <= i < init.len() implies state_index(
                s0,
                (#[trigger] init[i]).account_id,
                s0.len() as int,
            ) is Some by {
                assert(init[i] == lines[i]);
            }
        }
        lemma_plan_keeps_ids(init, s0);
        let (es, s, td, tc) = ledger_plan(init, s0).unwrap();
        let l = lines.last();
        assert(state_index(s0, lines[lines.len() - 1].account_id, s0.len() as int) is Some);
        let k = state_index(s, l.account_id, s.len() as int).unwrap();
        lemma_state_index_bounds(s, l.account_id, s.len() as int);
        let (s2, e) = plan_step(s, l).unwrap();
        let st = s[k];
        let v = s2[k];
        assert(s2 == s.update(k, v));
        assert forall|id: u128| state_index(s2, id, s2.len() as int) == state_index(s0, id, s0.len() as int) by {
            lemma_state_index_update(s, k, v, id, s.len() as int);
        }
    }
}

/// The change a line makes on an account, on its normal side: debit -
/// credit for a debit-normal account, credit - debit otherwise.
pub open spec fn normal_change(debit_normal: bool, l: PostingLine) -> Option<Amount> {
    if debit_normal {
        sub_spec(l.debit, l.credit)
    } else {
        sub_spec(l.credit, l.debit)
    }
}

/// The rows of a plan: each takes its line's change on the account's normal
/// side and adds it to the balance before; the states keep their normal
/// sides; and the totals are the sums of the lines' debits and credits.
pub proof fn lemma_plan_rows(lines: Seq<PostingLine>, s0: Seq<LedgerAccountState>)
    requires
        ledger_plan(lines, s0) is Some,
        accounts_known(lines, s0),
    ensures
        ({
            let (es, s, td, tc) = ledger_plan(lines, s0).unwrap();
            &&& es.len() == lines.len()
            &&& s.len() == s0.len()
            &&& forall|i: int| 0 <= i < s.len() ==> (#[trigger] s[i]).debit_normal == s0[i].debit_normal
            &&& forall|k: int|
                0 <= k < es.len() ==> Some((#[trigger] es[k]).balance_change) == normal_change(
                    s0[state_index(s0, lines[k].account_id, s0.len() as int).unwrap()].debit_normal,
                    lines[k],
                ) && add_spec(es[k].balance_before, es[k].balance_change) == Some(es[k].balance_after)
            &&& sum_of(debits(lines)) == Some((td.mantissa, td.scale))
            &&& sum_of(credits(lines)) == Some((tc.mantissa, tc.scale))
        }),
    decreases lines.len(),
{
    lemma_plan_keeps_ids(lines, s0);
    if lines.len() == 0 {
        assert(debits(lines) =~= Seq::<Amount>::empty());
        assert(credits(lines) =~= Seq::<Amount>::empty());
    } else {
        let init = lines.drop_last();
        assert(accounts_known(init, s0)) by {
            assert forall|i: int| 0 <= i < init.len() implies state_index(
                s0,
                (#[trigger] init[i]).account_id,
                s0.len() as int,
            ) is Some by {
                assert(init[i] == lines[i]);
            }
        }
        lemma_plan_rows(init, s0);
        lemma_plan_keeps_ids(init, s0);
        let (es, s, td, tc) = ledger_plan(init, s0).unwrap();
        let l = lines.last();
        assert(l == lines[lines.len() - 1]);
        let k = state_index(s, l.account_id, s.len() as int).unwrap();
        lemma_state_index_bounds(s, l.account_id, s.len() as int);
        let (s2, e) = plan_step(s, l).unwrap();
        let (es2, s3, td2, tc2) = ledger_plan(lines, s0).unwrap();
        assert(s3 == s2 && es2 == es.push(e));
        assert forall|i: int| 0 <= i < s2.len() implies (#[trigger] s2[i]).debit_normal == s0[i].debit_normal by {
            if i == k {
                assert(s2[i].debit_normal == s[k].debit_normal);
            }
        }
        assert forall|j: int| 0 <= j < es2.len() implies Some((#[trigger] es2[j]).balance_change) == normal_change(
            s0[state_index(s0, lines[j].account_id, s0.len() as int).unwrap()].debit_normal,
            lines[j],
        ) && add_spec(es2[j].balance_before, es2[j].balance_change) == Some(es2[j].balance_after) by {
            if j < es.len() {
                assert(es2[j] == es[j]);
                assert(lines[j] == init[j]);
            } else {
                assert(es2[j] == e);
                assert(state_index(s0, l.account_id, s0.len() as int) == Some(k));
            }
        }
        assert(debits(lines).drop_last() =~= debits(init));
        assert(credits(lines).drop_last() =~= credits(init));
        assert(debits(lines).last() == l.debit);
        assert(credits(lines).last() == l.credit);
    }
}

/// Appending a posting's ledger entries. For lines whose accounts are all
/// known, a plan that does not overflow returns the sums of the debits and
/// of the credits; the k-th row on an account carries that account's
/// sequence number plus the count of its lines so far, takes its line's change
/// on the account's normal side, opens at the account's starting balance
/// (its first row) or the previous row's closing balance, and closes at the
/// opening plus the change; and each account ends at its last row's closing
/// balance, with its sequence advanced by its number of lines.
pub proof fn lemma_append_ledger_entries(lines: Seq<PostingLine>, s0: Seq<LedgerAccountState>)
    requires
        ledger_plan(lines, s0) is Some,
        accounts_known(lines, s0),
    ensures
        ({
            let (es, s, td, tc) = ledger_plan(lines, s0).unwrap();
            &&& sum_of(debits(lines)) == Some((td.mantissa, td.scale))
            &&& sum_of(credits(lines)) == Some((tc.mantissa, tc.scale))
            &&& es.len() == lines.len()
            &&& forall|k: int| 0 <= k < es.len() ==> {
                let i0 = state_index(s0, lines[k].account_id, s0.len() as int).unwrap();
                &&& (#[trigger] es[k]).account_id == lines[k].account_id
                &&& es[k].sequence_number == s0[i0].sequence + lines_on(lines.subrange(0, k + 1), lines[k].account_id)
                &&& Some(es[k].balance_change) == normal_change(s0[i0].debit_normal, lines[k])
                &&& es[k].balance_before == balance_after_last(es, lines[k].account_id, k, s0[i0].balance)
                &&& add_spec(es[k].balance_before, es[k].balance_change) == Some(es[k].balance_after)
            }
            &&& forall|i: int|
                0 <= i < s0.len() && state_index(s0, s0[i].account_id, s0.len() as int) == Some(i) ==> {
                    &&& (#[trigger] s[i]).balance == balance_after_last(es, s0[i].account_id, es.len() as int, s0[i].balance)
                    &&& s[i].sequence == s0[i].sequence + lines_on(lines, s0[i].account_id)
                }
        }),
{
    lemma_plan_rows(lines, s0);
    lemma_plan_sequences(lines, s0);
    lemma_plan_running_balances(lines, s0);
}

/// Ledger sequence numbers are consecutive per account. After a plan,
/// each account's sequence has advanced by exactly the number of lines posted
/// to it, and each row carries the account's previous sequence plus the count
/// of its lines so far.
pub proof fn lemma_plan_sequences(lines: Seq<PostingLine>, s0: Seq<LedgerAccountState>)
    requires
        ledger_plan(lines, s0) is Some,
        accounts_known(lines, s0),
    ensures
        ({
            let (es, s, td, tc) = ledger_plan(lines, s0).unwrap();
            &&& es.len() == lines.len()
            &&& forall|i: int|
                0 <= i < s0.len() && state_index(s0, s0[i].account_id, s0.len() as int) == Some(i)
                    ==> (#[trigger] s[i]).sequence == s0[i].sequence + lines_on(
                    lines,
                    s0[i].account_id,
                )
            &&& forall|k: int|
                0 <= k < es.len() ==> (#[trigger] es[k]).sequence_number == s0[state_index(
                    s0,
                    lines[k].account_id,
                    s0.len() as int,
                ).unwrap()].sequence + lines_on(lines.subrange(0, k + 1), lines[k].account_id)
        }),
    decreases lines.len(),
{
    if lines.len() > 0 {
        let init = lines.drop_last();
        assert(accounts_known(init, s0)) by {
            assert forall|i: int| 0 <= i < init.len() implies state_index(
                s0,
                (#[trigger] init[i]).account_id,
                s0.len() as int,
            ) is Some by {
                assert(init[i] == lines[i]);
            }
        }
        lemma_plan_sequences(init, s0);
        lemma_plan_keeps_ids(init, s0);
        let (es, s, td, tc) = ledger_plan(init, s0).unwrap();
        let l = lines.last();
        assert(state_index(s0, lines[lines.len() - 1].account_id, s0.len() as int) is Some);
        let k = state_index(s, l.account_id, s.len() as int).unwrap();
        lemma_state_index_bounds(s, l.account_id, s.len() as int);
        lemma_state_index_bounds(s0, l.account_id, s0.len() as int);
        let (s2, e) = plan_step(s, l).unwrap();
        let (es2, s3, td2, tc2) = ledger_plan(lines, s0).unwrap();
        assert(s3 == s2);
        assert(es2 == es.push(e));
        assert forall|i: int|
            0 <= i < s0.len() && state_index(s0, s0[i].account_id, s0.len() as int) == Some(i)
                implies (#[trigger] s3[i]).sequence == s0[i].sequence + lines_on(
                lines,
                s0[i].account_id,
            ) by {
            if i == k {
                assert(l.account_id == s0[i].account_id);
            } else {
                if l.account_id == s0[i].account_id {
                    assert(state_index(s0, l.account_id, s0.len() as int) == Some(i));
                }
            }
        }
        assert forall|j: int| 0 <= j < es2.len() implies (#[trigger] es2[j]).sequence_number
            == s0[state_index(s0, lines[j].account_id, s0.len() as int).unwrap()].sequence
            + lines_on(lines.subrange(0, j + 1), lines[j].account_id) by {
            if j < es.len() {
                assert(es2[j] == es[j]);
                assert(init[j] == lines[j]);
                assert(init.subrange(0, j + 1) =~= lines.subrange(0, j + 1));
            } else {
                assert(lines.subrange(0, j + 1) =~= lines);
                let i = k;
                assert(state_index(s0, l.account_id, s0.len() as int) == Some(k));
                assert(state_index(s0, s0[k].account_id, s0.len() as int) == Some(k));
            }
        }
    }
}

/// The balance after the last of the first `k` rows on account `id`, or
/// `b0` when none of them is on it.
pub open spec fn balance_after_last(es: Seq<LedgerEntryPlan>, id: u128, k: int, b0: Amount) -> Amount
    decreases k,
{
    if k <= 0 {
        b0
    } else if es[k - 1].account_id == id {
        es[k - 1].balance_after
    } else {
        balance_after_last(es, id, k - 1, b0)
    }
}

proof fn lemma_balance_after_last_prefix(es: Seq<LedgerEntryPlan>, e: LedgerEntryPlan, id: u128, k: int, b0: Amount)
    requires
        k <= es.len(),
    ensures
        balance_after_last(es.push(e), id, k, b0) == balance_after_last(es, id, k, b0),
    decreases k,
{
    if k > 0 {
        lemma_balance_after_last_prefix(es, e, id, k - 1, b0);
        assert(es.push(e)[k - 1] == es[k - 1]);
    }
}

/// The running balance chains per account: each planned row is on its
/// line's account and opens at the balance that account closed at on its
/// previous row of the posting (at its starting balance for its first row),
/// and each account ends at the balance of its last row (or where it
/// started, when no line is posted to it).
pub proof fn lemma_plan_running_balances(lines: Seq<PostingLine>, s0: Seq<LedgerAccountState>)
    requires
        ledger_plan(lines, s0) is Some,
        accounts_known(lines, s0),
    ensures
        ({
            let (es, s, td, tc) = ledger_plan(lines, s0).unwrap();
            &&& es.len() == lines.len()
            &&& forall|k: int| 0 <= k < es.len() ==> (#[trigger] es[k]).account_id == lines[k].account_id
                && es[k].balance_before == balance_after_last(
                es,
                lines[k].account_id,
                k,
                s0[state_index(s0, lines[k].account_id, s0.len() as int).unwrap()].balance,
            )
            &&& forall|i: int|
                0 <= i < s0.len() && state_index(s0, s0[i].account_id, s0.len() as int) == Some(i)
                    ==> (#[trigger] s[i]).balance == balance_after_last(es, s0[i].account_id, es.len() as int, s0[i].balance)
        }),
    decreases lines.len(),
{
    if lines.len() > 0 {
        let init = lines.drop_last();
        assert(accounts_known(init, s0)) by {
            assert forall|i: int| 0 <= i < init.len() implies state_index(
                s0,
                (#[trigger] init[i]).account_id,
                s0.len() as int,
            ) is Some by {
                assert(init[i] == lines[i]);
            }
        }
        lemma_plan_running_balances(init, s0);
        lemma_plan_keeps_ids(init, s0);
        let (es, s, td, tc) = ledger_plan(init, s0).unwrap();
        let l = lines.last();
        assert(state_index(s0, lines[lines.len() - 1].account_id, s0.len() as int) is Some);
        let k = state_index(s, l.account_id, s.len() as int).unwrap();
        lemma_state_index_bounds(s, l.account_id, s.len() as int);
        lemma_state_index_bounds(s0, l.account_id, s0.len() as int);
        let (s2, e) = plan_step(s, l).unwrap();
        let (es2, s3, td2, tc2) = ledger_plan(lines, s0).unwrap();
        assert(s3 == s2);
        assert(es2 == es.push(e));
        let n = es.len() as int;
        assert(state_index(s0, l.account_id, s0.len() as int) == Some(k));
        assert(state_index(s0, s0[k].account_id, s0.len() as int) == Some(k));
        assert forall|j: int| 0 <= j < es2.len() implies (#[trigger] es2[j]).account_id == lines[j].account_id
            && es2[j].balance_before == balance_after_last(
            es2,
            lines[j].account_id,
            j,
            s0[state_index(s0, lines[j].account_id, s0.len() as int).unwrap()].balance,
        ) by {
            let b0 = s0[state_index(s0, lines[j].account_id, s0.len() as int).unwrap()].balance;
            lemma_balance_after_last_prefix(es, e, lines[j].account_id, j, b0);
            if j < n {
                assert(es2[j] == es[j]);
                assert(init[j] == lines[j]);
            } else {
                assert(j == n);
                assert(e.balance_before == s[k].balance);
            }
        }
        assert forall|i: int|
            0 <= i < s0.len() && state_index(s0, s0[i].account_id, s0.len() as int) == Some(i)
                implies (#[trigger] s3[i]).balance == balance_after_last(es2, s0[i].account_id, es2.len() as int, s0[i].balance) by {
            lemma_balance_after_last_prefix(es, e, s0[i].account_id, n, s0[i].balance);
            assert(es2[n] == e);
            if i == k {
                assert(l.account_id == s0[i].account_id);
            } else {
                if l.account_id == s0[i].account_id {
                    assert(state_index(s0, l.account_id, s0.len() as int) == Some(i));
                }
                assert(s3[i] == s[i]);
            }
        }
    }
}

/// The journal number "JV-<yyyymmdd>-<first 8 characters of the uuid>" of
/// a posting dated `posting_date`, for a freshly drawn uuid.
pub fn journal_number(posting_date: i32, nonce: u128) -> (r: Option<String>)
    ensures
        match chrono_compact_date(posting_date) {
            Some(d) => r matches Some(t) && t@ == "JV-"@ + d + "-"@ + uuid_hyphenated(nonce).take(8),
            None => r is None,
        },
{
    dated_number("JV-", posting_date, nonce)
}

/// The journal's description: the request's, or "<source type> posting".
pub fn journal_description(req: &PostingRequest) -> (r: String)
    ensures
        req.description matches Some(d) ==> r@ == d@,
        req.description is None ==> r@ == req.source_type@ + " posting"@,
{
    match &req.description {
        Some(d) => d.clone(),
        None => {
            let mut t = req.source_type.clone();
            t.append(" posting");
            t
        },
    }
}

/// The result of a post that wrote, or reused, the entry (`post_id`,
/// `journal_id`).
pub fn posted_result(post_id: u128, journal_id: u128, reused: bool) -> (r: PostingResult)
    ensures
        r.post_id == post_id,
        r.journal_id == journal_id,
        r.posting_status@ == "posted"@,
        r.idempotent_reuse == reused,
{
    PostingResult { post_id, journal_id, posting_status: string_from("posted"), idempotent_reuse: reused }
}

/// A reversal names the post it reverses; otherwise
/// `Conflict("reversal requires reverses_post_id")`.
pub fn reversal_target(req: &PostingRequest) -> (r: Result<u128, PostingError>)
    ensures
        req.reverses_post_id matches Some(id) ==> r == Ok::<u128, PostingError>(id),
        req.reverses_post_id is None ==> (r matches Err(PostingError::Conflict(m)) && m@
            == "reversal requires reverses_post_id"@),
{
    match req.reverses_post_id {
        Some(id) => Ok(id),
        None => Err(PostingError::Conflict(string_from("reversal requires reverses_post_id"))),
    }
}

/// The refusal when the original of a reversal is missing or not posted.
pub fn original_not_posted() -> (r: PostingError)
    ensures
        r matches PostingError::Conflict(m) && m@ == "original posting not found or not posted"@,
{
    PostingError::Conflict(string_from("original posting not found or not posted"))
}

/// How an existing posted entry is looked up: by the idempotency key when the
/// producer set one, otherwise by (source type, source id, posting type).
#[derive(Debug, Clone)]
pub enum DedupKey {
    Key(String),
    Source { source_type: String, source_id: u128, posting_type: String },
}

/// The identity a post is deduplicated on, within its company: the
/// idempotency key when set (`true`, the key), otherwise the source
/// (`false`, source type, source id, posting type).
pub open spec fn dedup_identity(req: PostingRequest) -> (u128, bool, Seq<char>, u128, Seq<char>) {
    match req.idempotency_key {
        Some(k) => (req.company_id, true, k@, 0, Seq::empty()),
        None => (req.company_id, false, req.source_type@, req.source_id, req.posting_type@),
    }
}

/// The identity a lookup key stands for, in company `company_id`.
pub open spec fn key_identity(company_id: u128, k: DedupKey) -> (u128, bool, Seq<char>, u128, Seq<char>) {
    match k {
        DedupKey::Key(x) => (company_id, true, x@, 0, Seq::empty()),
        DedupKey::Source { source_type, source_id, posting_type } => (
            company_id,
            false,
            source_type@,
            source_id,
            posting_type@,
        ),
    }
}

/// The entry (post id, journal id) recorded for an identity in a log of
/// posted entries, the earliest one first; `None` when there is none.
pub open spec fn recorded(
    log: Seq<((u128, bool, Seq<char>, u128, Seq<char>), u128, u128)>,
    id: (u128, bool, Seq<char>, u128, Seq<char>),
) -> Option<(u128, u128)>
    decreases log.len(),
{
    if log.len() == 0 {
        None
    } else {
        match recorded(log.drop_last(), id) {
            Some(e) => Some(e),
            None => if log.last().0 == id {
                Some((log.last().1, log.last().2))
            } else {
                None
            },
        }
    }
}

/// Posting is idempotent. Once a post for a request has written entry (`p`,
/// `j`), recording it under the request's identity (there was none for that
/// identity, or the post would have been a reuse), a later request with the
/// same identity finds (`p`, `j`), which the post answers with
/// [`posted_result`] as a reuse; and requests of other identities find what
/// they found before.
pub proof fn lemma_repeat_post_reuses(
    log: Seq<((u128, bool, Seq<char>, u128, Seq<char>), u128, u128)>,
    first: PostingRequest,
    later: PostingRequest,
    other: (u128, bool, Seq<char>, u128, Seq<char>),
    p: u128,
    j: u128,
)
    requires
        recorded(log, dedup_identity(first)) is None,
        dedup_identity(later) == dedup_identity(first),
    ensures
        recorded(log.push((dedup_identity(first), p, j)), dedup_identity(later)) == Some((p, j)),
        other != dedup_identity(first) ==> recorded(log.push((dedup_identity(first), p, j)), other) == recorded(
            log,
            other,
        ),
{
    let l2 = log.push((dedup_identity(first), p, j));
    assert(l2.drop_last() =~= log);
}

pub fn dedup_key(req: &PostingRequest) -> (r: DedupKey)
    ensures
        key_identity(req.company_id, r) == dedup_identity(*req),
        req.idempotency_key matches Some(k) ==> (r matches DedupKey::Key(x) && x@ == k@),
        req.idempotency_key is None ==> (r matches DedupKey::Source { source_type, source_id, posting_type }
            && source_type@ == req.source_type@ && source_id == req.source_id && posting_type@
            == req.posting_type@),
{
    match &req.idempotency_key {
        Some(k) => DedupKey::Key(k.clone()),
        None => DedupKey::Source {
            source_type: req.source_type.clone(),
            source_id: req.source_id,
            posting_type: req.posting_type.clone(),
        },
    }
}

/// What posting an approved manual journal decides from its status.
#[derive(Debug, Clone)]
pub enum JournalPostDecision {
    /// Already posted: return its existing post.
    Reuse,
    /// Approved: write the ledger.
    Proceed,
    /// Any other status is refused.
    Refuse(PostingError),
}

/// A posted journal is reused, an approved one posted, any other refused with
/// "journal <id> is '<status>', must be 'approved' to post".
pub fn journal_post_decision(journal_id: u128, status: &str) -> (r: JournalPostDecision)
    ensures
        status@ == "posted"@ ==> r is Reuse,
        status@ == "approved"@ ==> r is Proceed,
        status@ != "posted"@ && status@ != "approved"@ ==> (r matches JournalPostDecision::Refuse(PostingError::Conflict(m))
            && m@ == "journal "@ + uuid_hyphenated(journal_id) + " is '"@ + status@ + "', must be 'approved' to post"@),
{
    proof {
        reveal_strlit("posted");
        reveal_strlit("approved");
        assert("posted"@.len() != "approved"@.len());
    }
    if str_eq(status, "posted") {
        return JournalPostDecision::Reuse;
    }
    if str_eq(status, "approved") {
        return JournalPostDecision::Proceed;
    }
    let mut m = with_uuid("journal ", journal_id);
    m.append(" is '");
    m.append(status);
    m.append("', must be 'approved' to post");
    JournalPostDecision::Refuse(PostingError::Conflict(m))
}

/// The refusal when a journal to post does not exist.
pub fn journal_not_found(journal_id: u128) -> (r: PostingError)
    ensures
        r matches PostingError::Conflict(m) && m@ == "journal "@ + uuid_hyphenated(journal_id) + " not found"@,
{
    let mut m = with_uuid("journal ", journal_id);
    m.append(" not found");
    PostingError::Conflict(m)
}

/// The source of a manual journal's post: its recorded source type and id,
/// or "manual" and the journal itself.
pub fn journal_source(journal_id: u128, source_type: Option<String>, source_id: Option<u128>) -> (r: (String, u128))
    ensures
        source_type matches Some(t) ==> r.0@ == t@,
        source_type is None ==> r.0@ == "manual"@,
        r.1 == match source_id {
            Some(id) => id,
            None => journal_id,
        },
{
    let t = match source_type {
        Some(t) => t,
        None => string_from("manual"),
    };
    let id = match source_id {
        Some(id) => id,
        None => journal_id,
    };
    (t, id)
}

/// When a concurrent post for the same source won the race (our insert hit
/// the unique index), the winner is returned as a reuse; if it cannot be
/// found, `Conflict("concurrent posting conflict")`.
pub fn race_outcome(winner: Option<(u128, u128)>) -> (r: Result<PostingResult, PostingError>)
    ensures
        winner matches Some((p, j)) ==> (r matches Ok(res) && res.post_id == p && res.journal_id == j
            && res.idempotent_reuse && res.posting_status@ == "posted"@),
        winner is None ==> (r matches Err(PostingError::Conflict(m)) && m@ == "concurrent posting conflict"@),
{
    match winner {
        Some((p, j)) => Ok(posted_result(p, j, true)),
        None => Err(PostingError::Conflict(string_from("concurrent posting conflict"))),
    }
}

} // verus!
