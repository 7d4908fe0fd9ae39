//! Chart-of-accounts datasets: a versioned, parents-first description of a
//! national chart of accounts, and the invariants a dataset must hold before
//! anything is installed from it.
//!
//! - numbers and codes are unique and non-empty; a code is its number with the
//!   dots stripped;
//! - names are non-empty; currencies are 3-letter uppercase ISO codes; sort
//!   orders are unique;
//! - every `parent_code` names an account that appears earlier in the list (or
//!   the account itself);
//! - at least one accounts-receivable, accounts-payable, bank and cash account
//!   exists.

use crate::entity::account_subtype::AccountSubtype;
use crate::entity::account_type::AccountType;
use crate::entity::normal_balance::NormalBalance;
use crate::text::{chars_eq, chars_of, remove_all, remove_char, string_from, trim, trim_chars};
use vstd::prelude::*;

verus! {

/// A registered chart of accounts, ready to install into a company.
#[derive(Debug, Clone)]
pub struct ChartDataset {
    /// Stable dataset identifier (e.g. `ID_SAK`).
    pub code: String,
    /// Dataset version (e.g. `2026.1`).
    pub version: String,
    /// Human-readable chart name.
    pub name: String,
    /// Account definitions in parents-first order.
    pub accounts: Vec<ChartAccountDef>,
}

/// One account definition inside a [`ChartDataset`].
#[derive(Debug, Clone)]
pub struct ChartAccountDef {
    /// Display/lookup number, dots allowed (e.g. `1171.000`).
    pub number: String,
    /// Compact code: the number with dots stripped (e.g. `1171000`).
    pub code: String,
    pub name: String,
    pub account_type: AccountType,
    pub account_subtype: AccountSubtype,
    pub normal_balance: NormalBalance,
    /// Parent's `code`, or `None` for roots.
    pub parent_code: Option<String>,
    pub is_reconcilable: bool,
    /// ISO currency code (e.g. `IDR`).
    pub currency: String,
    /// Display order within the chart.
    pub sort_order: i32,
}

/// Why a dataset failed validation, with the offending identifiers.
#[derive(Debug, Clone, PartialEq)]
pub enum DatasetError {
    /// Account (by name) with an empty number or code.
    EmptyIdentifier(String),
    /// Account (by number) with an empty name.
    EmptyName(String),
    DuplicateNumber(String),
    DuplicateCode(String),
    DuplicateSortOrder(i32),
    /// Account name and the offending currency.
    InvalidCurrency(String, String),
    /// Account name, code and number.
    CodeNumberMismatch(String, String, String),
    /// Account code and the parent code that does not appear earlier.
    OrphanParent(String, String),
    /// The label of the missing required subtype.
    MissingRequired(&'static str),
}

/// A 3-letter uppercase ISO code.
pub open spec fn currency_ok(c: Seq<char>) -> bool {
    &&& c.len() == 3
    &&& forall|k: int| 0 <= k < c.len() ==> 'A' <= #[trigger] c[k] <= 'Z'
}

pub open spec fn number_seen(a: Seq<ChartAccountDef>, i: int) -> bool {
    exists|j: int| 0 <= j < i && (#[trigger] a[j]).number@ == a[i].number@
}

pub open spec fn code_seen(a: Seq<ChartAccountDef>, i: int) -> bool {
    exists|j: int| 0 <= j < i && (#[trigger] a[j]).code@ == a[i].code@
}

pub open spec fn sort_seen(a: Seq<ChartAccountDef>, i: int) -> bool {
    exists|j: int| 0 <= j < i && (#[trigger] a[j]).sort_order == a[i].sort_order
}

/// The parent, if any, is the code of an account strictly before `i`: an
/// account cannot be its own parent.
pub open spec fn parent_known(a: Seq<ChartAccountDef>, i: int) -> bool {
    match a[i].parent_code {
        None => true,
        Some(p) => exists|j: int| 0 <= j < i && (#[trigger] a[j]).code@ == p@,
    }
}

/// Which check account `i` fails, in the order they run (0: none).
pub open spec fn account_refusal(a: Seq<ChartAccountDef>, i: int) -> nat {
    let d = a[i];
    if trim(d.number@).len() == 0 || trim(d.code@).len() == 0 {
        1
    } else if trim(d.name@).len() == 0 {
        2
    } else if d.code@ != remove_char(d.number@, '.') {
        3
    } else if number_seen(a, i) {
        4
    } else if code_seen(a, i) {
        5
    } else if sort_seen(a, i) {
        6
    } else if !currency_ok(d.currency@) {
        7
    } else if !parent_known(a, i) {
        8
    } else {
        0
    }
}

/// The first of the first `n` accounts that fails a check.
pub open spec fn first_refusal(a: Seq<ChartAccountDef>, n: int) -> Option<int>
    decreases n,
{
    if n <= 0 {
        None
    } else if first_refusal(a, n - 1) is Some {
        first_refusal(a, n - 1)
    } else if account_refusal(a, n - 1) != 0 {
        Some(n - 1)
    } else {
        None
    }
}

/// No account has subtype `s`.
pub open spec fn missing(a: Seq<ChartAccountDef>, s: AccountSubtype) -> bool {
    forall|i: int| 0 <= i < a.len() ==> (#[trigger] a[i]).account_subtype != s
}

/// The required subtypes, in the order they are checked.
pub open spec fn required_subtypes() -> Seq<AccountSubtype> {
    seq![
        AccountSubtype::AccountsReceivable,
        AccountSubtype::AccountsPayable,
        AccountSubtype::Bank,
        AccountSubtype::Cash,
    ]
}

/// The error reported for account `i` failing check `k`.
pub open spec fn refusal_error(d: ChartAccountDef, k: nat, e: DatasetError) -> bool {
    match e {
        DatasetError::EmptyIdentifier(n) => k == 1 && n@ == d.name@,
        DatasetError::EmptyName(n) => k == 2 && n@ == d.number@,
        DatasetError::CodeNumberMismatch(n, c, m) => k == 3 && n@ == d.name@ && c@ == d.code@ && m@
            == d.number@,
        DatasetError::DuplicateNumber(n) => k == 4 && n@ == d.number@,
        DatasetError::DuplicateCode(c) => k == 5 && c@ == d.code@,
        DatasetError::DuplicateSortOrder(s) => k == 6 && s == d.sort_order,
        DatasetError::InvalidCurrency(n, c) => k == 7 && n@ == d.name@ && c@ == d.currency@,
        DatasetError::OrphanParent(c, p) => k == 8 && c@ == d.code@ && (d.parent_code matches Some(q) && p@ == q@),
        DatasetError::MissingRequired(_) => false,
    }
}

/// The labels of the required subtypes.
pub open spec fn required_label(k: int) -> Seq<char> {
    if k == 0 {
        "accounts_receivable"@
    } else if k == 1 {
        "accounts_payable"@
    } else if k == 2 {
        "bank"@
    } else {
        "cash"@
    }
}

/// Once some account of a prefix fails, the first failure stays the same for
/// every longer prefix.
pub proof fn lemma_first_refusal_stable(a: Seq<ChartAccountDef>, n: int, m: int)
    requires
        0 <= n <= m,
        first_refusal(a, n) is Some,
    ensures
        first_refusal(a, m) == first_refusal(a, n),
    decreases m - n,
{
    if m > n {
        lemma_first_refusal_stable(a, n, m - 1);
    }
}

/// No account of a prefix without a refusal fails any check.
pub proof fn lemma_no_refusal(a: Seq<ChartAccountDef>, n: int)
    requires
        first_refusal(a, n) is None,
    ensures
        forall|i: int| 0 <= i < n ==> #[trigger] account_refusal(a, i) == 0,
    decreases n,
{
    if n > 0 {
        lemma_no_refusal(a, n - 1);
    }
}

/// Account `i` is sound on its own: its number, code and name are not blank,
/// its code is its number without dots, its currency is three uppercase
/// letters, and its parent (if any) is the code of an earlier account.
pub open spec fn account_sound(a: Seq<ChartAccountDef>, i: int) -> bool {
    &&& trim(a[i].number@).len() > 0
    &&& trim(a[i].code@).len() > 0
    &&& trim(a[i].name@).len() > 0
    &&& a[i].code@ == remove_char(a[i].number@, '.')
    &&& currency_ok(a[i].currency@)
    &&& parent_known(a, i)
}

/// A valid dataset: every account is sound; numbers, codes and sort orders
/// are pairwise distinct; and some account has each required subtype.
pub open spec fn dataset_valid(a: Seq<ChartAccountDef>) -> bool {
    &&& forall|i: int| 0 <= i < a.len() ==> #[trigger] account_sound(a, i)
    &&& forall|i: int, j: int|
        #![trigger a[i], a[j]]
        0 <= i < j < a.len() ==> a[i].number@ != a[j].number@ && a[i].code@ != a[j].code@ && a[i].sort_order
            != a[j].sort_order
    &&& forall|k: int| 0 <= k < 4 ==> !missing(a, #[trigger] required_subtypes()[k])
}

proof fn lemma_all_pass(a: Seq<ChartAccountDef>, n: int)
    requires
        0 <= n <= a.len(),
        forall|i: int| 0 <= i < n ==> #[trigger] account_refusal(a, i) == 0,
    ensures
        first_refusal(a, n) is None,
    decreases n,
{
    if n > 0 {
        lemma_all_pass(a, n - 1);
        assert(account_refusal(a, n - 1) == 0);
    }
}

/// The dataset invariants. A dataset passes every check of
/// [`validate_dataset`] (no account refused, no required subtype missing)
/// exactly when it is valid.
pub proof fn lemma_dataset_valid(a: Seq<ChartAccountDef>)
    ensures
        (first_refusal(a, a.len() as int) is None && forall|k: int|
            0 <= k < 4 ==> !missing(a, #[trigger] required_subtypes()[k])) == dataset_valid(a),
{
    let n = a.len() as int;
    if first_refusal(a, n) is None {
        lemma_no_refusal(a, n);
        assert forall|i: int| 0 <= i < n implies #[trigger] account_sound(a, i) by {
            assert(account_refusal(a, i) == 0);
        }
        assert forall|i: int, j: int| 0 <= i < j < n implies a[i].number@ != a[j].number@ && a[i].code@
            != a[j].code@ && a[i].sort_order != a[j].sort_order by {
            assert(account_refusal(a, j) == 0);
            if a[i].number@ == a[j].number@ {
                assert(number_seen(a, j));
            }
            if a[i].code@ == a[j].code@ {
                assert(code_seen(a, j));
            }
            if a[i].sort_order == a[j].sort_order {
                assert(sort_seen(a, j));
            }
        }
    }
    if dataset_valid(a) {
        assert forall|i: int| 0 <= i < n implies #[trigger] account_refusal(a, i) == 0 by {
            assert(account_sound(a, i));
            if number_seen(a, i) {
                let j = choose|j: int| 0 <= j < i && (#[trigger] a[j]).number@ == a[i].number@;
                assert(a[j].number@ != a[i].number@);
            }
            if code_seen(a, i) {
                let j = choose|j: int| 0 <= j < i && (#[trigger] a[j]).code@ == a[i].code@;
                assert(a[j].code@ != a[i].code@);
            }
            if sort_seen(a, i) {
                let j = choose|j: int| 0 <= j < i && (#[trigger] a[j]).sort_order == a[i].sort_order;
                assert(a[j].sort_order != a[i].sort_order);
            }
        }
        lemma_all_pass(a, n);
    }
}

fn seen_before(accts: &Vec<ChartAccountDef>, i: usize, which: u8) -> (r: bool)
    requires
        i < accts.len(),
    ensures
        which == 0 ==> r == number_seen(accts@, i as int),
        which == 1 ==> r == code_seen(accts@, i as int),
        which == 2 ==> r == sort_seen(accts@, i as int),
{
    let me = if which == 0 {
        chars_of(accts[i].number.as_str())
    } else {
        chars_of(accts[i].code.as_str())
    };
    let mut j: usize = 0;
    while j < i
        invariant
            i < accts.len(),
            j <= i,
            which == 0 ==> me@ == accts@[i as int].number@,
            which != 0 ==> me@ == accts@[i as int].code@,
            which == 0 ==> forall|k: int| 0 <= k < j ==> (#[trigger] accts@[k]).number@ != accts@[i as int].number@,
            which == 1 ==> forall|k: int| 0 <= k < j ==> (#[trigger] accts@[k]).code@ != accts@[i as int].code@,
            which == 2 ==> forall|k: int| 0 <= k < j ==> (#[trigger] accts@[k]).sort_order != accts@[i as int].sort_order,
        decreases i - j,
    {
        let hit = if which == 0 {
            chars_eq(&chars_of(accts[j].number.as_str()), &me)
        } else if which == 1 {
            chars_eq(&chars_of(accts[j].code.as_str()), &me)
        } else {
            accts[j].sort_order == accts[i].sort_order
        };
        if hit {
            return true;
        }
        j = j + 1;
    }
    false
}

fn parent_check(accts: &Vec<ChartAccountDef>, i: usize) -> (r: bool)
    requires
        i < accts.len(),
    ensures
        r == parent_known(accts@, i as int),
{
    match &accts[i].parent_code {
        None => true,
        Some(p) => {
            let pc = chars_of(p.as_str());
            let mut j: usize = 0;
            while j < i
                invariant
                    i < accts.len(),
                    j <= i,
                    accts@[i as int].parent_code == Some(*p),
                    pc@ == p@,
                    forall|k: int| 0 <= k < j ==> (#[trigger] accts@[k]).code@ != p@,
                decreases i - j,
            {
                if chars_eq(&chars_of(accts[j].code.as_str()), &pc) {
                    return true;
                }
                j = j + 1;
            }
            false
        },
    }
}

fn currency_check(c: &String) -> (r: bool)
    ensures
        r == currency_ok(c@),
{
    let cs = chars_of(c.as_str());
    if cs.len() != 3 {
        return false;
    }
    let mut k: usize = 0;
    while k < cs.len()
        invariant
            k <= cs.len(),
            cs@ == c@,
            forall|m: int| 0 <= m < k ==> 'A' <= #[trigger] cs@[m] <= 'Z',
        decreases cs.len() - k,
    {
        if !('A' <= cs[k] && cs[k] <= 'Z') {
            return false;
        }
        k = k + 1;
    }
    true
}

/// Check account `i`, given that every earlier account passed.
fn check_account(accts: &Vec<ChartAccountDef>, i: usize) -> (r: Result<(), DatasetError>)
    requires
        i < accts.len(),
    ensures
        r is Ok <==> account_refusal(accts@, i as int) == 0,
        r matches Err(e) ==> refusal_error(accts@[i as int], account_refusal(accts@, i as int), e),
{
    let a = &accts[i];
    let number = trim_chars(&chars_of(a.number.as_str()));
    let code = trim_chars(&chars_of(a.code.as_str()));
    if number.len() == 0 || code.len() == 0 {
        return Err(DatasetError::EmptyIdentifier(a.name.clone()));
    }
    let name = trim_chars(&chars_of(a.name.as_str()));
    if name.len() == 0 {
        return Err(DatasetError::EmptyName(a.number.clone()));
    }
    let stripped = remove_all(&chars_of(a.number.as_str()), '.');
    if !chars_eq(&chars_of(a.code.as_str()), &stripped) {
        return Err(DatasetError::CodeNumberMismatch(a.name.clone(), a.code.clone(), a.number.clone()));
    }
    if seen_before(accts, i, 0) {
        return Err(DatasetError::DuplicateNumber(a.number.clone()));
    }
    if seen_before(accts, i, 1) {
        return Err(DatasetError::DuplicateCode(a.code.clone()));
    }
    if seen_before(accts, i, 2) {
        return Err(DatasetError::DuplicateSortOrder(a.sort_order));
    }
    if !currency_check(&a.currency) {
        return Err(DatasetError::InvalidCurrency(a.name.clone(), a.currency.clone()));
    }
    if !parent_check(accts, i) {
        let p = match &a.parent_code {
            Some(p) => p.clone(),
            None => string_from(""),
        };
        return Err(DatasetError::OrphanParent(a.code.clone(), p));
    }
    Ok(())
}

fn has_subtype(accts: &Vec<ChartAccountDef>, s: AccountSubtype) -> (r: bool)
    ensures
        r == !missing(accts@, s),
{
    let mut i: usize = 0;
    while i < accts.len()
        invariant
            i <= accts.len(),
            forall|k: int| 0 <= k < i ==> (#[trigger] accts@[k]).account_subtype != s,
        decreases accts.len() - i,
    {
        if accts[i].account_subtype == s {
            return true;
        }
        i = i + 1;
    }
    false
}

/// Validate the dataset invariants. The first failing account, in list order,
/// and its first failing check decide the error; when every account passes,
/// the first required subtype (receivable, payable, bank, cash) with no
/// account is reported.
pub fn validate_dataset(ds: &ChartDataset) -> (r: Result<(), DatasetError>)
    ensures
        ({
            let a = ds.accounts@;
            &&& r is Ok <==> first_refusal(a, a.len() as int) is None && forall|k: int|
                0 <= k < 4 ==> !missing(a, #[trigger] required_subtypes()[k])
            &&& r is Ok ==> forall|i: int| 0 <= i < a.len() ==> #[trigger] parent_known(a, i)
            &&& first_refusal(a, a.len() as int) matches Some(i) ==> (r matches Err(e)
                && refusal_error(a[i], account_refusal(a, i), e))
            &&& first_refusal(a, a.len() as int) is None ==> forall|k: int|
                0 <= k < 4 && missing(a, #[trigger] required_subtypes()[k]) && (forall|m: int|
                0 <= m < k ==> !missing(a, required_subtypes()[m])) ==> (r matches Err(
                DatasetError::MissingRequired(l),
            ) && l@ == required_label(k))
        }),
{
    let accts = &ds.accounts;
    let mut i: usize = 0;
    while i < accts.len()
        invariant
            i <= accts.len(),
            accts@ == ds.accounts@,
            first_refusal(accts@, i as int) is None,
        decreases accts.len() - i,
    {
        match check_account(accts, i) {
            Ok(()) => {},
            Err(e) => {
                proof {
                    assert(first_refusal(accts@, i + 1) == Some(i as int));
                    lemma_first_refusal_stable(accts@, i + 1, accts.len() as int);
                }
                return Err(e);
            },
        }
        i = i + 1;
    }
    proof {
        lemma_no_refusal(accts@, accts.len() as int);
        assert forall|i: int| 0 <= i < accts@.len() implies #[trigger] parent_known(accts@, i) by {
            assert(account_refusal(accts@, i) == 0);
        }
        assert(required_subtypes()[0] == AccountSubtype::AccountsReceivable);
        assert(required_subtypes()[1] == AccountSubtype::AccountsPayable);
        assert(required_subtypes()[2] == AccountSubtype::Bank);
        assert(required_subtypes()[3] == AccountSubtype::Cash);
        reveal_strlit("bank");
        reveal_strlit("cash");
    }
    if !has_subtype(accts, AccountSubtype::AccountsReceivable) {
        proof {
            reveal_strlit("accounts_receivable");
        }
        return Err(DatasetError::MissingRequired("accounts_receivable"));
    }
    if !has_subtype(accts, AccountSubtype::AccountsPayable) {
        proof {
            reveal_strlit("accounts_payable");
        }
        return Err(DatasetError::MissingRequired("accounts_payable"));
    }
    if !has_subtype(accts, AccountSubtype::Bank) {
        return Err(DatasetError::MissingRequired("bank"));
    }
    if !has_subtype(accts, AccountSubtype::Cash) {
        return Err(DatasetError::MissingRequired("cash"));
    }
    proof {
        assert forall|k: int| 0 <= k < 4 implies !missing(accts@, #[trigger] required_subtypes()[k]) by {
            if k == 0 {
            } else if k == 1 {
            } else if k == 2 {
            } else {
            }
        }
    }
    Ok(())
}

} // verus!
