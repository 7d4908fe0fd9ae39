//! The top-level classification of an account.

use crate::text::{lower_text, lowercase, str_eq, string_from};
use vstd::prelude::*;

verus! {

/// The top-level classification of an account.
#[derive(Debug, Clone, Copy, PartialEq, Eq, Structural, Hash)]
pub enum AccountType {
    Asset,
    Liability,
    Equity,
    Revenue,
    Expense,
    Cogs,
    OtherIncome,
    OtherExpense,
}

impl AccountType {
    /// The snake_case label of the variant.
    pub open spec fn text(&self) -> Seq<char> {
        match self {
            AccountType::Asset => seq!['a', 's', 's', 'e', 't'],
            AccountType::Liability => seq!['l', 'i', 'a', 'b', 'i', 'l', 'i', 't', 'y'],
            AccountType::Equity => seq!['e', 'q', 'u', 'i', 't', 'y'],
            AccountType::Revenue => seq!['r', 'e', 'v', 'e', 'n', 'u', 'e'],
            AccountType::Expense => seq!['e', 'x', 'p', 'e', 'n', 's', 'e'],
            AccountType::Cogs => seq!['c', 'o', 'g', 's'],
            AccountType::OtherIncome => seq!['o', 't', 'h', 'e', 'r', '_', 'i', 'n', 'c', 'o', 'm', 'e'],
            AccountType::OtherExpense => seq!['o', 't', 'h', 'e', 'r', '_', 'e', 'x', 'p', 'e', 'n', 's', 'e'],
        }
    }

    /// The snake_case label of the variant.
    pub fn as_str(&self) -> (r: &'static str)
        ensures
            r@ == self.text(),
    {
        match self {
            AccountType::Asset => {
                proof {
                    reveal_strlit("asset");
                }
                "asset"
            },
            AccountType::Liability => {
                proof {
                    reveal_strlit("liability");
                }
                "liability"
            },
            AccountType::Equity => {
                proof {
                    reveal_strlit("equity");
                }
                "equity"
            },
            AccountType::Revenue => {
                proof {
                    reveal_strlit("revenue");
                }
                "revenue"
            },
            AccountType::Expense => {
                proof {
                    reveal_strlit("expense");
                }
                "expense"
            },
            AccountType::Cogs => {
                proof {
                    reveal_strlit("cogs");
                }
                "cogs"
            },
            AccountType::OtherIncome => {
                proof {
                    reveal_strlit("other_income");
                }
                "other_income"
            },
            AccountType::OtherExpense => {
                proof {
                    reveal_strlit("other_expense");
                }
                "other_expense"
            },
        }
    }

    /// The snake_case label of the variant, as a string.
    pub fn to_string(&self) -> (r: String)
        ensures
            r@ == self.text(),
    {
        string_from(self.as_str())
    }

    /// Parse a label, case-insensitively (the input is lowercased first).
    pub fn from_str(s: &str) -> (r: Result<AccountType, String>)
        ensures
            match r {
                Ok(v) => lower_text(s@) == v.text(),
                Err(e) => (forall|v: AccountType| lower_text(s@) != #[trigger] v.text()) && e@
                    == "Unknown AccountType variant: "@ + s@,
            },
    {
        let lower = lowercase(s);
        let l = lower.as_str();
        proof {
            reveal_strlit("asset");
        }
        if str_eq(l, "asset") {
            return Ok(AccountType::Asset);
        }
        proof {
            reveal_strlit("liability");
        }
        if str_eq(l, "liability") {
            return Ok(AccountType::Liability);
        }
        proof {
            reveal_strlit("equity");
        }
        if str_eq(l, "equity") {
            return Ok(AccountType::Equity);
        }
        proof {
            reveal_strlit("revenue");
        }
        if str_eq(l, "revenue") {
            return Ok(AccountType::Revenue);
        }
        proof {
            reveal_strlit("expense");
        }
        if str_eq(l, "expense") {
            return Ok(AccountType::Expense);
        }
        proof {
            reveal_strlit("cogs");
        }
        if str_eq(l, "cogs") {
            return Ok(AccountType::Cogs);
        }
        proof {
            reveal_strlit("other_income");
        }
        if str_eq(l, "other_income") {
            return Ok(AccountType::OtherIncome);
        }
        proof {
            reveal_strlit("other_expense");
        }
        if str_eq(l, "other_expense") {
            return Ok(AccountType::OtherExpense);
        }
        proof {
            assert forall|v: AccountType| lower_text(s@) != #[trigger] v.text() by {
                match v {
                    AccountType::Asset => {
                        reveal_strlit("asset");
                        assert("asset"@ =~= v.text());
                    },
                    AccountType::Liability => {
                        reveal_strlit("liability");
                        assert("liability"@ =~= v.text());
                    },
                    AccountType::Equity => {
                        reveal_strlit("equity");
                        assert("equity"@ =~= v.text());
                    },
                    AccountType::Revenue => {
                        reveal_strlit("revenue");
                        assert("revenue"@ =~= v.text());
                    },
                    AccountType::Expense => {
                        reveal_strlit("expense");
                        assert("expense"@ =~= v.text());
                    },
                    AccountType::Cogs => {
                        reveal_strlit("cogs");
                        assert("cogs"@ =~= v.text());
                    },
                    AccountType::OtherIncome => {
                        reveal_strlit("other_income");
                        assert("other_income"@ =~= v.text());
                    },
                    AccountType::OtherExpense => {
                        reveal_strlit("other_expense");
                        assert("other_expense"@ =~= v.text());
                    },
                }
            }
        }
        Err(string_from("Unknown AccountType variant: ").concat(s))
    }
}

impl Default for AccountType {
    fn default() -> (r: AccountType)
        ensures
            r == AccountType::Asset,
    {
        AccountType::Asset
    }
}

/// Every label is its own lowercase and names one variant only, so parsing
/// the label of a variant gives that variant back.
pub proof fn lemma_account_type_label_roundtrip(v: AccountType)
    ensures
        lower_text(v.text()) == v.text(),
        forall|w: AccountType| #[trigger] w.text() == v.text() ==> w == v,
{
    crate::text::lemma_lowercase_label(v.text());
    assert forall|w: AccountType| #[trigger] w.text() == v.text() implies w == v by {
        match (v, w) {
            (AccountType::Asset, AccountType::Liability) => { assert(w.text().len() != v.text().len()); },
            (AccountType::Asset, AccountType::Equity) => { assert(w.text().len() != v.text().len()); },
            (AccountType::Asset, AccountType::Revenue) => { assert(w.text().len() != v.text().len()); },
            (AccountType::Asset, AccountType::Expense) => { assert(w.text().len() != v.text().len()); },
            (AccountType::Asset, AccountType::Cogs) => { assert(w.text().len() != v.text().len()); },
            (AccountType::Asset, AccountType::OtherIncome) => { assert(w.text().len() != v.text().len()); },
            (AccountType::Asset, AccountType::OtherExpense) => { assert(w.text().len() != v.text().len()); },
            (AccountType::Liability, AccountType::Asset) => { assert(w.text().len() != v.text().len()); },
            (AccountType::Liability, AccountType::Equity) => { assert(w.text().len() != v.text().len()); },
            (AccountType::Liability, AccountType::Revenue) => { assert(w.text().len() != v.text().len()); },
            (AccountType::Liability, AccountType::Expense) => { assert(w.text().len() != v.text().len()); },
            (AccountType::Liability, AccountType::Cogs) => { assert(w.text().len() != v.text().len()); },
            (AccountType::Liability, AccountType::OtherIncome) => { assert(w.text().len() != v.text().len()); },
            (AccountType::Liability, AccountType::OtherExpense) => { assert(w.text().len() != v.text().len()); },
            (AccountType::Equity, AccountType::Asset) => { assert(w.text().len() != v.text().len()); },
            (AccountType::Equity, AccountType::Liability) => { assert(w.text().len() != v.text().len()); },
            (AccountType::Equity, AccountType::Revenue) => { assert(w.text().len() != v.text().len()); },
            (AccountType::Equity, AccountType::Expense) => { assert(w.text().len() != v.text().len()); },
            (AccountType::Equity, AccountType::Cogs) => { assert(w.text().len() != v.text().len()); },
            (AccountType::Equity, AccountType::OtherIncome) => { assert(w.text().len() != v.text().len()); },
            (AccountType::Equity, AccountType::OtherExpense) => { assert(w.text().len() != v.text().len()); },
            (AccountType::Revenue, AccountType::Asset) => { assert(w.text().len() != v.text().len()); },
            (AccountType::Revenue, AccountType::Liability) => { assert(w.text().len() != v.text().len()); },
            (AccountType::Revenue, AccountType::Equity) => { assert(w.text().len() != v.text().len()); },
            (AccountType::Revenue, AccountType::Expense) => { assert(w.text()[0] != v.text()[0]); },
            (AccountType::Revenue, AccountType::Cogs) => { assert(w.text().len() != v.text().len()); },
            (AccountType::Revenue, AccountType::OtherIncome) => { assert(w.text().len() != v.text().len()); },
            (AccountType::Revenue, AccountType::OtherExpense) => { assert(w.text().len() != v.text().len()); },
            (AccountType::Expense, AccountType::Asset) => { assert(w.text().len() != v.text().len()); },
            (AccountType::Expense, AccountType::Liability) => { assert(w.text().len() != v.text().len()); },
            (AccountType::Expense, AccountType::Equity) => { assert(w.text().len() != v.text().len()); },
            (AccountType::Expense, AccountType::Revenue) => { assert(w.text()[0] != v.text()[0]); },
            (AccountType::Expense, AccountType::Cogs) => { assert(w.text().len() != v.text().len()); },
            (AccountType::Expense, AccountType::OtherIncome) => { assert(w.text().len() != v.text().len()); },
            (AccountType::Expense, AccountType::OtherExpense) => { assert(w.text().len() != v.text().len()); },
            (AccountType::Cogs, AccountType::Asset) => { assert(w.text().len() != v.text().len()); },
            (AccountType::Cogs, AccountType::Liability) => { assert(w.text().len() != v.text().len()); },
            (AccountType::Cogs, AccountType::Equity) => { assert(w.text().len() != v.text().len()); },
            (AccountType::Cogs, AccountType::Revenue) => { assert(w.text().len() != v.text().len()); },
            (AccountType::Cogs, AccountType::Expense) => { assert(w.text().len() != v.text().len()); },
            (AccountType::Cogs, AccountType::OtherIncome) => { assert(w.text().len() != v.text().len()); },
            (AccountType::Cogs, AccountType::OtherExpense) => { assert(w.text().len() != v.text().len()); },
            (AccountType::OtherIncome, AccountType::Asset) => { assert(w.text().len() != v.text().len()); },
            (AccountType::OtherIncome, AccountType::Liability) => { assert(w.text().len() != v.text().len()); },
            (AccountType::OtherIncome, AccountType::Equity) => { assert(w.text().len() != v.text().len()); },
            (AccountType::OtherIncome, AccountType::Revenue) => { assert(w.text().len() != v.text().len()); },
            (AccountType::OtherIncome, AccountType::Expense) => { assert(w.text().len() != v.text().len()); },
            (AccountType::OtherIncome, AccountType::Cogs) => { assert(w.text().len() != v.text().len()); },
            (AccountType::OtherIncome, AccountType::OtherExpense) => { assert(w.text().len() != v.text().len()); },
            (AccountType::OtherExpense, AccountType::Asset) => { assert(w.text().len() != v.text().len()); },
            (AccountType::OtherExpense, AccountType::Liability) => { assert(w.text().len() != v.text().len()); },
            (AccountType::OtherExpense, AccountType::Equity) => { assert(w.text().len() != v.text().len()); },
            (AccountType::OtherExpense, AccountType::Revenue) => { assert(w.text().len() != v.text().len()); },
            (AccountType::OtherExpense, AccountType::Expense) => { assert(w.text().len() != v.text().len()); },
            (AccountType::OtherExpense, AccountType::Cogs) => { assert(w.text().len() != v.text().len()); },
            (AccountType::OtherExpense, AccountType::OtherIncome) => { assert(w.text().len() != v.text().len()); },
            _ => {},
        }
    }
}

} // verus!
