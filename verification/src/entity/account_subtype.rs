//! The detailed classification of an account.

use crate::text::{lower_text, lowercase, str_eq, string_from};
use vstd::prelude::*;

verus! {

/// The detailed classification of an account.
#[derive(Debug, Clone, Copy, PartialEq, Eq, Structural, Hash)]
pub enum AccountSubtype {
    CurrentAsset,
    NonCurrentAsset,
    FixedAsset,
    AccumulatedDepreciation,
    CurrentLiability,
    NonCurrentLiability,
    PaidInCapital,
    RetainedEarnings,
    OperatingRevenue,
    OperatingExpense,
    DirectCost,
    Bank,
    Cash,
    AccountsReceivable,
    AccountsPayable,
    Tax,
    Inventory,
}

impl AccountSubtype {
    /// The snake_case label of the variant.
    pub open spec fn text(&self) -> Seq<char> {
        match self {
            AccountSubtype::CurrentAsset => seq!['c', 'u', 'r', 'r', 'e', 'n', 't', '_', 'a', 's', 's', 'e', 't'],
            AccountSubtype::NonCurrentAsset => seq!['n', 'o', 'n', '_', 'c', 'u', 'r', 'r', 'e', 'n', 't', '_', 'a', 's', 's', 'e', 't'],
            AccountSubtype::FixedAsset => seq!['f', 'i', 'x', 'e', 'd', '_', 'a', 's', 's', 'e', 't'],
            AccountSubtype::AccumulatedDepreciation => seq!['a', 'c', 'c', 'u', 'm', 'u', 'l', 'a', 't', 'e', 'd', '_', 'd', 'e', 'p', 'r', 'e', 'c', 'i', 'a', 't', 'i', 'o', 'n'],
            AccountSubtype::CurrentLiability => seq!['c', 'u', 'r', 'r', 'e', 'n', 't', '_', 'l', 'i', 'a', 'b', 'i', 'l', 'i', 't', 'y'],
            AccountSubtype::NonCurrentLiability => seq!['n', 'o', 'n', '_', 'c', 'u', 'r', 'r', 'e', 'n', 't', '_', 'l', 'i', 'a', 'b', 'i', 'l', 'i', 't', 'y'],
            AccountSubtype::PaidInCapital => seq!['p', 'a', 'i', 'd', '_', 'i', 'n', '_', 'c', 'a', 'p', 'i', 't', 'a', 'l'],
            AccountSubtype::RetainedEarnings => seq!['r', 'e', 't', 'a', 'i', 'n', 'e', 'd', '_', 'e', 'a', 'r', 'n', 'i', 'n', 'g', 's'],
            AccountSubtype::OperatingRevenue => seq!['o', 'p', 'e', 'r', 'a', 't', 'i', 'n', 'g', '_', 'r', 'e', 'v', 'e', 'n', 'u', 'e'],
            AccountSubtype::OperatingExpense => seq!['o', 'p', 'e', 'r', 'a', 't', 'i', 'n', 'g', '_', 'e', 'x', 'p', 'e', 'n', 's', 'e'],
            AccountSubtype::DirectCost => seq!['d', 'i', 'r', 'e', 'c', 't', '_', 'c', 'o', 's', 't'],
            AccountSubtype::Bank => seq!['b', 'a', 'n', 'k'],
            AccountSubtype::Cash => seq!['c', 'a', 's', 'h'],
            AccountSubtype::AccountsReceivable => seq!['a', 'c', 'c', 'o', 'u', 'n', 't', 's', '_', 'r', 'e', 'c', 'e', 'i', 'v', 'a', 'b', 'l', 'e'],
            AccountSubtype::AccountsPayable => seq!['a', 'c', 'c', 'o', 'u', 'n', 't', 's', '_', 'p', 'a', 'y', 'a', 'b', 'l', 'e'],
            AccountSubtype::Tax => seq!['t', 'a', 'x'],
            AccountSubtype::Inventory => seq!['i', 'n', 'v', 'e', 'n', 't', 'o', 'r', 'y'],
        }
    }

    /// The snake_case label of the variant.
    pub fn as_str(&self) -> (r: &'static str)
        ensures
            r@ == self.text(),
    {
        match self {
            AccountSubtype::CurrentAsset => {
                proof {
                    reveal_strlit("current_asset");
                }
                "current_asset"
            },
            AccountSubtype::NonCurrentAsset => {
                proof {
                    reveal_strlit("non_current_asset");
                }
                "non_current_asset"
            },
            AccountSubtype::FixedAsset => {
                proof {
                    reveal_strlit("fixed_asset");
                }
                "fixed_asset"
            },
            AccountSubtype::AccumulatedDepreciation => {
                proof {
                    reveal_strlit("accumulated_depreciation");
                }
                "accumulated_depreciation"
            },
            AccountSubtype::CurrentLiability => {
                proof {
                    reveal_strlit("current_liability");
                }
                "current_liability"
            },
            AccountSubtype::NonCurrentLiability => {
                proof {
                    reveal_strlit("non_current_liability");
                }
                "non_current_liability"
            },
            AccountSubtype::PaidInCapital => {
                proof {
                    reveal_strlit("paid_in_capital");
                }
                "paid_in_capital"
            },
            AccountSubtype::RetainedEarnings => {
                proof {
                    reveal_strlit("retained_earnings");
                }
                "retained_earnings"
            },
            AccountSubtype::OperatingRevenue => {
                proof {
                    reveal_strlit("operating_revenue");
                }
                "operating_revenue"
            },
            AccountSubtype::OperatingExpense => {
                proof {
                    reveal_strlit("operating_expense");
                }
                "operating_expense"
            },
            AccountSubtype::DirectCost => {
                proof {
                    reveal_strlit("direct_cost");
                }
                "direct_cost"
            },
            AccountSubtype::Bank => {
                proof {
                    reveal_strlit("bank");
                }
                "bank"
            },
            AccountSubtype::Cash => {
                proof {
                    reveal_strlit("cash");
                }
                "cash"
            },
            AccountSubtype::AccountsReceivable => {
                proof {
                    reveal_strlit("accounts_receivable");
                }
                "accounts_receivable"
            },
            AccountSubtype::AccountsPayable => {
                proof {
                    reveal_strlit("accounts_payable");
                }
                "accounts_payable"
            },
            AccountSubtype::Tax => {
                proof {
                    reveal_strlit("tax");
                }
                "tax"
            },
            AccountSubtype::Inventory => {
                proof {
                    reveal_strlit("inventory");
                }
                "inventory"
            },
        }
    }

    /// The snake_case label of the variant, as a string.
    pub fn to_string(&self) -> (r: String)
        ensures
            r@ == self.text(),
    {
        string_from(self.as_str())
    }

    /// Parse a label, case-insensitively (the input is lowercased first).
    pub fn from_str(s: &str) -> (r: Result<AccountSubtype, String>)
        ensures
            match r {
                Ok(v) => lower_text(s@) == v.text(),
                Err(e) => (forall|v: AccountSubtype| lower_text(s@) != #[trigger] v.text()) && e@
                    == "Unknown AccountSubtype variant: "@ + s@,
            },
    {
        let lower = lowercase(s);
        let l = lower.as_str();
        proof {
            reveal_strlit("current_asset");
        }
        if str_eq(l, "current_asset") {
            return Ok(AccountSubtype::CurrentAsset);
        }
        proof {
            reveal_strlit("non_current_asset");
        }
        if str_eq(l, "non_current_asset") {
            return Ok(AccountSubtype::NonCurrentAsset);
        }
        proof {
            reveal_strlit("fixed_asset");
        }
        if str_eq(l, "fixed_asset") {
            return Ok(AccountSubtype::FixedAsset);
        }
        proof {
            reveal_strlit("accumulated_depreciation");
        }
        if str_eq(l, "accumulated_depreciation") {
            return Ok(AccountSubtype::AccumulatedDepreciation);
        }
        proof {
            reveal_strlit("current_liability");
        }
        if str_eq(l, "current_liability") {
            return Ok(AccountSubtype::CurrentLiability);
        }
        proof {
            reveal_strlit("non_current_liability");
        }
        if str_eq(l, "non_current_liability") {
            return Ok(AccountSubtype::NonCurrentLiability);
        }
        proof {
            reveal_strlit("paid_in_capital");
        }
        if str_eq(l, "paid_in_capital") {
            return Ok(AccountSubtype::PaidInCapital);
        }
        proof {
            reveal_strlit("retained_earnings");
        }
        if str_eq(l, "retained_earnings") {
            return Ok(AccountSubtype::RetainedEarnings);
        }
        proof {
            reveal_strlit("operating_revenue");
        }
        if str_eq(l, "operating_revenue") {
            return Ok(AccountSubtype::OperatingRevenue);
        }
        proof {
            reveal_strlit("operating_expense");
        }
        if str_eq(l, "operating_expense") {
            return Ok(AccountSubtype::OperatingExpense);
        }
        proof {
            reveal_strlit("direct_cost");
        }
        if str_eq(l, "direct_cost") {
            return Ok(AccountSubtype::DirectCost);
        }
        proof {
            reveal_strlit("bank");
        }
        if str_eq(l, "bank") {
            return Ok(AccountSubtype::Bank);
        }
        proof {
            reveal_strlit("cash");
        }
        if str_eq(l, "cash") {
            return Ok(AccountSubtype::Cash);
        }
        proof {
            reveal_strlit("accounts_receivable");
        }
        if str_eq(l, "accounts_receivable") {
            return Ok(AccountSubtype::AccountsReceivable);
        }
        proof {
            reveal_strlit("accounts_payable");
        }
        if str_eq(l, "accounts_payable") {
            return Ok(AccountSubtype::AccountsPayable);
        }
        proof {
            reveal_strlit("tax");
        }
        if str_eq(l, "tax") {
            return Ok(AccountSubtype::Tax);
        }
        proof {
            reveal_strlit("inventory");
        }
        if str_eq(l, "inventory") {
            return Ok(AccountSubtype::Inventory);
        }
        proof {
            assert forall|v: AccountSubtype| lower_text(s@) != #[trigger] v.text() by {
                match v {
                    AccountSubtype::CurrentAsset => {
                        reveal_strlit("current_asset");
                        assert("current_asset"@ =~= v.text());
                    },
                    AccountSubtype::NonCurrentAsset => {
                        reveal_strlit("non_current_asset");
                        assert("non_current_asset"@ =~= v.text());
                    },
                    AccountSubtype::FixedAsset => {
                        reveal_strlit("fixed_asset");
                        assert("fixed_asset"@ =~= v.text());
                    },
                    AccountSubtype::AccumulatedDepreciation => {
                        reveal_strlit("accumulated_depreciation");
                        assert("accumulated_depreciation"@ =~= v.text());
                    },
                    AccountSubtype::CurrentLiability => {
                        reveal_strlit("current_liability");
                        assert("current_liability"@ =~= v.text());
                    },
                    AccountSubtype::NonCurrentLiability => {
                        reveal_strlit("non_current_liability");
                        assert("non_current_liability"@ =~= v.text());
                    },
                    AccountSubtype::PaidInCapital => {
                        reveal_strlit("paid_in_capital");
                        assert("paid_in_capital"@ =~= v.text());
                    },
                    AccountSubtype::RetainedEarnings => {
                        reveal_strlit("retained_earnings");
                        assert("retained_earnings"@ =~= v.text());
                    },
                    AccountSubtype::OperatingRevenue => {
                        reveal_strlit("operating_revenue");
                        assert("operating_revenue"@ =~= v.text());
                    },
                    AccountSubtype::OperatingExpense => {
                        reveal_strlit("operating_expense");
                        assert("operating_expense"@ =~= v.text());
                    },
                    AccountSubtype::DirectCost => {
                        reveal_strlit("direct_cost");
                        assert("direct_cost"@ =~= v.text());
                    },
                    AccountSubtype::Bank => {
                        reveal_strlit("bank");
                        assert("bank"@ =~= v.text());
                    },
                    AccountSubtype::Cash => {
                        reveal_strlit("cash");
                        assert("cash"@ =~= v.text());
                    },
                    AccountSubtype::AccountsReceivable => {
                        reveal_strlit("accounts_receivable");
                        assert("accounts_receivable"@ =~= v.text());
                    },
                    AccountSubtype::AccountsPayable => {
                        reveal_strlit("accounts_payable");
                        assert("accounts_payable"@ =~= v.text());
                    },
                    AccountSubtype::Tax => {
                        reveal_strlit("tax");
                        assert("tax"@ =~= v.text());
                    },
                    AccountSubtype::Inventory => {
                        reveal_strlit("inventory");
                        assert("inventory"@ =~= v.text());
                    },
                }
            }
        }
        Err(string_from("Unknown AccountSubtype variant: ").concat(s))
    }
}

impl Default for AccountSubtype {
    fn default() -> (r: AccountSubtype)
        ensures
            r == AccountSubtype::CurrentAsset,
    {
        AccountSubtype::CurrentAsset
    }
}

/// Every label is its own lowercase and names one variant only, so parsing
/// the label of a variant gives that variant back.
pub proof fn lemma_account_subtype_label_roundtrip(v: AccountSubtype)
    ensures
        lower_text(v.text()) == v.text(),
        forall|w: AccountSubtype| #[trigger] w.text() == v.text() ==> w == v,
{
    crate::text::lemma_lowercase_label(v.text());
    assert forall|w: AccountSubtype| #[trigger] w.text() == v.text() implies w == v by {
        match (v, w) {
            (AccountSubtype::CurrentAsset, AccountSubtype::NonCurrentAsset) => { assert(w.text().len() != v.text().len()); },
            (AccountSubtype::CurrentAsset, AccountSubtype::FixedAsset) => { assert(w.text().len() != v.text().len()); },
            (AccountSubtype::CurrentAsset, AccountSubtype::AccumulatedDepreciation) => { assert(w.text().len() != v.text().len()); },
            (AccountSubtype::CurrentAsset, AccountSubtype::CurrentLiability) => { assert(w.text().len() != v.text().len()); },
            (AccountSubtype::CurrentAsset, AccountSubtype::NonCurrentLiability) => { assert(w.text().len() != v.text().len()); },
            (AccountSubtype::CurrentAsset, AccountSubtype::PaidInCapital) => { assert(w.text().len() != v.text().len()); },
            (AccountSubtype::CurrentAsset, AccountSubtype::RetainedEarnings) => { assert(w.text().len() != v.text().len()); },
            (AccountSubtype::CurrentAsset, AccountSubtype::OperatingRevenue) => { assert(w.text().len() != v.text().len()); },
            (AccountSubtype::CurrentAsset, AccountSubtype::OperatingExpense) => { assert(w.text().len() != v.text().len()); },
            (AccountSubtype::CurrentAsset, AccountSubtype::DirectCost) => { assert(w.text().len() != v.text().len()); },
            (AccountSubtype::CurrentAsset, AccountSubtype::Bank) => { assert(w.text().len() != v.text().len()); },
            (AccountSubtype::CurrentAsset, AccountSubtype::Cash) => { assert(w.text().len() != v.text().len()); },
            (AccountSubtype::CurrentAsset, AccountSubtype::AccountsReceivable) => { assert(w.text().len() != v.text().len()); },
            (AccountSubtype::CurrentAsset, AccountSubtype::AccountsPayable) => { assert(w.text().len() != v.text().len()); },
            (AccountSubtype::CurrentAsset, AccountSubtype::Tax) => { assert(w.text().len() != v.text().len()); },
            (AccountSubtype::CurrentAsset, AccountSubtype::Inventory) => { assert(w.text().len() != v.text().len()); },
            (AccountSubtype::NonCurrentAsset, AccountSubtype::CurrentAsset) => { assert(w.text().len() != v.text().len()); },
            (AccountSubtype::NonCurrentAsset, AccountSubtype::FixedAsset) => { assert(w.text().len() != v.text().len()); },
            (AccountSubtype::NonCurrentAsset, AccountSubtype::AccumulatedDepreciation) => { assert(w.text().len() != v.text().len()); },
            (AccountSubtype::NonCurrentAsset, AccountSubtype::CurrentLiability) => { assert(w.text()[0] != v.text()[0]); },
            (AccountSubtype::NonCurrentAsset, AccountSubtype::NonCurrentLiability) => { assert(w.text().len() != v.text().len()); },
            (AccountSubtype::NonCurrentAsset, AccountSubtype::PaidInCapital) => { assert(w.text().len() != v.text().len()); },
            (AccountSubtype::NonCurrentAsset, AccountSubtype::RetainedEarnings) => { assert(w.text()[0] != v.text()[0]); },
            (AccountSubtype::NonCurrentAsset, AccountSubtype::OperatingRevenue) => { assert(w.text()[0] != v.text()[0]); },
            (AccountSubtype::NonCurrentAsset, AccountSubtype::OperatingExpense) => { assert(w.text()[0] != v.text()[0]); },
            (AccountSubtype::NonCurrentAsset, AccountSubtype::DirectCost) => { assert(w.text().len() != v.text().len()); },
            (AccountSubtype::NonCurrentAsset, AccountSubtype::Bank) => { assert(w.text().len() != v.text().len()); },
            (AccountSubtype::NonCurrentAsset, AccountSubtype::Cash) => { assert(w.text().len() != v.text().len()); },
            (AccountSubtype::NonCurrentAsset, AccountSubtype::AccountsReceivable) => { assert(w.text().len() != v.text().len()); },
            (AccountSubtype::NonCurrentAsset, AccountSubtype::AccountsPayable) => { assert(w.text().len() != v.text().len()); },
            (AccountSubtype::NonCurrentAsset, AccountSubtype::Tax) => { assert(w.text().len() != v.text().len()); },
            (AccountSubtype::NonCurrentAsset, AccountSubtype::Inventory) => { assert(w.text().len() != v.text().len()); },
            (AccountSubtype::FixedAsset, AccountSubtype::CurrentAsset) => { assert(w.text().len() != v.text().len()); },
            (AccountSubtype::FixedAsset, AccountSubtype::NonCurrentAsset) => { assert(w.text().len() != v.text().len()); },
            (AccountSubtype::FixedAsset, AccountSubtype::AccumulatedDepreciation) => { assert(w.text().len() != v.text().len()); },
            (AccountSubtype::FixedAsset, AccountSubtype::CurrentLiability) => { assert(w.text().len() != v.text().len()); },
            (AccountSubtype::FixedAsset, AccountSubtype::NonCurrentLiability) => { assert(w.text().len() != v.text().len()); },
            (AccountSubtype::FixedAsset, AccountSubtype::PaidInCapital) => { assert(w.text().len() != v.text().len()); },
            (AccountSubtype::FixedAsset, AccountSubtype::RetainedEarnings) => { assert(w.text().len() != v.text().len()); },
            (AccountSubtype::FixedAsset, AccountSubtype::OperatingRevenue) => { assert(w.text().len() != v.text().len()); },
            (AccountSubtype::FixedAsset, AccountSubtype::OperatingExpense) => { assert(w.text().len() != v.text().len()); },
            (AccountSubtype::FixedAsset, AccountSubtype::DirectCost) => { assert(w.text()[0] != v.text()[0]); },
            (AccountSubtype::FixedAsset, AccountSubtype::Bank) => { assert(w.text().len() != v.text().len()); },
            (AccountSubtype::FixedAsset, AccountSubtype::Cash) => { assert(w.text().len() != v.text().len()); },
            (AccountSubtype::FixedAsset, AccountSubtype::AccountsReceivable) => { assert(w.text().len() != v.text().len()); },
            (AccountSubtype::FixedAsset, AccountSubtype::AccountsPayable) => { assert(w.text().len() != v.text().len()); },
            (AccountSubtype::FixedAsset, AccountSubtype::Tax) => { assert(w.text().len() != v.text().len()); },
            (AccountSubtype::FixedAsset, AccountSubtype::Inventory) => { assert(w.text().len() != v.text().len()); },
            (AccountSubtype::AccumulatedDepreciation, AccountSubtype::CurrentAsset) => { assert(w.text().len() != v.text().len()); },
            (AccountSubtype::AccumulatedDepreciation, AccountSubtype::NonCurrentAsset) => { assert(w.text().len() != v.text().len()); },
            (AccountSubtype::AccumulatedDepreciation, AccountSubtype::FixedAsset) => { assert(w.text().len() != v.text().len()); },
            (AccountSubtype::AccumulatedDepreciation, AccountSubtype::CurrentLiability) => { assert(w.text().len() != v.text().len()); },
            (AccountSubtype::AccumulatedDepreciation, AccountSubtype::NonCurrentLiability) => { assert(w.text().len() != v.text().len()); },
            (AccountSubtype::AccumulatedDepreciation, AccountSubtype::PaidInCapital) => { assert(w.text().len() != v.text().len()); },
            (AccountSubtype::AccumulatedDepreciation, AccountSubtype::RetainedEarnings) => { assert(w.text().len() != v.text().len()); },
            (AccountSubtype::AccumulatedDepreciation, AccountSubtype::OperatingRevenue) => { assert(w.text().len() != v.text().len()); },
            (AccountSubtype::AccumulatedDepreciation, AccountSubtype::OperatingExpense) => { assert(w.text().len() != v.text().len()); },
            (AccountSubtype::AccumulatedDepreciation, AccountSubtype::DirectCost) => { assert(w.text().len() != v.text().len()); },
            (AccountSubtype::AccumulatedDepreciation, AccountSubtype::Bank) => { assert(w.text().len() != v.text().len()); },
            (AccountSubtype::AccumulatedDepreciation, AccountSubtype::Cash) => { assert(w.text().len() != v.text().len()); },
            (AccountSubtype::AccumulatedDepreciation, AccountSubtype::AccountsReceivable) => { assert(w.text().len() != v.text().len()); },
            (AccountSubtype::AccumulatedDepreciation, AccountSubtype::AccountsPayable) => { assert(w.text().len() != v.text().len()); },
            (AccountSubtype::AccumulatedDepreciation, AccountSubtype::Tax) => { assert(w.text().len() != v.text().len()); },
            (AccountSubtype::AccumulatedDepreciation, AccountSubtype::Inventory) => { assert(w.text().len() != v.text().len()); },
            (AccountSubtype::CurrentLiability, AccountSubtype::CurrentAsset) => { assert(w.text().len() != v.text().len()); },
            (AccountSubtype::CurrentLiability, AccountSubtype::NonCurrentAsset) => { assert(w.text()[0] != v.text()[0]); },
            (AccountSubtype::CurrentLiability, AccountSubtype::FixedAsset) => { assert(w.text().len() != v.text().len()); },
            (AccountSubtype::CurrentLiability, AccountSubtype::AccumulatedDepreciation) => { assert(w.text().len() != v.text().len()); },
            (AccountSubtype::CurrentLiability, AccountSubtype::NonCurrentLiability) => { assert(w.text().len() != v.text().len()); },
            (AccountSubtype::CurrentLiability, AccountSubtype::PaidInCapital) => { assert(w.text().len() != v.text().len()); },
            (AccountSubtype::CurrentLiability, AccountSubtype::RetainedEarnings) => { assert(w.text()[0] != v.text()[0]); },
            (AccountSubtype::CurrentLiability, AccountSubtype::OperatingRevenue) => { assert(w.text()[0] != v.text()[0]); },
            (AccountSubtype::CurrentLiability, AccountSubtype::OperatingExpense) => { assert(w.text()[0] != v.text()[0]); },
            (AccountSubtype::CurrentLiability, AccountSubtype::DirectCost) => { assert(w.text().len() != v.text().len()); },
            (AccountSubtype::CurrentLiability, AccountSubtype::Bank) => { assert(w.text().len() != v.text().len()); },
            (AccountSubtype::CurrentLiability, AccountSubtype::Cash) => { assert(w.text().len() != v.text().len()); },
            (AccountSubtype::CurrentLiability, AccountSubtype::AccountsReceivable) => { assert(w.text().len() != v.text().len()); },
            (AccountSubtype::CurrentLiability, AccountSubtype::AccountsPayable) => { assert(w.text().len() != v.text().len()); },
            (AccountSubtype::CurrentLiability, AccountSubtype::Tax) => { assert(w.text().len() != v.text().len()); },
            (AccountSubtype::CurrentLiability, AccountSubtype::Inventory) => { assert(w.text().len() != v.text().len()); },
            (AccountSubtype::NonCurrentLiability, AccountSubtype::CurrentAsset) => { assert(w.text().len() != v.text().len()); },
            (AccountSubtype::NonCurrentLiability, AccountSubtype::NonCurrentAsset) => { assert(w.text().len() != v.text().len()); },
            (AccountSubtype::NonCurrentLiability, AccountSubtype::FixedAsset) => { assert(w.text().len() != v.text().len()); },
            (AccountSubtype::NonCurrentLiability, AccountSubtype::AccumulatedDepreciation) => { assert(w.text().len() != v.text().len()); },
            (AccountSubtype::NonCurrentLiability, AccountSubtype::CurrentLiability) => { assert(w.text().len() != v.text().len()); },
            (AccountSubtype::NonCurrentLiability, AccountSubtype::PaidInCapital) => { assert(w.text().len() != v.text().len()); },
            (AccountSubtype::NonCurrentLiability, AccountSubtype::RetainedEarnings) => { assert(w.text().len() != v.text().len()); },
            (AccountSubtype::NonCurrentLiability, AccountSubtype::OperatingRevenue) => { assert(w.text().len() != v.text().len()); },
            (AccountSubtype::NonCurrentLiability, AccountSubtype::OperatingExpense) => { assert(w.text().len() != v.text().len()); },
            (AccountSubtype::NonCurrentLiability, AccountSubtype::DirectCost) => { assert(w.text().len() != v.text().len()); },
            (AccountSubtype::NonCurrentLiability, AccountSubtype::Bank) => { assert(w.text().len() != v.text().len()); },
            (AccountSubtype::NonCurrentLiability, AccountSubtype::Cash) => { assert(w.text().len() != v.text().len()); },
            (AccountSubtype::NonCurrentLiability, AccountSubtype::AccountsReceivable) => { assert(w.text().len() != v.text().len()); },
            (AccountSubtype::NonCurrentLiability, AccountSubtype::AccountsPayable) => { assert(w.text().len() != v.text().len()); },
            (AccountSubtype::NonCurrentLiability, AccountSubtype::Tax) => { assert(w.text().len() != v.text().len()); },
            (AccountSubtype::NonCurrentLiability, AccountSubtype::Inventory) => { assert(w.text().len() != v.text().len()); },
            (AccountSubtype::PaidInCapital, AccountSubtype::CurrentAsset) => { assert(w.text().len() != v.text().len()); },
            (AccountSubtype::PaidInCapital, AccountSubtype::NonCurrentAsset) => { assert(w.text().len() != v.text().len()); },
            (AccountSubtype::PaidInCapital, AccountSubtype::FixedAsset) => { assert(w.text().len() != v.text().len()); },
            (AccountSubtype::PaidInCapital, AccountSubtype::AccumulatedDepreciation) => { assert(w.text().len() != v.text().len()); },
            (AccountSubtype::PaidInCapital, AccountSubtype::CurrentLiability) => { assert(w.text().len() != v.text().len()); },
            (AccountSubtype::PaidInCapital, AccountSubtype::NonCurrentLiability) => { assert(w.text().len() != v.text().len()); },
            (AccountSubtype::PaidInCapital, AccountSubtype::RetainedEarnings) => { assert(w.text().len() != v.text().len()); },
            (AccountSubtype::PaidInCapital, AccountSubtype::OperatingRevenue) => { assert(w.text().len() != v.text().len()); },
            (AccountSubtype::PaidInCapital, AccountSubtype::OperatingExpense) => { assert(w.text().len() != v.text().len()); },
            (AccountSubtype::PaidInCapital, AccountSubtype::DirectCost) => { assert(w.text().len() != v.text().len()); },
            (AccountSubtype::PaidInCapital, AccountSubtype::Bank) => { assert(w.text().len() != v.text().len()); },
            (AccountSubtype::PaidInCapital, AccountSubtype::Cash) => { assert(w.text().len() != v.text().len()); },
            (AccountSubtype::PaidInCapital, AccountSubtype::AccountsReceivable) => { assert(w.text().len() != v.text().len()); },
            (AccountSubtype::PaidInCapital, AccountSubtype::AccountsPayable) => { assert(w.text().len() != v.text().len()); },
            (AccountSubtype::PaidInCapital, AccountSubtype::Tax) => { assert(w.text().len() != v.text().len()); },
            (AccountSubtype::PaidInCapital, AccountSubtype::Inventory) => { assert(w.text().len() != v.text().len()); },
            (AccountSubtype::RetainedEarnings, AccountSubtype::CurrentAsset) => { assert(w.text().len() != v.text().len()); },
            (AccountSubtype::RetainedEarnings, AccountSubtype::NonCurrentAsset) => { assert(w.text()[0] != v.text()[0]); },
            (AccountSubtype::RetainedEarnings, AccountSubtype::FixedAsset) => { assert(w.text().len() != v.text().len()); },
            (AccountSubtype::RetainedEarnings, AccountSubtype::AccumulatedDepreciation) => { assert(w.text().len() != v.text().len()); },
            (AccountSubtype::RetainedEarnings, AccountSubtype::CurrentLiability) => { assert(w.text()[0] != v.text()[0]); },
            (AccountSubtype::RetainedEarnings, AccountSubtype::NonCurrentLiability) => { assert(w.text().len() != v.text().len()); },
            (AccountSubtype::RetainedEarnings, AccountSubtype::PaidInCapital) => { assert(w.text().len() != v.text().len()); },
            (AccountSubtype::RetainedEarnings, AccountSubtype::OperatingRevenue) => { assert(w.text()[0] != v.text()[0]); },
            (AccountSubtype::RetainedEarnings, AccountSubtype::OperatingExpense) => { assert(w.text()[0] != v.text()[0]); },
            (AccountSubtype::RetainedEarnings, AccountSubtype::DirectCost) => { assert(w.text().len() != v.text().len()); },
            (AccountSubtype::RetainedEarnings, AccountSubtype::Bank) => { assert(w.text().len() != v.text().len()); },
            (AccountSubtype::RetainedEarnings, AccountSubtype::Cash) => { assert(w.text().len() != v.text().len()); },
            (AccountSubtype::RetainedEarnings, AccountSubtype::AccountsReceivable) => { assert(w.text().len() != v.text().len()); },
            (AccountSubtype::RetainedEarnings, AccountSubtype::AccountsPayable) => { assert(w.text().len() != v.text().len()); },
            (AccountSubtype::RetainedEarnings, AccountSubtype::Tax) => { assert(w.text().len() != v.text().len()); },
            (AccountSubtype::RetainedEarnings, AccountSubtype::Inventory) => { assert(w.text().len() != v.text().len()); },
            (AccountSubtype::OperatingRevenue, AccountSubtype::CurrentAsset) => { assert(w.text().len() != v.text().len()); },
            (AccountSubtype::OperatingRevenue, AccountSubtype::NonCurrentAsset) => { assert(w.text()[0] != v.text()[0]); },
            (AccountSubtype::OperatingRevenue, AccountSubtype::FixedAsset) => { assert(w.text().len() != v.text().len()); },
            (AccountSubtype::OperatingRevenue, AccountSubtype::AccumulatedDepreciation) => { assert(w.text().len() != v.text().len()); },
            (AccountSubtype::OperatingRevenue, AccountSubtype::CurrentLiability) => { assert(w.text()[0] != v.text()[0]); },
            (AccountSubtype::OperatingRevenue, AccountSubtype::NonCurrentLiability) => { assert(w.text().len() != v.text().len()); },
            (AccountSubtype::OperatingRevenue, AccountSubtype::PaidInCapital) => { assert(w.text().len() != v.text().len()); },
            (AccountSubtype::OperatingRevenue, AccountSubtype::RetainedEarnings) => { assert(w.text()[0] != v.text()[0]); },
            (AccountSubtype::OperatingRevenue, AccountSubtype::OperatingExpense) => { assert(w.text()[10] != v.text()[10]); },
            (AccountSubtype::OperatingRevenue, AccountSubtype::DirectCost) => { assert(w.text().len() != v.text().len()); },
            (AccountSubtype::OperatingRevenue, AccountSubtype::Bank) => { assert(w.text().len() != v.text().len()); },
            (AccountSubtype::OperatingRevenue, AccountSubtype::Cash) => { assert(w.text().len() != v.text().len()); },
            (AccountSubtype::OperatingRevenue, AccountSubtype::AccountsReceivable) => { assert(w.text().len() != v.text().len()); },
            (AccountSubtype::OperatingRevenue, AccountSubtype::AccountsPayable) => { assert(w.text().len() != v.text().len()); },
            (AccountSubtype::OperatingRevenue, AccountSubtype::Tax) => { assert(w.text().len() != v.text().len()); },
            (AccountSubtype::OperatingRevenue, AccountSubtype::Inventory) => { assert(w.text().len() != v.text().len()); },
            (AccountSubtype::OperatingExpense, AccountSubtype::CurrentAsset) => { assert(w.text().len() != v.text().len()); },
            (AccountSubtype::OperatingExpense, AccountSubtype::NonCurrentAsset) => { assert(w.text()[0] != v.text()[0]); },
            (AccountSubtype::OperatingExpense, AccountSubtype::FixedAsset) => { assert(w.text().len() != v.text().len()); },
            (AccountSubtype::OperatingExpense, AccountSubtype::AccumulatedDepreciation) => { assert(w.text().len() != v.text().len()); },
            (AccountSubtype::OperatingExpense, AccountSubtype::CurrentLiability) => { assert(w.text()[0] != v.text()[0]); },
            (AccountSubtype::OperatingExpense, AccountSubtype::NonCurrentLiability) => { assert(w.text().len() != v.text().len()); },
            (AccountSubtype::OperatingExpense, AccountSubtype::PaidInCapital) => { assert(w.text().len() != v.text().len()); },
            (AccountSubtype::OperatingExpense, AccountSubtype::RetainedEarnings) => { assert(w.text()[0] != v.text()[0]); },
            (AccountSubtype::OperatingExpense, AccountSubtype::OperatingRevenue) => { assert(w.text()[10] != v.text()[10]); },
            (AccountSubtype::OperatingExpense, AccountSubtype::DirectCost) => { assert(w.text().len() != v.text().len()); },
            (AccountSubtype::OperatingExpense, AccountSubtype::Bank) => { assert(w.text().len() != v.text().len()); },
            (AccountSubtype::OperatingExpense, AccountSubtype::Cash) => { assert(w.text().len() != v.text().len()); },
            (AccountSubtype::OperatingExpense, AccountSubtype::AccountsReceivable) => { assert(w.text().len() != v.text().len()); },
            (AccountSubtype::OperatingExpense, AccountSubtype::AccountsPayable) => { assert(w.text().len() != v.text().len()); },
            (AccountSubtype::OperatingExpense, AccountSubtype::Tax) => { assert(w.text().len() != v.text().len()); },
            (AccountSubtype::OperatingExpense, AccountSubtype::Inventory) => { assert(w.text().len() != v.text().len()); },
            (AccountSubtype::DirectCost, AccountSubtype::CurrentAsset) => { assert(w.text().len() != v.text().len()); },
            (AccountSubtype::DirectCost, AccountSubtype::NonCurrentAsset) => { assert(w.text().len() != v.text().len()); },
            (AccountSubtype::DirectCost, AccountSubtype::FixedAsset) => { assert(w.text()[0] != v.text()[0]); },
            (AccountSubtype::DirectCost, AccountSubtype::AccumulatedDepreciation) => { assert(w.text().len() != v.text().len()); },
            (AccountSubtype::DirectCost, AccountSubtype::CurrentLiability) => { assert(w.text().len() != v.text().len()); },
            (AccountSubtype::DirectCost, AccountSubtype::NonCurrentLiability) => { assert(w.text().len() != v.text().len()); },
            (AccountSubtype::DirectCost, AccountSubtype::PaidInCapital) => { assert(w.text().len() != v.text().len()); },
            (AccountSubtype::DirectCost, AccountSubtype::RetainedEarnings) => { assert(w.text().len() != v.text().len()); },
            (AccountSubtype::DirectCost, AccountSubtype::OperatingRevenue) => { assert(w.text().len() != v.text().len()); },
            (AccountSubtype::DirectCost, AccountSubtype::OperatingExpense) => { assert(w.text().len() != v.text().len()); },
            (AccountSubtype::DirectCost, AccountSubtype::Bank) => { assert(w.text().len() != v.text().len()); },
            (AccountSubtype::DirectCost, AccountSubtype::Cash) => { assert(w.text().len() != v.text().len()); },
            (AccountSubtype::DirectCost, AccountSubtype::AccountsReceivable) => { assert(w.text().len() != v.text().len()); },
            (AccountSubtype::DirectCost, AccountSubtype::AccountsPayable) => { assert(w.text().len() != v.text().len()); },
            (AccountSubtype::DirectCost, AccountSubtype::Tax) => { assert(w.text().len() != v.text().len()); },
            (AccountSubtype::DirectCost, AccountSubtype::Inventory) => { assert(w.text().len() != v.text().len()); },
            (AccountSubtype::Bank, AccountSubtype::CurrentAsset) => { assert(w.text().len() != v.text().len()); },
            (AccountSubtype::Bank, AccountSubtype::NonCurrentAsset) => { assert(w.text().len() != v.text().len()); },
            (AccountSubtype::Bank, AccountSubtype::FixedAsset) => { assert(w.text().len() != v.text().len()); },
            (AccountSubtype::Bank, AccountSubtype::AccumulatedDepreciation) => { assert(w.text().len() != v.text().len()); },
            (AccountSubtype::Bank, AccountSubtype::CurrentLiability) => { assert(w.text().len() != v.text().len()); },
            (AccountSubtype::Bank, AccountSubtype::NonCurrentLiability) => { assert(w.text().len() != v.text().len()); },
            (AccountSubtype::Bank, AccountSubtype::PaidInCapital) => { assert(w.text().len() != v.text().len()); },
            (AccountSubtype::Bank, AccountSubtype::RetainedEarnings) => { assert(w.text().len() != v.text().len()); },
            (AccountSubtype::Bank, AccountSubtype::OperatingRevenue) => { assert(w.text().len() != v.text().len()); },
            (AccountSubtype::Bank, AccountSubtype::OperatingExpense) => { assert(w.text().len() != v.text().len()); },
            (AccountSubtype::Bank, AccountSubtype::DirectCost) => { assert(w.text().len() != v.text().len()); },
            (AccountSubtype::Bank, AccountSubtype::Cash) => { assert(w.text()[0] != v.text()[0]); },
            (AccountSubtype::Bank, AccountSubtype::AccountsReceivable) => { assert(w.text().len() != v.text().len()); },
            (AccountSubtype::Bank, AccountSubtype::AccountsPayable) => { assert(w.text().len() != v.text().len()); },
            (AccountSubtype::Bank, AccountSubtype::Tax) => { assert(w.text().len() != v.text().len()); },
            (AccountSubtype::Bank, AccountSubtype::Inventory) => { assert(w.text().len() != v.text().len()); },
            (AccountSubtype::Cash, AccountSubtype::CurrentAsset) => { assert(w.text().len() != v.text().len()); },
            (AccountSubtype::Cash, AccountSubtype::NonCurrentAsset) => { assert(w.text().len() != v.text().len()); },
            (AccountSubtype::Cash, AccountSubtype::FixedAsset) => { assert(w.text().len() != v.text().len()); },
            (AccountSubtype::Cash, AccountSubtype::AccumulatedDepreciation) => { assert(w.text().len() != v.text().len()); },
            (AccountSubtype::Cash, AccountSubtype::CurrentLiability) => { assert(w.text().len() != v.text().len()); },
            (AccountSubtype::Cash, AccountSubtype::NonCurrentLiability) => { assert(w.text().len() != v.text().len()); },
            (AccountSubtype::Cash, AccountSubtype::PaidInCapital) => { assert(w.text().len() != v.text().len()); },
            (AccountSubtype::Cash, AccountSubtype::RetainedEarnings) => { assert(w.text().len() != v.text().len()); },
            (AccountSubtype::Cash, AccountSubtype::OperatingRevenue) => { assert(w.text().len() != v.text().len()); },
            (AccountSubtype::Cash, AccountSubtype::OperatingExpense) => { assert(w.text().len() != v.text().len()); },
            (AccountSubtype::Cash, AccountSubtype::DirectCost) => { assert(w.text().len() != v.text().len()); },
            (AccountSubtype::Cash, AccountSubtype::Bank) => { assert(w.text()[0] != v.text()[0]); },
            (AccountSubtype::Cash, AccountSubtype::AccountsReceivable) => { assert(w.text().len() != v.text().len()); },
            (AccountSubtype::Cash, AccountSubtype::AccountsPayable) => { assert(w.text().len() != v.text().len()); },
            (AccountSubtype::Cash, AccountSubtype::Tax) => { assert(w.text().len() != v.text().len()); },
            (AccountSubtype::Cash, AccountSubtype::Inventory) => { assert(w.text().len() != v.text().len()); },
            (AccountSubtype::AccountsReceivable, AccountSubtype::CurrentAsset) => { assert(w.text().len() != v.text().len()); },
            (AccountSubtype::AccountsReceivable, AccountSubtype::NonCurrentAsset) => { assert(w.text().len() != v.text().len()); },
            (AccountSubtype::AccountsReceivable, AccountSubtype::FixedAsset) => { assert(w.text().len() != v.text().len()); },
            (AccountSubtype::AccountsReceivable, AccountSubtype::AccumulatedDepreciation) => { assert(w.text().len() != v.text().len()); },
            (AccountSubtype::AccountsReceivable, AccountSubtype::CurrentLiability) => { assert(w.text().len() != v.text().len()); },
            (AccountSubtype::AccountsReceivable, AccountSubtype::NonCurrentLiability) => { assert(w.text().len() != v.text().len()); },
            (AccountSubtype::AccountsReceivable, AccountSubtype::PaidInCapital) => { assert(w.text().len() != v.text().len()); },
            (AccountSubtype::AccountsReceivable, AccountSubtype::RetainedEarnings) => { assert(w.text().len() != v.text().len()); },
            (AccountSubtype::AccountsReceivable, AccountSubtype::OperatingRevenue) => { assert(w.text().len() != v.text().len()); },
            (AccountSubtype::AccountsReceivable, AccountSubtype::OperatingExpense) => { assert(w.text().len() != v.text().len()); },
            (AccountSubtype::AccountsReceivable, AccountSubtype::DirectCost) => { assert(w.text().len() != v.text().len()); },
            (AccountSubtype::AccountsReceivable, AccountSubtype::Bank) => { assert(w.text().len() != v.text().len()); },
            (AccountSubtype::AccountsReceivable, AccountSubtype::Cash) => { assert(w.text().len() != v.text().len()); },
            (AccountSubtype::AccountsReceivable, AccountSubtype::AccountsPayable) => { assert(w.text().len() != v.text().len()); },
            (AccountSubtype::AccountsReceivable, AccountSubtype::Tax) => { assert(w.text().len() != v.text().len()); },
            (AccountSubtype::AccountsReceivable, AccountSubtype::Inventory) => { assert(w.text().len() != v.text().len()); },
            (AccountSubtype::AccountsPayable, AccountSubtype::CurrentAsset) => { assert(w.text().len() != v.text().len()); },
            (AccountSubtype::AccountsPayable, AccountSubtype::NonCurrentAsset) => { assert(w.text().len() != v.text().len()); },
            (AccountSubtype::AccountsPayable, AccountSubtype::FixedAsset) => { assert(w.text().len() != v.text().len()); },
            (AccountSubtype::AccountsPayable, AccountSubtype::AccumulatedDepreciation) => { assert(w.text().len() != v.text().len()); },
            (AccountSubtype::AccountsPayable, AccountSubtype::CurrentLiability) => { assert(w.text().len() != v.text().len()); },
            (AccountSubtype::AccountsPayable, AccountSubtype::NonCurrentLiability) => { assert(w.text().len() != v.text().len()); },
            (AccountSubtype::AccountsPayable, AccountSubtype::PaidInCapital) => { assert(w.text().len() != v.text().len()); },
            (AccountSubtype::AccountsPayable, AccountSubtype::RetainedEarnings) => { assert(w.text().len() != v.text().len()); },
            (AccountSubtype::AccountsPayable, AccountSubtype::OperatingRevenue) => { assert(w.text().len() != v.text().len()); },
            (AccountSubtype::AccountsPayable, AccountSubtype::OperatingExpense) => { assert(w.text().len() != v.text().len()); },
            (AccountSubtype::AccountsPayable, AccountSubtype::DirectCost) => { assert(w.text().len() != v.text().len()); },
            (AccountSubtype::AccountsPayable, AccountSubtype::Bank) => { assert(w.text().len() != v.text().len()); },
            (AccountSubtype::AccountsPayable, AccountSubtype::Cash) => { assert(w.text().len() != v.text().len()); },
            (AccountSubtype::AccountsPayable, AccountSubtype::AccountsReceivable) => { assert(w.text().len() != v.text().len()); },
            (AccountSubtype::AccountsPayable, AccountSubtype::Tax) => { assert(w.text().len() != v.text().len()); },
            (AccountSubtype::AccountsPayable, AccountSubtype::Inventory) => { assert(w.text().len() != v.text().len()); },
            (AccountSubtype::Tax, AccountSubtype::CurrentAsset) => { assert(w.text().len() != v.text().len()); },
            (AccountSubtype::Tax, AccountSubtype::NonCurrentAsset) => { assert(w.text().len() != v.text().len()); },
            (AccountSubtype::Tax, AccountSubtype::FixedAsset) => { assert(w.text().len() != v.text().len()); },
            (AccountSubtype::Tax, AccountSubtype::AccumulatedDepreciation) => { assert(w.text().len() != v.text().len()); },
            (AccountSubtype::Tax, AccountSubtype::CurrentLiability) => { assert(w.text().len() != v.text().len()); },
            (AccountSubtype::Tax, AccountSubtype::NonCurrentLiability) => { assert(w.text().len() != v.text().len()); },
            (AccountSubtype::Tax, AccountSubtype::PaidInCapital) => { assert(w.text().len() != v.text().len()); },
            (AccountSubtype::Tax, AccountSubtype::RetainedEarnings) => { assert(w.text().len() != v.text().len()); },
            (AccountSubtype::Tax, AccountSubtype::OperatingRevenue) => { assert(w.text().len() != v.text().len()); },
            (AccountSubtype::Tax, AccountSubtype::OperatingExpense) => { assert(w.text().len() != v.text().len()); },
            (AccountSubtype::Tax, AccountSubtype::DirectCost) => { assert(w.text().len() != v.text().len()); },
            (AccountSubtype::Tax, AccountSubtype::Bank) => { assert(w.text().len() != v.text().len()); },
            (AccountSubtype::Tax, AccountSubtype::Cash) => { assert(w.text().len() != v.text().len()); },
            (AccountSubtype::Tax, AccountSubtype::AccountsReceivable) => { assert(w.text().len() != v.text().len()); },
            (AccountSubtype::Tax, AccountSubtype::AccountsPayable) => { assert(w.text().len() != v.text().len()); },
            (AccountSubtype::Tax, AccountSubtype::Inventory) => { assert(w.text().len() != v.text().len()); },
            (AccountSubtype::Inventory, AccountSubtype::CurrentAsset) => { assert(w.text().len() != v.text().len()); },
            (AccountSubtype::Inventory, AccountSubtype::NonCurrentAsset) => { assert(w.text().len() != v.text().len()); },
            (AccountSubtype::Inventory, AccountSubtype::FixedAsset) => { assert(w.text().len() != v.text().len()); },
            (AccountSubtype::Inventory, AccountSubtype::AccumulatedDepreciation) => { assert(w.text().len() != v.text().len()); },
            (AccountSubtype::Inventory, AccountSubtype::CurrentLiability) => { assert(w.text().len() != v.text().len()); },
            (AccountSubtype::Inventory, AccountSubtype::NonCurrentLiability) => { assert(w.text().len() != v.text().len()); },
            (AccountSubtype::Inventory, AccountSubtype::PaidInCapital) => { assert(w.text().len() != v.text().len()); },
            (AccountSubtype::Inventory, AccountSubtype::RetainedEarnings) => { assert(w.text().len() != v.text().len()); },
            (AccountSubtype::Inventory, AccountSubtype::OperatingRevenue) => { assert(w.text().len() != v.text().len()); },
            (AccountSubtype::Inventory, AccountSubtype::OperatingExpense) => { assert(w.text().len() != v.text().len()); },
            (AccountSubtype::Inventory, AccountSubtype::DirectCost) => { assert(w.text().len() != v.text().len()); },
            (AccountSubtype::Inventory, AccountSubtype::Bank) => { assert(w.text().len() != v.text().len()); },
            (AccountSubtype::Inventory, AccountSubtype::Cash) => { assert(w.text().len() != v.text().len()); },
            (AccountSubtype::Inventory, AccountSubtype::AccountsReceivable) => { assert(w.text().len() != v.text().len()); },
            (AccountSubtype::Inventory, AccountSubtype::AccountsPayable) => { assert(w.text().len() != v.text().len()); },
            (AccountSubtype::Inventory, AccountSubtype::Tax) => { assert(w.text().len() != v.text().len()); },
            _ => {},
        }
    }
}

} // verus!
