//! The kind of a financial statement.

use crate::text::{lower_text, lowercase, str_eq, string_from};
use vstd::prelude::*;

verus! {

/// The kind of a financial statement.
#[derive(Debug, Clone, Copy, PartialEq, Eq, Structural, Hash)]
pub enum StatementType {
    BalanceSheet,
    IncomeStatement,
    CashFlow,
    TrialBalance,
    EquityStatement,
}

impl StatementType {
    /// The snake_case label of the variant.
    pub open spec fn text(&self) -> Seq<char> {
        match self {
            StatementType::BalanceSheet => seq!['b', 'a', 'l', 'a', 'n', 'c', 'e', '_', 's', 'h', 'e', 'e', 't'],
            StatementType::IncomeStatement => seq!['i', 'n', 'c', 'o', 'm', 'e', '_', 's', 't', 'a', 't', 'e', 'm', 'e', 'n', 't'],
            StatementType::CashFlow => seq!['c', 'a', 's', 'h', '_', 'f', 'l', 'o', 'w'],
            StatementType::TrialBalance => seq!['t', 'r', 'i', 'a', 'l', '_', 'b', 'a', 'l', 'a', 'n', 'c', 'e'],
            StatementType::EquityStatement => seq!['e', 'q', 'u', 'i', 't', 'y', '_', 's', 't', 'a', 't', 'e', 'm', 'e', 'n', 't'],
        }
    }

    /// The snake_case label of the variant.
    pub fn as_str(&self) -> (r: &'static str)
        ensures
            r@ == self.text(),
    {
        match self {
            StatementType::BalanceSheet => {
                proof {
                    reveal_strlit("balance_sheet");
                }
                "balance_sheet"
            },
            StatementType::IncomeStatement => {
                proof {
                    reveal_strlit("income_statement");
                }
                "income_statement"
            },
            StatementType::CashFlow => {
                proof {
                    reveal_strlit("cash_flow");
                }
                "cash_flow"
            },
            StatementType::TrialBalance => {
                proof {
                    reveal_strlit("trial_balance");
                }
                "trial_balance"
            },
            StatementType::EquityStatement => {
                proof {
                    reveal_strlit("equity_statement");
                }
                "equity_statement"
            },
        }
    }

    /// The snake_case label of the variant, as a string.
    pub fn to_string(&self) -> (r: String)
        ensures
            r@ == self.text(),
    {
        string_from(self.as_str())
    }

    /// Parse a label, case-insensitively (the input is lowercased first).
    pub fn from_str(s: &str) -> (r: Result<StatementType, String>)
        ensures
            match r {
                Ok(v) => lower_text(s@) == v.text(),
                Err(e) => (forall|v: StatementType| lower_text(s@) != #[trigger] v.text()) && e@
                    == "Unknown StatementType variant: "@ + s@,
            },
    {
        let lower = lowercase(s);
        let l = lower.as_str();
        proof {
            reveal_strlit("balance_sheet");
        }
        if str_eq(l, "balance_sheet") {
            return Ok(StatementType::BalanceSheet);
        }
        proof {
            reveal_strlit("income_statement");
        }
        if str_eq(l, "income_statement") {
            return Ok(StatementType::IncomeStatement);
        }
        proof {
            reveal_strlit("cash_flow");
        }
        if str_eq(l, "cash_flow") {
            return Ok(StatementType::CashFlow);
        }
        proof {
            reveal_strlit("trial_balance");
        }
        if str_eq(l, "trial_balance") {
            return Ok(StatementType::TrialBalance);
        }
        proof {
            reveal_strlit("equity_statement");
        }
        if str_eq(l, "equity_statement") {
            return Ok(StatementType::EquityStatement);
        }
        proof {
            assert forall|v: StatementType| lower_text(s@) != #[trigger] v.text() by {
                match v {
                    StatementType::BalanceSheet => {
                        reveal_strlit("balance_sheet");
                        assert("balance_sheet"@ =~= v.text());
                    },
                    StatementType::IncomeStatement => {
                        reveal_strlit("income_statement");
                        assert("income_statement"@ =~= v.text());
                    },
                    StatementType::CashFlow => {
                        reveal_strlit("cash_flow");
                        assert("cash_flow"@ =~= v.text());
                    },
                    StatementType::TrialBalance => {
                        reveal_strlit("trial_balance");
                        assert("trial_balance"@ =~= v.text());
                    },
                    StatementType::EquityStatement => {
                        reveal_strlit("equity_statement");
                        assert("equity_statement"@ =~= v.text());
                    },
                }
            }
        }
        Err(string_from("Unknown StatementType variant: ").concat(s))
    }
}

impl Default for StatementType {
    fn default() -> (r: StatementType)
        ensures
            r == StatementType::BalanceSheet,
    {
        StatementType::BalanceSheet
    }
}

/// Every label is its own lowercase and names one variant only, so parsing
/// the label of a variant gives that variant back.
pub proof fn lemma_statement_type_label_roundtrip(v: StatementType)
    ensures
        lower_text(v.text()) == v.text(),
        forall|w: StatementType| #[trigger] w.text() == v.text() ==> w == v,
{
    crate::text::lemma_lowercase_label(v.text());
    assert forall|w: StatementType| #[trigger] w.text() == v.text() implies w == v by {
        match (v, w) {
            (StatementType::BalanceSheet, StatementType::IncomeStatement) => { assert(w.text().len() != v.text().len()); },
            (StatementType::BalanceSheet, StatementType::CashFlow) => { assert(w.text().len() != v.text().len()); },
            (StatementType::BalanceSheet, StatementType::TrialBalance) => { assert(w.text()[0] != v.text()[0]); },
            (StatementType::BalanceSheet, StatementType::EquityStatement) => { assert(w.text().len() != v.text().len()); },
            (StatementType::IncomeStatement, StatementType::BalanceSheet) => { assert(w.text().len() != v.text().len()); },
            (StatementType::IncomeStatement, StatementType::CashFlow) => { assert(w.text().len() != v.text().len()); },
            (StatementType::IncomeStatement, StatementType::TrialBalance) => { assert(w.text().len() != v.text().len()); },
            (StatementType::IncomeStatement, StatementType::EquityStatement) => { assert(w.text()[0] != v.text()[0]); },
            (StatementType::CashFlow, StatementType::BalanceSheet) => { assert(w.text().len() != v.text().len()); },
            (StatementType::CashFlow, StatementType::IncomeStatement) => { assert(w.text().len() != v.text().len()); },
            (StatementType::CashFlow, StatementType::TrialBalance) => { assert(w.text().len() != v.text().len()); },
            (StatementType::CashFlow, StatementType::EquityStatement) => { assert(w.text().len() != v.text().len()); },
            (StatementType::TrialBalance, StatementType::BalanceSheet) => { assert(w.text()[0] != v.text()[0]); },
            (StatementType::TrialBalance, StatementType::IncomeStatement) => { assert(w.text().len() != v.text().len()); },
            (StatementType::TrialBalance, StatementType::CashFlow) => { assert(w.text().len() != v.text().len()); },
            (StatementType::TrialBalance, StatementType::EquityStatement) => { assert(w.text().len() != v.text().len()); },
            (StatementType::EquityStatement, StatementType::BalanceSheet) => { assert(w.text().len() != v.text().len()); },
            (StatementType::EquityStatement, StatementType::IncomeStatement) => { assert(w.text()[0] != v.text()[0]); },
            (StatementType::EquityStatement, StatementType::CashFlow) => { assert(w.text().len() != v.text().len()); },
            (StatementType::EquityStatement, StatementType::TrialBalance) => { assert(w.text().len() != v.text().len()); },
            _ => {},
        }
    }
}

} // verus!
