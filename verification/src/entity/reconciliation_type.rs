//! What a reconciliation reconciles.

use crate::text::{lower_text, lowercase, str_eq, string_from};
use vstd::prelude::*;

verus! {

/// What a reconciliation reconciles.
#[derive(Debug, Clone, Copy, PartialEq, Eq, Structural, Hash)]
pub enum ReconciliationType {
    Bank,
    AccountsReceivable,
    AccountsPayable,
    Intercompany,
    Other,
}

impl ReconciliationType {
    /// The snake_case label of the variant.
    pub open spec fn text(&self) -> Seq<char> {
        match self {
            ReconciliationType::Bank => seq!['b', 'a', 'n', 'k'],
            ReconciliationType::AccountsReceivable => seq!['a', 'c', 'c', 'o', 'u', 'n', 't', 's', '_', 'r', 'e', 'c', 'e', 'i', 'v', 'a', 'b', 'l', 'e'],
            ReconciliationType::AccountsPayable => seq!['a', 'c', 'c', 'o', 'u', 'n', 't', 's', '_', 'p', 'a', 'y', 'a', 'b', 'l', 'e'],
            ReconciliationType::Intercompany => seq!['i', 'n', 't', 'e', 'r', 'c', 'o', 'm', 'p', 'a', 'n', 'y'],
            ReconciliationType::Other => seq!['o', 't', 'h', 'e', 'r'],
        }
    }

    /// The snake_case label of the variant.
    pub fn as_str(&self) -> (r: &'static str)
        ensures
            r@ == self.text(),
    {
        match self {
            ReconciliationType::Bank => {
                proof {
                    reveal_strlit("bank");
                }
                "bank"
            },
            ReconciliationType::AccountsReceivable => {
                proof {
                    reveal_strlit("accounts_receivable");
                }
                "accounts_receivable"
            },
            ReconciliationType::AccountsPayable => {
                proof {
                    reveal_strlit("accounts_payable");
                }
                "accounts_payable"
            },
            ReconciliationType::Intercompany => {
                proof {
                    reveal_strlit("intercompany");
                }
                "intercompany"
            },
            ReconciliationType::Other => {
                proof {
                    reveal_strlit("other");
                }
                "other"
            },
        }
    }

    /// The snake_case label of the variant, as a string.
    pub fn to_string(&self) -> (r: String)
        ensures
            r@ == self.text(),
    {
        string_from(self.as_str())
    }

    /// Parse a label, case-insensitively (the input is lowercased first).
    pub fn from_str(s: &str) -> (r: Result<ReconciliationType, String>)
        ensures
            match r {
                Ok(v) => lower_text(s@) == v.text(),
                Err(e) => (forall|v: ReconciliationType| lower_text(s@) != #[trigger] v.text()) && e@
                    == "Unknown ReconciliationType variant: "@ + s@,
            },
    {
        let lower = lowercase(s);
        let l = lower.as_str();
        proof {
            reveal_strlit("bank");
        }
        if str_eq(l, "bank") {
            return Ok(ReconciliationType::Bank);
        }
        proof {
            reveal_strlit("accounts_receivable");
        }
        if str_eq(l, "accounts_receivable") {
            return Ok(ReconciliationType::AccountsReceivable);
        }
        proof {
            reveal_strlit("accounts_payable");
        }
        if str_eq(l, "accounts_payable") {
            return Ok(ReconciliationType::AccountsPayable);
        }
        proof {
            reveal_strlit("intercompany");
        }
        if str_eq(l, "intercompany") {
            return Ok(ReconciliationType::Intercompany);
        }
        proof {
            reveal_strlit("other");
        }
        if str_eq(l, "other") {
            return Ok(ReconciliationType::Other);
        }
        proof {
            assert forall|v: ReconciliationType| lower_text(s@) != #[trigger] v.text() by {
                match v {
                    ReconciliationType::Bank => {
                        reveal_strlit("bank");
                        assert("bank"@ =~= v.text());
                    },
                    ReconciliationType::AccountsReceivable => {
                        reveal_strlit("accounts_receivable");
                        assert("accounts_receivable"@ =~= v.text());
                    },
                    ReconciliationType::AccountsPayable => {
                        reveal_strlit("accounts_payable");
                        assert("accounts_payable"@ =~= v.text());
                    },
                    ReconciliationType::Intercompany => {
                        reveal_strlit("intercompany");
                        assert("intercompany"@ =~= v.text());
                    },
                    ReconciliationType::Other => {
                        reveal_strlit("other");
                        assert("other"@ =~= v.text());
                    },
                }
            }
        }
        Err(string_from("Unknown ReconciliationType variant: ").concat(s))
    }
}

impl Default for ReconciliationType {
    fn default() -> (r: ReconciliationType)
        ensures
            r == ReconciliationType::Bank,
    {
        ReconciliationType::Bank
    }
}

/// Every label is its own lowercase and names one variant only, so parsing
/// the label of a variant gives that variant back.
pub proof fn lemma_reconciliation_type_label_roundtrip(v: ReconciliationType)
    ensures
        lower_text(v.text()) == v.text(),
        forall|w: ReconciliationType| #[trigger] w.text() == v.text() ==> w == v,
{
    crate::text::lemma_lowercase_label(v.text());
    assert forall|w: ReconciliationType| #[trigger] w.text() == v.text() implies w == v by {
        match (v, w) {
            (ReconciliationType::Bank, ReconciliationType::AccountsReceivable) => { assert(w.text().len() != v.text().len()); },
            (ReconciliationType::Bank, ReconciliationType::AccountsPayable) => { assert(w.text().len() != v.text().len()); },
            (ReconciliationType::Bank, ReconciliationType::Intercompany) => { assert(w.text().len() != v.text().len()); },
            (ReconciliationType::Bank, ReconciliationType::Other) => { assert(w.text().len() != v.text().len()); },
            (ReconciliationType::AccountsReceivable, ReconciliationType::Bank) => { assert(w.text().len() != v.text().len()); },
            (ReconciliationType::AccountsReceivable, ReconciliationType::AccountsPayable) => { assert(w.text().len() != v.text().len()); },
            (ReconciliationType::AccountsReceivable, ReconciliationType::Intercompany) => { assert(w.text().len() != v.text().len()); },
            (ReconciliationType::AccountsReceivable, ReconciliationType::Other) => { assert(w.text().len() != v.text().len()); },
            (ReconciliationType::AccountsPayable, ReconciliationType::Bank) => { assert(w.text().len() != v.text().len()); },
            (ReconciliationType::AccountsPayable, ReconciliationType::AccountsReceivable) => { assert(w.text().len() != v.text().len()); },
            (ReconciliationType::AccountsPayable, ReconciliationType::Intercompany) => { assert(w.text().len() != v.text().len()); },
            (ReconciliationType::AccountsPayable, ReconciliationType::Other) => { assert(w.text().len() != v.text().len()); },
            (ReconciliationType::Intercompany, ReconciliationType::Bank) => { assert(w.text().len() != v.text().len()); },
            (ReconciliationType::Intercompany, ReconciliationType::AccountsReceivable) => { assert(w.text().len() != v.text().len()); },
            (ReconciliationType::Intercompany, ReconciliationType::AccountsPayable) => { assert(w.text().len() != v.text().len()); },
            (ReconciliationType::Intercompany, ReconciliationType::Other) => { assert(w.text().len() != v.text().len()); },
            (ReconciliationType::Other, ReconciliationType::Bank) => { assert(w.text().len() != v.text().len()); },
            (ReconciliationType::Other, ReconciliationType::AccountsReceivable) => { assert(w.text().len() != v.text().len()); },
            (ReconciliationType::Other, ReconciliationType::AccountsPayable) => { assert(w.text().len() != v.text().len()); },
            (ReconciliationType::Other, ReconciliationType::Intercompany) => { assert(w.text().len() != v.text().len()); },
            _ => {},
        }
    }
}

} // verus!
