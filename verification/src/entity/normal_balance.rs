//! The side on which an account's balance grows.

use crate::text::{lower_text, lowercase, str_eq, string_from};
use vstd::prelude::*;

verus! {

/// The side on which an account's balance grows.
#[derive(Debug, Clone, Copy, PartialEq, Eq, Structural, Hash)]
pub enum NormalBalance {
    Debit,
    Credit,
}

impl NormalBalance {
    /// The snake_case label of the variant.
    pub open spec fn text(&self) -> Seq<char> {
        match self {
            NormalBalance::Debit => seq!['d', 'e', 'b', 'i', 't'],
            NormalBalance::Credit => seq!['c', 'r', 'e', 'd', 'i', 't'],
        }
    }

    /// The snake_case label of the variant.
    pub fn as_str(&self) -> (r: &'static str)
        ensures
            r@ == self.text(),
    {
        match self {
            NormalBalance::Debit => {
                proof {
                    reveal_strlit("debit");
                }
                "debit"
            },
            NormalBalance::Credit => {
                proof {
                    reveal_strlit("credit");
                }
                "credit"
            },
        }
    }

    /// The snake_case label of the variant, as a string.
    pub fn to_string(&self) -> (r: String)
        ensures
            r@ == self.text(),
    {
        string_from(self.as_str())
    }

    /// Parse a label, case-insensitively (the input is lowercased first).
    pub fn from_str(s: &str) -> (r: Result<NormalBalance, String>)
        ensures
            match r {
                Ok(v) => lower_text(s@) == v.text(),
                Err(e) => (forall|v: NormalBalance| lower_text(s@) != #[trigger] v.text()) && e@
                    == "Unknown NormalBalance variant: "@ + s@,
            },
    {
        let lower = lowercase(s);
        let l = lower.as_str();
        proof {
            reveal_strlit("debit");
        }
        if str_eq(l, "debit") {
            return Ok(NormalBalance::Debit);
        }
        proof {
            reveal_strlit("credit");
        }
        if str_eq(l, "credit") {
            return Ok(NormalBalance::Credit);
        }
        proof {
            assert forall|v: NormalBalance| lower_text(s@) != #[trigger] v.text() by {
                match v {
                    NormalBalance::Debit => {
                        reveal_strlit("debit");
                        assert("debit"@ =~= v.text());
                    },
                    NormalBalance::Credit => {
                        reveal_strlit("credit");
                        assert("credit"@ =~= v.text());
                    },
                }
            }
        }
        Err(string_from("Unknown NormalBalance variant: ").concat(s))
    }
}

impl Default for NormalBalance {
    fn default() -> (r: NormalBalance)
        ensures
            r == NormalBalance::Debit,
    {
        NormalBalance::Debit
    }
}

/// Every label is its own lowercase and names one variant only, so parsing
/// the label of a variant gives that variant back.
pub proof fn lemma_normal_balance_label_roundtrip(v: NormalBalance)
    ensures
        lower_text(v.text()) == v.text(),
        forall|w: NormalBalance| #[trigger] w.text() == v.text() ==> w == v,
{
    crate::text::lemma_lowercase_label(v.text());
    assert forall|w: NormalBalance| #[trigger] w.text() == v.text() implies w == v by {
        match (v, w) {
            (NormalBalance::Debit, NormalBalance::Credit) => { assert(w.text().len() != v.text().len()); },
            (NormalBalance::Credit, NormalBalance::Debit) => { assert(w.text().len() != v.text().len()); },
            _ => {},
        }
    }
}

} // verus!
