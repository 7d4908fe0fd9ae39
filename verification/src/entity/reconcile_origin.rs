//! What created a reconciliation edge.

use crate::text::{lower_text, lowercase, str_eq, string_from};
use vstd::prelude::*;

verus! {

/// What created a reconciliation edge.
#[derive(Debug, Clone, Copy, PartialEq, Eq, Structural, Hash)]
pub enum ReconcileOrigin {
    Settlement,
    Clearing,
    Manual,
}

impl ReconcileOrigin {
    /// The snake_case label of the variant.
    pub open spec fn text(&self) -> Seq<char> {
        match self {
            ReconcileOrigin::Settlement => seq!['s', 'e', 't', 't', 'l', 'e', 'm', 'e', 'n', 't'],
            ReconcileOrigin::Clearing => seq!['c', 'l', 'e', 'a', 'r', 'i', 'n', 'g'],
            ReconcileOrigin::Manual => seq!['m', 'a', 'n', 'u', 'a', 'l'],
        }
    }

    /// The snake_case label of the variant.
    pub fn as_str(&self) -> (r: &'static str)
        ensures
            r@ == self.text(),
    {
        match self {
            ReconcileOrigin::Settlement => {
                proof {
                    reveal_strlit("settlement");
                }
                "settlement"
            },
            ReconcileOrigin::Clearing => {
                proof {
                    reveal_strlit("clearing");
                }
                "clearing"
            },
            ReconcileOrigin::Manual => {
                proof {
                    reveal_strlit("manual");
                }
                "manual"
            },
        }
    }

    /// The snake_case label of the variant, as a string.
    pub fn to_string(&self) -> (r: String)
        ensures
            r@ == self.text(),
    {
        string_from(self.as_str())
    }

    /// Parse a label, case-insensitively (the input is lowercased first).
    pub fn from_str(s: &str) -> (r: Result<ReconcileOrigin, String>)
        ensures
            match r {
                Ok(v) => lower_text(s@) == v.text(),
                Err(e) => (forall|v: ReconcileOrigin| lower_text(s@) != #[trigger] v.text()) && e@
                    == "Unknown ReconcileOrigin variant: "@ + s@,
            },
    {
        let lower = lowercase(s);
        let l = lower.as_str();
        proof {
            reveal_strlit("settlement");
        }
        if str_eq(l, "settlement") {
            return Ok(ReconcileOrigin::Settlement);
        }
        proof {
            reveal_strlit("clearing");
        }
        if str_eq(l, "clearing") {
            return Ok(ReconcileOrigin::Clearing);
        }
        proof {
            reveal_strlit("manual");
        }
        if str_eq(l, "manual") {
            return Ok(ReconcileOrigin::Manual);
        }
        proof {
            assert forall|v: ReconcileOrigin| lower_text(s@) != #[trigger] v.text() by {
                match v {
                    ReconcileOrigin::Settlement => {
                        reveal_strlit("settlement");
                        assert("settlement"@ =~= v.text());
                    },
                    ReconcileOrigin::Clearing => {
                        reveal_strlit("clearing");
                        assert("clearing"@ =~= v.text());
                    },
                    ReconcileOrigin::Manual => {
                        reveal_strlit("manual");
                        assert("manual"@ =~= v.text());
                    },
                }
            }
        }
        Err(string_from("Unknown ReconcileOrigin variant: ").concat(s))
    }
}

impl Default for ReconcileOrigin {
    fn default() -> (r: ReconcileOrigin)
        ensures
            r == ReconcileOrigin::Manual,
    {
        ReconcileOrigin::Manual
    }
}

/// Every label is its own lowercase and names one variant only, so parsing
/// the label of a variant gives that variant back.
pub proof fn lemma_reconcile_origin_label_roundtrip(v: ReconcileOrigin)
    ensures
        lower_text(v.text()) == v.text(),
        forall|w: ReconcileOrigin| #[trigger] w.text() == v.text() ==> w == v,
{
    crate::text::lemma_lowercase_label(v.text());
    assert forall|w: ReconcileOrigin| #[trigger] w.text() == v.text() implies w == v by {
        match (v, w) {
            (ReconcileOrigin::Settlement, ReconcileOrigin::Clearing) => { assert(w.text().len() != v.text().len()); },
            (ReconcileOrigin::Settlement, ReconcileOrigin::Manual) => { assert(w.text().len() != v.text().len()); },
            (ReconcileOrigin::Clearing, ReconcileOrigin::Settlement) => { assert(w.text().len() != v.text().len()); },
            (ReconcileOrigin::Clearing, ReconcileOrigin::Manual) => { assert(w.text().len() != v.text().len()); },
            (ReconcileOrigin::Manual, ReconcileOrigin::Settlement) => { assert(w.text().len() != v.text().len()); },
            (ReconcileOrigin::Manual, ReconcileOrigin::Clearing) => { assert(w.text().len() != v.text().len()); },
            _ => {},
        }
    }
}

} // verus!
