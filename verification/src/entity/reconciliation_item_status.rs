//! The matching state of a reconciliation item.

use crate::text::{lower_text, lowercase, str_eq, string_from};
use vstd::prelude::*;

verus! {

/// The matching state of a reconciliation item.
#[derive(Debug, Clone, Copy, PartialEq, Eq, Structural, Hash)]
pub enum ReconciliationItemStatus {
    Unmatched,
    Matched,
    PartialMatch,
    Adjusted,
    WrittenOff,
    Outstanding,
}

impl ReconciliationItemStatus {
    /// The snake_case label of the variant.
    pub open spec fn text(&self) -> Seq<char> {
        match self {
            ReconciliationItemStatus::Unmatched => seq!['u', 'n', 'm', 'a', 't', 'c', 'h', 'e', 'd'],
            ReconciliationItemStatus::Matched => seq!['m', 'a', 't', 'c', 'h', 'e', 'd'],
            ReconciliationItemStatus::PartialMatch => seq!['p', 'a', 'r', 't', 'i', 'a', 'l', '_', 'm', 'a', 't', 'c', 'h'],
            ReconciliationItemStatus::Adjusted => seq!['a', 'd', 'j', 'u', 's', 't', 'e', 'd'],
            ReconciliationItemStatus::WrittenOff => seq!['w', 'r', 'i', 't', 't', 'e', 'n', '_', 'o', 'f', 'f'],
            ReconciliationItemStatus::Outstanding => seq!['o', 'u', 't', 's', 't', 'a', 'n', 'd', 'i', 'n', 'g'],
        }
    }

    /// The snake_case label of the variant.
    pub fn as_str(&self) -> (r: &'static str)
        ensures
            r@ == self.text(),
    {
        match self {
            ReconciliationItemStatus::Unmatched => {
                proof {
                    reveal_strlit("unmatched");
                }
                "unmatched"
            },
            ReconciliationItemStatus::Matched => {
                proof {
                    reveal_strlit("matched");
                }
                "matched"
            },
            ReconciliationItemStatus::PartialMatch => {
                proof {
                    reveal_strlit("partial_match");
                }
                "partial_match"
            },
            ReconciliationItemStatus::Adjusted => {
                proof {
                    reveal_strlit("adjusted");
                }
                "adjusted"
            },
            ReconciliationItemStatus::WrittenOff => {
                proof {
                    reveal_strlit("written_off");
                }
                "written_off"
            },
            ReconciliationItemStatus::Outstanding => {
                proof {
                    reveal_strlit("outstanding");
                }
                "outstanding"
            },
        }
    }

    /// The snake_case label of the variant, as a string.
    pub fn to_string(&self) -> (r: String)
        ensures
            r@ == self.text(),
    {
        string_from(self.as_str())
    }

    /// Parse a label, case-insensitively (the input is lowercased first).
    pub fn from_str(s: &str) -> (r: Result<ReconciliationItemStatus, String>)
        ensures
            match r {
                Ok(v) => lower_text(s@) == v.text(),
                Err(e) => (forall|v: ReconciliationItemStatus| lower_text(s@) != #[trigger] v.text()) && e@
                    == "Unknown ReconciliationItemStatus variant: "@ + s@,
            },
    {
        let lower = lowercase(s);
        let l = lower.as_str();
        proof {
            reveal_strlit("unmatched");
        }
        if str_eq(l, "unmatched") {
            return Ok(ReconciliationItemStatus::Unmatched);
        }
        proof {
            reveal_strlit("matched");
        }
        if str_eq(l, "matched") {
            return Ok(ReconciliationItemStatus::Matched);
        }
        proof {
            reveal_strlit("partial_match");
        }
        if str_eq(l, "partial_match") {
            return Ok(ReconciliationItemStatus::PartialMatch);
        }
        proof {
            reveal_strlit("adjusted");
        }
        if str_eq(l, "adjusted") {
            return Ok(ReconciliationItemStatus::Adjusted);
        }
        proof {
            reveal_strlit("written_off");
        }
        if str_eq(l, "written_off") {
            return Ok(ReconciliationItemStatus::WrittenOff);
        }
        proof {
            reveal_strlit("outstanding");
        }
        if str_eq(l, "outstanding") {
            return Ok(ReconciliationItemStatus::Outstanding);
        }
        proof {
            assert forall|v: ReconciliationItemStatus| lower_text(s@) != #[trigger] v.text() by {
                match v {
                    ReconciliationItemStatus::Unmatched => {
                        reveal_strlit("unmatched");
                        assert("unmatched"@ =~= v.text());
                    },
                    ReconciliationItemStatus::Matched => {
                        reveal_strlit("matched");
                        assert("matched"@ =~= v.text());
                    },
                    ReconciliationItemStatus::PartialMatch => {
                        reveal_strlit("partial_match");
                        assert("partial_match"@ =~= v.text());
                    },
                    ReconciliationItemStatus::Adjusted => {
                        reveal_strlit("adjusted");
                        assert("adjusted"@ =~= v.text());
                    },
                    ReconciliationItemStatus::WrittenOff => {
                        reveal_strlit("written_off");
                        assert("written_off"@ =~= v.text());
                    },
                    ReconciliationItemStatus::Outstanding => {
                        reveal_strlit("outstanding");
                        assert("outstanding"@ =~= v.text());
                    },
                }
            }
        }
        Err(string_from("Unknown ReconciliationItemStatus variant: ").concat(s))
    }
}

impl Default for ReconciliationItemStatus {
    fn default() -> (r: ReconciliationItemStatus)
        ensures
            r == ReconciliationItemStatus::Unmatched,
    {
        ReconciliationItemStatus::Unmatched
    }
}

/// Every label is its own lowercase and names one variant only, so parsing
/// the label of a variant gives that variant back.
pub proof fn lemma_reconciliation_item_status_label_roundtrip(v: ReconciliationItemStatus)
    ensures
        lower_text(v.text()) == v.text(),
        forall|w: ReconciliationItemStatus| #[trigger] w.text() == v.text() ==> w == v,
{
    crate::text::lemma_lowercase_label(v.text());
    assert forall|w: ReconciliationItemStatus| #[trigger] w.text() == v.text() implies w == v by {
        match (v, w) {
            (ReconciliationItemStatus::Unmatched, ReconciliationItemStatus::Matched) => { assert(w.text().len() != v.text().len()); },
            (ReconciliationItemStatus::Unmatched, ReconciliationItemStatus::PartialMatch) => { assert(w.text().len() != v.text().len()); },
            (ReconciliationItemStatus::Unmatched, ReconciliationItemStatus::Adjusted) => { assert(w.text().len() != v.text().len()); },
            (ReconciliationItemStatus::Unmatched, ReconciliationItemStatus::WrittenOff) => { assert(w.text().len() != v.text().len()); },
            (ReconciliationItemStatus::Unmatched, ReconciliationItemStatus::Outstanding) => { assert(w.text().len() != v.text().len()); },
            (ReconciliationItemStatus::Matched, ReconciliationItemStatus::Unmatched) => { assert(w.text().len() != v.text().len()); },
            (ReconciliationItemStatus::Matched, ReconciliationItemStatus::PartialMatch) => { assert(w.text().len() != v.text().len()); },
            (ReconciliationItemStatus::Matched, ReconciliationItemStatus::Adjusted) => { assert(w.text().len() != v.text().len()); },
            (ReconciliationItemStatus::Matched, ReconciliationItemStatus::WrittenOff) => { assert(w.text().len() != v.text().len()); },
            (ReconciliationItemStatus::Matched, ReconciliationItemStatus::Outstanding) => { assert(w.text().len() != v.text().len()); },
            (ReconciliationItemStatus::PartialMatch, ReconciliationItemStatus::Unmatched) => { assert(w.text().len() != v.text().len()); },
            (ReconciliationItemStatus::PartialMatch, ReconciliationItemStatus::Matched) => { assert(w.text().len() != v.text().len()); },
            (ReconciliationItemStatus::PartialMatch, ReconciliationItemStatus::Adjusted) => { assert(w.text().len() != v.text().len()); },
            (ReconciliationItemStatus::PartialMatch, ReconciliationItemStatus::WrittenOff) => { assert(w.text().len() != v.text().len()); },
            (ReconciliationItemStatus::PartialMatch, ReconciliationItemStatus::Outstanding) => { assert(w.text().len() != v.text().len()); },
            (ReconciliationItemStatus::Adjusted, ReconciliationItemStatus::Unmatched) => { assert(w.text().len() != v.text().len()); },
            (ReconciliationItemStatus::Adjusted, ReconciliationItemStatus::Matched) => { assert(w.text().len() != v.text().len()); },
            (ReconciliationItemStatus::Adjusted, ReconciliationItemStatus::PartialMatch) => { assert(w.text().len() != v.text().len()); },
            (ReconciliationItemStatus::Adjusted, ReconciliationItemStatus::WrittenOff) => { assert(w.text().len() != v.text().len()); },
            (ReconciliationItemStatus::Adjusted, ReconciliationItemStatus::Outstanding) => { assert(w.text().len() != v.text().len()); },
            (ReconciliationItemStatus::WrittenOff, ReconciliationItemStatus::Unmatched) => { assert(w.text().len() != v.text().len()); },
            (ReconciliationItemStatus::WrittenOff, ReconciliationItemStatus::Matched) => { assert(w.text().len() != v.text().len()); },
            (ReconciliationItemStatus::WrittenOff, ReconciliationItemStatus::PartialMatch) => { assert(w.text().len() != v.text().len()); },
            (ReconciliationItemStatus::WrittenOff, ReconciliationItemStatus::Adjusted) => { assert(w.text().len() != v.text().len()); },
            (ReconciliationItemStatus::WrittenOff, ReconciliationItemStatus::Outstanding) => { assert(w.text()[0] != v.text()[0]); },
            (ReconciliationItemStatus::Outstanding, ReconciliationItemStatus::Unmatched) => { assert(w.text().len() != v.text().len()); },
            (ReconciliationItemStatus::Outstanding, ReconciliationItemStatus::Matched) => { assert(w.text().len() != v.text().len()); },
            (ReconciliationItemStatus::Outstanding, ReconciliationItemStatus::PartialMatch) => { assert(w.text().len() != v.text().len()); },
            (ReconciliationItemStatus::Outstanding, ReconciliationItemStatus::Adjusted) => { assert(w.text().len() != v.text().len()); },
            (ReconciliationItemStatus::Outstanding, ReconciliationItemStatus::WrittenOff) => { assert(w.text()[0] != v.text()[0]); },
            _ => {},
        }
    }
}

} // verus!
