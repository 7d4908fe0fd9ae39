//! The lifecycle state of a fiscal period.

use crate::text::{lower_text, lowercase, str_eq, string_from};
use vstd::prelude::*;

verus! {

/// The lifecycle state of a fiscal period.
#[derive(Debug, Clone, Copy, PartialEq, Eq, Structural, Hash)]
pub enum PeriodStatus {
    Open,
    Closing,
    Closed,
    Locked,
    Adjusting,
}

impl PeriodStatus {
    /// The snake_case label of the variant.
    pub open spec fn text(&self) -> Seq<char> {
        match self {
            PeriodStatus::Open => seq!['o', 'p', 'e', 'n'],
            PeriodStatus::Closing => seq!['c', 'l', 'o', 's', 'i', 'n', 'g'],
            PeriodStatus::Closed => seq!['c', 'l', 'o', 's', 'e', 'd'],
            PeriodStatus::Locked => seq!['l', 'o', 'c', 'k', 'e', 'd'],
            PeriodStatus::Adjusting => seq!['a', 'd', 'j', 'u', 's', 't', 'i', 'n', 'g'],
        }
    }

    /// The snake_case label of the variant.
    pub fn as_str(&self) -> (r: &'static str)
        ensures
            r@ == self.text(),
    {
        match self {
            PeriodStatus::Open => {
                proof {
                    reveal_strlit("open");
                }
                "open"
            },
            PeriodStatus::Closing => {
                proof {
                    reveal_strlit("closing");
                }
                "closing"
            },
            PeriodStatus::Closed => {
                proof {
                    reveal_strlit("closed");
                }
                "closed"
            },
            PeriodStatus::Locked => {
                proof {
                    reveal_strlit("locked");
                }
                "locked"
            },
            PeriodStatus::Adjusting => {
                proof {
                    reveal_strlit("adjusting");
                }
                "adjusting"
            },
        }
    }

    /// The snake_case label of the variant, as a string.
    pub fn to_string(&self) -> (r: String)
        ensures
            r@ == self.text(),
    {
        string_from(self.as_str())
    }

    /// Parse a label, case-insensitively (the input is lowercased first).
    pub fn from_str(s: &str) -> (r: Result<PeriodStatus, String>)
        ensures
            match r {
                Ok(v) => lower_text(s@) == v.text(),
                Err(e) => (forall|v: PeriodStatus| lower_text(s@) != #[trigger] v.text()) && e@
                    == "Unknown PeriodStatus variant: "@ + s@,
            },
    {
        let lower = lowercase(s);
        let l = lower.as_str();
        proof {
            reveal_strlit("open");
        }
        if str_eq(l, "open") {
            return Ok(PeriodStatus::Open);
        }
        proof {
            reveal_strlit("closing");
        }
        if str_eq(l, "closing") {
            return Ok(PeriodStatus::Closing);
        }
        proof {
            reveal_strlit("closed");
        }
        if str_eq(l, "closed") {
            return Ok(PeriodStatus::Closed);
        }
        proof {
            reveal_strlit("locked");
        }
        if str_eq(l, "locked") {
            return Ok(PeriodStatus::Locked);
        }
        proof {
            reveal_strlit("adjusting");
        }
        if str_eq(l, "adjusting") {
            return Ok(PeriodStatus::Adjusting);
        }
        proof {
            assert forall|v: PeriodStatus| lower_text(s@) != #[trigger] v.text() by {
                match v {
                    PeriodStatus::Open => {
                        reveal_strlit("open");
                        assert("open"@ =~= v.text());
                    },
                    PeriodStatus::Closing => {
                        reveal_strlit("closing");
                        assert("closing"@ =~= v.text());
                    },
                    PeriodStatus::Closed => {
                        reveal_strlit("closed");
                        assert("closed"@ =~= v.text());
                    },
                    PeriodStatus::Locked => {
                        reveal_strlit("locked");
                        assert("locked"@ =~= v.text());
                    },
                    PeriodStatus::Adjusting => {
                        reveal_strlit("adjusting");
                        assert("adjusting"@ =~= v.text());
                    },
                }
            }
        }
        Err(string_from("Unknown PeriodStatus variant: ").concat(s))
    }
}

impl Default for PeriodStatus {
    fn default() -> (r: PeriodStatus)
        ensures
            r == PeriodStatus::Open,
    {
        PeriodStatus::Open
    }
}

/// Every label is its own lowercase and names one variant only, so parsing
/// the label of a variant gives that variant back.
pub proof fn lemma_period_status_label_roundtrip(v: PeriodStatus)
    ensures
        lower_text(v.text()) == v.text(),
        forall|w: PeriodStatus| #[trigger] w.text() == v.text() ==> w == v,
{
    crate::text::lemma_lowercase_label(v.text());
    assert forall|w: PeriodStatus| #[trigger] w.text() == v.text() implies w == v by {
        match (v, w) {
            (PeriodStatus::Open, PeriodStatus::Closing) => { assert(w.text().len() != v.text().len()); },
            (PeriodStatus::Open, PeriodStatus::Closed) => { assert(w.text().len() != v.text().len()); },
            (PeriodStatus::Open, PeriodStatus::Locked) => { assert(w.text().len() != v.text().len()); },
            (PeriodStatus::Open, PeriodStatus::Adjusting) => { assert(w.text().len() != v.text().len()); },
            (PeriodStatus::Closing, PeriodStatus::Open) => { assert(w.text().len() != v.text().len()); },
            (PeriodStatus::Closing, PeriodStatus::Closed) => { assert(w.text().len() != v.text().len()); },
            (PeriodStatus::Closing, PeriodStatus::Locked) => { assert(w.text().len() != v.text().len()); },
            (PeriodStatus::Closing, PeriodStatus::Adjusting) => { assert(w.text().len() != v.text().len()); },
            (PeriodStatus::Closed, PeriodStatus::Open) => { assert(w.text().len() != v.text().len()); },
            (PeriodStatus::Closed, PeriodStatus::Closing) => { assert(w.text().len() != v.text().len()); },
            (PeriodStatus::Closed, PeriodStatus::Locked) => { assert(w.text()[0] != v.text()[0]); },
            (PeriodStatus::Closed, PeriodStatus::Adjusting) => { assert(w.text().len() != v.text().len()); },
            (PeriodStatus::Locked, PeriodStatus::Open) => { assert(w.text().len() != v.text().len()); },
            (PeriodStatus::Locked, PeriodStatus::Closing) => { assert(w.text().len() != v.text().len()); },
            (PeriodStatus::Locked, PeriodStatus::Closed) => { assert(w.text()[0] != v.text()[0]); },
            (PeriodStatus::Locked, PeriodStatus::Adjusting) => { assert(w.text().len() != v.text().len()); },
            (PeriodStatus::Adjusting, PeriodStatus::Open) => { assert(w.text().len() != v.text().len()); },
            (PeriodStatus::Adjusting, PeriodStatus::Closing) => { assert(w.text().len() != v.text().len()); },
            (PeriodStatus::Adjusting, PeriodStatus::Closed) => { assert(w.text().len() != v.text().len()); },
            (PeriodStatus::Adjusting, PeriodStatus::Locked) => { assert(w.text().len() != v.text().len()); },
            _ => {},
        }
    }
}

} // verus!
