//! The lifecycle state of a reconciliation.

use crate::text::{lower_text, lowercase, str_eq, string_from};
use vstd::prelude::*;

verus! {

/// The lifecycle state of a reconciliation.
#[derive(Debug, Clone, Copy, PartialEq, Eq, Structural, Hash)]
pub enum ReconciliationStatus {
    InProgress,
    PendingReview,
    Reviewed,
    Completed,
    Cancelled,
}

impl ReconciliationStatus {
    /// The snake_case label of the variant.
    pub open spec fn text(&self) -> Seq<char> {
        match self {
            ReconciliationStatus::InProgress => seq!['i', 'n', '_', 'p', 'r', 'o', 'g', 'r', 'e', 's', 's'],
            ReconciliationStatus::PendingReview => seq!['p', 'e', 'n', 'd', 'i', 'n', 'g', '_', 'r', 'e', 'v', 'i', 'e', 'w'],
            ReconciliationStatus::Reviewed => seq!['r', 'e', 'v', 'i', 'e', 'w', 'e', 'd'],
            ReconciliationStatus::Completed => seq!['c', 'o', 'm', 'p', 'l', 'e', 't', 'e', 'd'],
            ReconciliationStatus::Cancelled => seq!['c', 'a', 'n', 'c', 'e', 'l', 'l', 'e', 'd'],
        }
    }

    /// The snake_case label of the variant.
    pub fn as_str(&self) -> (r: &'static str)
        ensures
            r@ == self.text(),
    {
        match self {
            ReconciliationStatus::InProgress => {
                proof {
                    reveal_strlit("in_progress");
                }
                "in_progress"
            },
            ReconciliationStatus::PendingReview => {
                proof {
                    reveal_strlit("pending_review");
                }
                "pending_review"
            },
            ReconciliationStatus::Reviewed => {
                proof {
                    reveal_strlit("reviewed");
                }
                "reviewed"
            },
            ReconciliationStatus::Completed => {
                proof {
                    reveal_strlit("completed");
                }
                "completed"
            },
            ReconciliationStatus::Cancelled => {
                proof {
                    reveal_strlit("cancelled");
                }
                "cancelled"
            },
        }
    }

    /// The snake_case label of the variant, as a string.
    pub fn to_string(&self) -> (r: String)
        ensures
            r@ == self.text(),
    {
        string_from(self.as_str())
    }

    /// Parse a label, case-insensitively (the input is lowercased first).
    pub fn from_str(s: &str) -> (r: Result<ReconciliationStatus, String>)
        ensures
            match r {
                Ok(v) => lower_text(s@) == v.text(),
                Err(e) => (forall|v: ReconciliationStatus| lower_text(s@) != #[trigger] v.text()) && e@
                    == "Unknown ReconciliationStatus variant: "@ + s@,
            },
    {
        let lower = lowercase(s);
        let l = lower.as_str();
        proof {
            reveal_strlit("in_progress");
        }
        if str_eq(l, "in_progress") {
            return Ok(ReconciliationStatus::InProgress);
        }
        proof {
            reveal_strlit("pending_review");
        }
        if str_eq(l, "pending_review") {
            return Ok(ReconciliationStatus::PendingReview);
        }
        proof {
            reveal_strlit("reviewed");
        }
        if str_eq(l, "reviewed") {
            return Ok(ReconciliationStatus::Reviewed);
        }
        proof {
            reveal_strlit("completed");
        }
        if str_eq(l, "completed") {
            return Ok(ReconciliationStatus::Completed);
        }
        proof {
            reveal_strlit("cancelled");
        }
        if str_eq(l, "cancelled") {
            return Ok(ReconciliationStatus::Cancelled);
        }
        proof {
            assert forall|v: ReconciliationStatus| lower_text(s@) != #[trigger] v.text() by {
                match v {
                    ReconciliationStatus::InProgress => {
                        reveal_strlit("in_progress");
                        assert("in_progress"@ =~= v.text());
                    },
                    ReconciliationStatus::PendingReview => {
                        reveal_strlit("pending_review");
                        assert("pending_review"@ =~= v.text());
                    },
                    ReconciliationStatus::Reviewed => {
                        reveal_strlit("reviewed");
                        assert("reviewed"@ =~= v.text());
                    },
                    ReconciliationStatus::Completed => {
                        reveal_strlit("completed");
                        assert("completed"@ =~= v.text());
                    },
                    ReconciliationStatus::Cancelled => {
                        reveal_strlit("cancelled");
                        assert("cancelled"@ =~= v.text());
                    },
                }
            }
        }
        Err(string_from("Unknown ReconciliationStatus variant: ").concat(s))
    }
}

impl Default for ReconciliationStatus {
    fn default() -> (r: ReconciliationStatus)
        ensures
            r == ReconciliationStatus::InProgress,
    {
        ReconciliationStatus::InProgress
    }
}

/// Every label is its own lowercase and names one variant only, so parsing
/// the label of a variant gives that variant back.
pub proof fn lemma_reconciliation_status_label_roundtrip(v: ReconciliationStatus)
    ensures
        lower_text(v.text()) == v.text(),
        forall|w: ReconciliationStatus| #[trigger] w.text() == v.text() ==> w == v,
{
    crate::text::lemma_lowercase_label(v.text());
    assert forall|w: ReconciliationStatus| #[trigger] w.text() == v.text() implies w == v by {
        match (v, w) {
            (ReconciliationStatus::InProgress, ReconciliationStatus::PendingReview) => { assert(w.text().len() != v.text().len()); },
            (ReconciliationStatus::InProgress, ReconciliationStatus::Reviewed) => { assert(w.text().len() != v.text().len()); },
            (ReconciliationStatus::InProgress, ReconciliationStatus::Completed) => { assert(w.text().len() != v.text().len()); },
            (ReconciliationStatus::InProgress, ReconciliationStatus::Cancelled) => { assert(w.text().len() != v.text().len()); },
            (ReconciliationStatus::PendingReview, ReconciliationStatus::InProgress) => { assert(w.text().len() != v.text().len()); },
            (ReconciliationStatus::PendingReview, ReconciliationStatus::Reviewed) => { assert(w.text().len() != v.text().len()); },
            (ReconciliationStatus::PendingReview, ReconciliationStatus::Completed) => { assert(w.text().len() != v.text().len()); },
            (ReconciliationStatus::PendingReview, ReconciliationStatus::Cancelled) => { assert(w.text().len() != v.text().len()); },
            (ReconciliationStatus::Reviewed, ReconciliationStatus::InProgress) => { assert(w.text().len() != v.text().len()); },
            (ReconciliationStatus::Reviewed, ReconciliationStatus::PendingReview) => { assert(w.text().len() != v.text().len()); },
            (ReconciliationStatus::Reviewed, ReconciliationStatus::Completed) => { assert(w.text().len() != v.text().len()); },
            (ReconciliationStatus::Reviewed, ReconciliationStatus::Cancelled) => { assert(w.text().len() != v.text().len()); },
            (ReconciliationStatus::Completed, ReconciliationStatus::InProgress) => { assert(w.text().len() != v.text().len()); },
            (ReconciliationStatus::Completed, ReconciliationStatus::PendingReview) => { assert(w.text().len() != v.text().len()); },
            (ReconciliationStatus::Completed, ReconciliationStatus::Reviewed) => { assert(w.text().len() != v.text().len()); },
            (ReconciliationStatus::Completed, ReconciliationStatus::Cancelled) => { assert(w.text()[1] != v.text()[1]); },
            (ReconciliationStatus::Cancelled, ReconciliationStatus::InProgress) => { assert(w.text().len() != v.text().len()); },
            (ReconciliationStatus::Cancelled, ReconciliationStatus::PendingReview) => { assert(w.text().len() != v.text().len()); },
            (ReconciliationStatus::Cancelled, ReconciliationStatus::Reviewed) => { assert(w.text().len() != v.text().len()); },
            (ReconciliationStatus::Cancelled, ReconciliationStatus::Completed) => { assert(w.text()[1] != v.text()[1]); },
            _ => {},
        }
    }
}

} // verus!
