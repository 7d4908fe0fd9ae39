//! The lifecycle state of a journal.

use crate::text::{lower_text, lowercase, str_eq, string_from};
use vstd::prelude::*;

verus! {

/// The lifecycle state of a journal.
#[derive(Debug, Clone, Copy, PartialEq, Eq, Structural, Hash)]
pub enum JournalStatus {
    Draft,
    PendingApproval,
    Approved,
    Rejected,
    Posted,
    Voided,
}

impl JournalStatus {
    /// The snake_case label of the variant.
    pub open spec fn text(&self) -> Seq<char> {
        match self {
            JournalStatus::Draft => seq!['d', 'r', 'a', 'f', 't'],
            JournalStatus::PendingApproval => seq!['p', 'e', 'n', 'd', 'i', 'n', 'g', '_', 'a', 'p', 'p', 'r', 'o', 'v', 'a', 'l'],
            JournalStatus::Approved => seq!['a', 'p', 'p', 'r', 'o', 'v', 'e', 'd'],
            JournalStatus::Rejected => seq!['r', 'e', 'j', 'e', 'c', 't', 'e', 'd'],
            JournalStatus::Posted => seq!['p', 'o', 's', 't', 'e', 'd'],
            JournalStatus::Voided => seq!['v', 'o', 'i', 'd', 'e', 'd'],
        }
    }

    /// The snake_case label of the variant.
    pub fn as_str(&self) -> (r: &'static str)
        ensures
            r@ == self.text(),
    {
        match self {
            JournalStatus::Draft => {
                proof {
                    reveal_strlit("draft");
                }
                "draft"
            },
            JournalStatus::PendingApproval => {
                proof {
                    reveal_strlit("pending_approval");
                }
                "pending_approval"
            },
            JournalStatus::Approved => {
                proof {
                    reveal_strlit("approved");
                }
                "approved"
            },
            JournalStatus::Rejected => {
                proof {
                    reveal_strlit("rejected");
                }
                "rejected"
            },
            JournalStatus::Posted => {
                proof {
                    reveal_strlit("posted");
                }
                "posted"
            },
            JournalStatus::Voided => {
                proof {
                    reveal_strlit("voided");
                }
                "voided"
            },
        }
    }

    /// The snake_case label of the variant, as a string.
    pub fn to_string(&self) -> (r: String)
        ensures
            r@ == self.text(),
    {
        string_from(self.as_str())
    }

    /// Parse a label, case-insensitively (the input is lowercased first).
    pub fn from_str(s: &str) -> (r: Result<JournalStatus, String>)
        ensures
            match r {
                Ok(v) => lower_text(s@) == v.text(),
                Err(e) => (forall|v: JournalStatus| lower_text(s@) != #[trigger] v.text()) && e@
                    == "Unknown JournalStatus variant: "@ + s@,
            },
    {
        let lower = lowercase(s);
        let l = lower.as_str();
        proof {
            reveal_strlit("draft");
        }
        if str_eq(l, "draft") {
            return Ok(JournalStatus::Draft);
        }
        proof {
            reveal_strlit("pending_approval");
        }
        if str_eq(l, "pending_approval") {
            return Ok(JournalStatus::PendingApproval);
        }
        proof {
            reveal_strlit("approved");
        }
        if str_eq(l, "approved") {
            return Ok(JournalStatus::Approved);
        }
        proof {
            reveal_strlit("rejected");
        }
        if str_eq(l, "rejected") {
            return Ok(JournalStatus::Rejected);
        }
        proof {
            reveal_strlit("posted");
        }
        if str_eq(l, "posted") {
            return Ok(JournalStatus::Posted);
        }
        proof {
            reveal_strlit("voided");
        }
        if str_eq(l, "voided") {
            return Ok(JournalStatus::Voided);
        }
        proof {
            assert forall|v: JournalStatus| lower_text(s@) != #[trigger] v.text() by {
                match v {
                    JournalStatus::Draft => {
                        reveal_strlit("draft");
                        assert("draft"@ =~= v.text());
                    },
                    JournalStatus::PendingApproval => {
                        reveal_strlit("pending_approval");
                        assert("pending_approval"@ =~= v.text());
                    },
                    JournalStatus::Approved => {
                        reveal_strlit("approved");
                        assert("approved"@ =~= v.text());
                    },
                    JournalStatus::Rejected => {
                        reveal_strlit("rejected");
                        assert("rejected"@ =~= v.text());
                    },
                    JournalStatus::Posted => {
                        reveal_strlit("posted");
                        assert("posted"@ =~= v.text());
                    },
                    JournalStatus::Voided => {
                        reveal_strlit("voided");
                        assert("voided"@ =~= v.text());
                    },
                }
            }
        }
        Err(string_from("Unknown JournalStatus variant: ").concat(s))
    }
}

impl Default for JournalStatus {
    fn default() -> (r: JournalStatus)
        ensures
            r == JournalStatus::Draft,
    {
        JournalStatus::Draft
    }
}

/// Every label is its own lowercase and names one variant only, so parsing
/// the label of a variant gives that variant back.
pub proof fn lemma_journal_status_label_roundtrip(v: JournalStatus)
    ensures
        lower_text(v.text()) == v.text(),
        forall|w: JournalStatus| #[trigger] w.text() == v.text() ==> w == v,
{
    crate::text::lemma_lowercase_label(v.text());
    assert forall|w: JournalStatus| #[trigger] w.text() == v.text() implies w == v by {
        match (v, w) {
            (JournalStatus::Draft, JournalStatus::PendingApproval) => { assert(w.text().len() != v.text().len()); },
            (JournalStatus::Draft, JournalStatus::Approved) => { assert(w.text().len() != v.text().len()); },
            (JournalStatus::Draft, JournalStatus::Rejected) => { assert(w.text().len() != v.text().len()); },
            (JournalStatus::Draft, JournalStatus::Posted) => { assert(w.text().len() != v.text().len()); },
            (JournalStatus::Draft, JournalStatus::Voided) => { assert(w.text().len() != v.text().len()); },
            (JournalStatus::PendingApproval, JournalStatus::Draft) => { assert(w.text().len() != v.text().len()); },
            (JournalStatus::PendingApproval, JournalStatus::Approved) => { assert(w.text().len() != v.text().len()); },
            (JournalStatus::PendingApproval, JournalStatus::Rejected) => { assert(w.text().len() != v.text().len()); },
            (JournalStatus::PendingApproval, JournalStatus::Posted) => { assert(w.text().len() != v.text().len()); },
            (JournalStatus::PendingApproval, JournalStatus::Voided) => { assert(w.text().len() != v.text().len()); },
            (JournalStatus::Approved, JournalStatus::Draft) => { assert(w.text().len() != v.text().len()); },
            (JournalStatus::Approved, JournalStatus::PendingApproval) => { assert(w.text().len() != v.text().len()); },
            (JournalStatus::Approved, JournalStatus::Rejected) => { assert(w.text()[0] != v.text()[0]); },
            (JournalStatus::Approved, JournalStatus::Posted) => { assert(w.text().len() != v.text().len()); },
            (JournalStatus::Approved, JournalStatus::Voided) => { assert(w.text().len() != v.text().len()); },
            (JournalStatus::Rejected, JournalStatus::Draft) => { assert(w.text().len() != v.text().len()); },
            (JournalStatus::Rejected, JournalStatus::PendingApproval) => { assert(w.text().len() != v.text().len()); },
            (JournalStatus::Rejected, JournalStatus::Approved) => { assert(w.text()[0] != v.text()[0]); },
            (JournalStatus::Rejected, JournalStatus::Posted) => { assert(w.text().len() != v.text().len()); },
            (JournalStatus::Rejected, JournalStatus::Voided) => { assert(w.text().len() != v.text().len()); },
            (JournalStatus::Posted, JournalStatus::Draft) => { assert(w.text().len() != v.text().len()); },
            (JournalStatus::Posted, JournalStatus::PendingApproval) => { assert(w.text().len() != v.text().len()); },
            (JournalStatus::Posted, JournalStatus::Approved) => { assert(w.text().len() != v.text().len()); },
            (JournalStatus::Posted, JournalStatus::Rejected) => { assert(w.text().len() != v.text().len()); },
            (JournalStatus::Posted, JournalStatus::Voided) => { assert(w.text()[0] != v.text()[0]); },
            (JournalStatus::Voided, JournalStatus::Draft) => { assert(w.text().len() != v.text().len()); },
            (JournalStatus::Voided, JournalStatus::PendingApproval) => { assert(w.text().len() != v.text().len()); },
            (JournalStatus::Voided, JournalStatus::Approved) => { assert(w.text().len() != v.text().len()); },
            (JournalStatus::Voided, JournalStatus::Rejected) => { assert(w.text().len() != v.text().len()); },
            (JournalStatus::Voided, JournalStatus::Posted) => { assert(w.text()[0] != v.text()[0]); },
            _ => {},
        }
    }
}

} // verus!
