//! The lifecycle state of a financial statement.

use crate::text::{lower_text, lowercase, str_eq, string_from};
use vstd::prelude::*;

verus! {

/// The lifecycle state of a financial statement.
#[derive(Debug, Clone, Copy, PartialEq, Eq, Structural, Hash)]
pub enum StatementStatus {
    Draft,
    Generated,
    Reviewed,
    Approved,
    Published,
    Archived,
}

impl StatementStatus {
    /// The snake_case label of the variant.
    pub open spec fn text(&self) -> Seq<char> {
        match self {
            StatementStatus::Draft => seq!['d', 'r', 'a', 'f', 't'],
            StatementStatus::Generated => seq!['g', 'e', 'n', 'e', 'r', 'a', 't', 'e', 'd'],
            StatementStatus::Reviewed => seq!['r', 'e', 'v', 'i', 'e', 'w', 'e', 'd'],
            StatementStatus::Approved => seq!['a', 'p', 'p', 'r', 'o', 'v', 'e', 'd'],
            StatementStatus::Published => seq!['p', 'u', 'b', 'l', 'i', 's', 'h', 'e', 'd'],
            StatementStatus::Archived => seq!['a', 'r', 'c', 'h', 'i', 'v', 'e', 'd'],
        }
    }

    /// The snake_case label of the variant.
    pub fn as_str(&self) -> (r: &'static str)
        ensures
            r@ == self.text(),
    {
        match self {
            StatementStatus::Draft => {
                proof {
                    reveal_strlit("draft");
                }
                "draft"
            },
            StatementStatus::Generated => {
                proof {
                    reveal_strlit("generated");
                }
                "generated"
            },
            StatementStatus::Reviewed => {
                proof {
                    reveal_strlit("reviewed");
                }
                "reviewed"
            },
            StatementStatus::Approved => {
                proof {
                    reveal_strlit("approved");
                }
                "approved"
            },
            StatementStatus::Published => {
                proof {
                    reveal_strlit("published");
                }
                "published"
            },
            StatementStatus::Archived => {
                proof {
                    reveal_strlit("archived");
                }
                "archived"
            },
        }
    }

    /// The snake_case label of the variant, as a string.
    pub fn to_string(&self) -> (r: String)
        ensures
            r@ == self.text(),
    {
        string_from(self.as_str())
    }

    /// Parse a label, case-insensitively (the input is lowercased first).
    pub fn from_str(s: &str) -> (r: Result<StatementStatus, String>)
        ensures
            match r {
                Ok(v) => lower_text(s@) == v.text(),
                Err(e) => (forall|v: StatementStatus| lower_text(s@) != #[trigger] v.text()) && e@
                    == "Unknown StatementStatus variant: "@ + s@,
            },
    {
        let lower = lowercase(s);
        let l = lower.as_str();
        proof {
            reveal_strlit("draft");
        }
        if str_eq(l, "draft") {
            return Ok(StatementStatus::Draft);
        }
        proof {
            reveal_strlit("generated");
        }
        if str_eq(l, "generated") {
            return Ok(StatementStatus::Generated);
        }
        proof {
            reveal_strlit("reviewed");
        }
        if str_eq(l, "reviewed") {
            return Ok(StatementStatus::Reviewed);
        }
        proof {
            reveal_strlit("approved");
        }
        if str_eq(l, "approved") {
            return Ok(StatementStatus::Approved);
        }
        proof {
            reveal_strlit("published");
        }
        if str_eq(l, "published") {
            return Ok(StatementStatus::Published);
        }
        proof {
            reveal_strlit("archived");
        }
        if str_eq(l, "archived") {
            return Ok(StatementStatus::Archived);
        }
        proof {
            assert forall|v: StatementStatus| lower_text(s@) != #[trigger] v.text() by {
                match v {
                    StatementStatus::Draft => {
                        reveal_strlit("draft");
                        assert("draft"@ =~= v.text());
                    },
                    StatementStatus::Generated => {
                        reveal_strlit("generated");
                        assert("generated"@ =~= v.text());
                    },
                    StatementStatus::Reviewed => {
                        reveal_strlit("reviewed");
                        assert("reviewed"@ =~= v.text());
                    },
                    StatementStatus::Approved => {
                        reveal_strlit("approved");
                        assert("approved"@ =~= v.text());
                    },
                    StatementStatus::Published => {
                        reveal_strlit("published");
                        assert("published"@ =~= v.text());
                    },
                    StatementStatus::Archived => {
                        reveal_strlit("archived");
                        assert("archived"@ =~= v.text());
                    },
                }
            }
        }
        Err(string_from("Unknown StatementStatus variant: ").concat(s))
    }
}

impl Default for StatementStatus {
    fn default() -> (r: StatementStatus)
        ensures
            r == StatementStatus::Draft,
    {
        StatementStatus::Draft
    }
}

/// Every label is its own lowercase and names one variant only, so parsing
/// the label of a variant gives that variant back.
pub proof fn lemma_statement_status_label_roundtrip(v: StatementStatus)
    ensures
        lower_text(v.text()) == v.text(),
        forall|w: StatementStatus| #[trigger] w.text() == v.text() ==> w == v,
{
    crate::text::lemma_lowercase_label(v.text());
    assert forall|w: StatementStatus| #[trigger] w.text() == v.text() implies w == v by {
        match (v, w) {
            (StatementStatus::Draft, StatementStatus::Generated) => { assert(w.text().len() != v.text().len()); },
            (StatementStatus::Draft, StatementStatus::Reviewed) => { assert(w.text().len() != v.text().len()); },
            (StatementStatus::Draft, StatementStatus::Approved) => { assert(w.text().len() != v.text().len()); },
            (StatementStatus::Draft, StatementStatus::Published) => { assert(w.text().len() != v.text().len()); },
            (StatementStatus::Draft, StatementStatus::Archived) => { assert(w.text().len() != v.text().len()); },
            (StatementStatus::Generated, StatementStatus::Draft) => { assert(w.text().len() != v.text().len()); },
            (StatementStatus::Generated, StatementStatus::Reviewed) => { assert(w.text().len() != v.text().len()); },
            (StatementStatus::Generated, StatementStatus::Approved) => { assert(w.text().len() != v.text().len()); },
            (StatementStatus::Generated, StatementStatus::Published) => { assert(w.text()[0] != v.text()[0]); },
            (StatementStatus::Generated, StatementStatus::Archived) => { assert(w.text().len() != v.text().len()); },
            (StatementStatus::Reviewed, StatementStatus::Draft) => { assert(w.text().len() != v.text().len()); },
            (StatementStatus::Reviewed, StatementStatus::Generated) => { assert(w.text().len() != v.text().len()); },
            (StatementStatus::Reviewed, StatementStatus::Approved) => { assert(w.text()[0] != v.text()[0]); },
            (StatementStatus::Reviewed, StatementStatus::Published) => { assert(w.text().len() != v.text().len()); },
            (StatementStatus::Reviewed, StatementStatus::Archived) => { assert(w.text()[0] != v.text()[0]); },
            (StatementStatus::Approved, StatementStatus::Draft) => { assert(w.text().len() != v.text().len()); },
            (StatementStatus::Approved, StatementStatus::Generated) => { assert(w.text().len() != v.text().len()); },
            (StatementStatus::Approved, StatementStatus::Reviewed) => { assert(w.text()[0] != v.text()[0]); },
            (StatementStatus::Approved, StatementStatus::Published) => { assert(w.text().len() != v.text().len()); },
            (StatementStatus::Approved, StatementStatus::Archived) => { assert(w.text()[1] != v.text()[1]); },
            (StatementStatus::Published, StatementStatus::Draft) => { assert(w.text().len() != v.text().len()); },
            (StatementStatus::Published, StatementStatus::Generated) => { assert(w.text()[0] != v.text()[0]); },
            (StatementStatus::Published, StatementStatus::Reviewed) => { assert(w.text().len() != v.text().len()); },
            (StatementStatus::Published, StatementStatus::Approved) => { assert(w.text().len() != v.text().len()); },
            (StatementStatus::Published, StatementStatus::Archived) => { assert(w.text().len() != v.text().len()); },
            (StatementStatus::Archived, StatementStatus::Draft) => { assert(w.text().len() != v.text().len()); },
            (StatementStatus::Archived, StatementStatus::Generated) => { assert(w.text().len() != v.text().len()); },
            (StatementStatus::Archived, StatementStatus::Reviewed) => { assert(w.text()[0] != v.text()[0]); },
            (StatementStatus::Archived, StatementStatus::Approved) => { assert(w.text()[1] != v.text()[1]); },
            (StatementStatus::Archived, StatementStatus::Published) => { assert(w.text().len() != v.text().len()); },
            _ => {},
        }
    }
}

} // verus!
