//! Where a journal came from.

use crate::text::{lower_text, lowercase, str_eq, string_from};
use vstd::prelude::*;

verus! {

/// Where a journal came from.
#[derive(Debug, Clone, Copy, PartialEq, Eq, Structural, Hash)]
pub enum JournalSource {
    Manual,
    Order,
    Payment,
    Settlement,
    Adjustment,
    Import,
    System,
    Recurring,
}

impl JournalSource {
    /// The snake_case label of the variant.
    pub open spec fn text(&self) -> Seq<char> {
        match self {
            JournalSource::Manual => seq!['m', 'a', 'n', 'u', 'a', 'l'],
            JournalSource::Order => seq!['o', 'r', 'd', 'e', 'r'],
            JournalSource::Payment => seq!['p', 'a', 'y', 'm', 'e', 'n', 't'],
            JournalSource::Settlement => seq!['s', 'e', 't', 't', 'l', 'e', 'm', 'e', 'n', 't'],
            JournalSource::Adjustment => seq!['a', 'd', 'j', 'u', 's', 't', 'm', 'e', 'n', 't'],
            JournalSource::Import => seq!['i', 'm', 'p', 'o', 'r', 't'],
            JournalSource::System => seq!['s', 'y', 's', 't', 'e', 'm'],
            JournalSource::Recurring => seq!['r', 'e', 'c', 'u', 'r', 'r', 'i', 'n', 'g'],
        }
    }

    /// The snake_case label of the variant.
    pub fn as_str(&self) -> (r: &'static str)
        ensures
            r@ == self.text(),
    {
        match self {
            JournalSource::Manual => {
                proof {
                    reveal_strlit("manual");
                }
                "manual"
            },
            JournalSource::Order => {
                proof {
                    reveal_strlit("order");
                }
                "order"
            },
            JournalSource::Payment => {
                proof {
                    reveal_strlit("payment");
                }
                "payment"
            },
            JournalSource::Settlement => {
                proof {
                    reveal_strlit("settlement");
                }
                "settlement"
            },
            JournalSource::Adjustment => {
                proof {
                    reveal_strlit("adjustment");
                }
                "adjustment"
            },
            JournalSource::Import => {
                proof {
                    reveal_strlit("import");
                }
                "import"
            },
            JournalSource::System => {
                proof {
                    reveal_strlit("system");
                }
                "system"
            },
            JournalSource::Recurring => {
                proof {
                    reveal_strlit("recurring");
                }
                "recurring"
            },
        }
    }

    /// The snake_case label of the variant, as a string.
    pub fn to_string(&self) -> (r: String)
        ensures
            r@ == self.text(),
    {
        string_from(self.as_str())
    }

    /// Parse a label, case-insensitively (the input is lowercased first).
    pub fn from_str(s: &str) -> (r: Result<JournalSource, String>)
        ensures
            match r {
                Ok(v) => lower_text(s@) == v.text(),
                Err(e) => (forall|v: JournalSource| lower_text(s@) != #[trigger] v.text()) && e@
                    == "Unknown JournalSource variant: "@ + s@,
            },
    {
        let lower = lowercase(s);
        let l = lower.as_str();
        proof {
            reveal_strlit("manual");
        }
        if str_eq(l, "manual") {
            return Ok(JournalSource::Manual);
        }
        proof {
            reveal_strlit("order");
        }
        if str_eq(l, "order") {
            return Ok(JournalSource::Order);
        }
        proof {
            reveal_strlit("payment");
        }
        if str_eq(l, "payment") {
            return Ok(JournalSource::Payment);
        }
        proof {
            reveal_strlit("settlement");
        }
        if str_eq(l, "settlement") {
            return Ok(JournalSource::Settlement);
        }
        proof {
            reveal_strlit("adjustment");
        }
        if str_eq(l, "adjustment") {
            return Ok(JournalSource::Adjustment);
        }
        proof {
            reveal_strlit("import");
        }
        if str_eq(l, "import") {
            return Ok(JournalSource::Import);
        }
        proof {
            reveal_strlit("system");
        }
        if str_eq(l, "system") {
            return Ok(JournalSource::System);
        }
        proof {
            reveal_strlit("recurring");
        }
        if str_eq(l, "recurring") {
            return Ok(JournalSource::Recurring);
        }
        proof {
            assert forall|v: JournalSource| lower_text(s@) != #[trigger] v.text() by {
                match v {
                    JournalSource::Manual => {
                        reveal_strlit("manual");
                        assert("manual"@ =~= v.text());
                    },
                    JournalSource::Order => {
                        reveal_strlit("order");
                        assert("order"@ =~= v.text());
                    },
                    JournalSource::Payment => {
                        reveal_strlit("payment");
                        assert("payment"@ =~= v.text());
                    },
                    JournalSource::Settlement => {
                        reveal_strlit("settlement");
                        assert("settlement"@ =~= v.text());
                    },
                    JournalSource::Adjustment => {
                        reveal_strlit("adjustment");
                        assert("adjustment"@ =~= v.text());
                    },
                    JournalSource::Import => {
                        reveal_strlit("import");
                        assert("import"@ =~= v.text());
                    },
                    JournalSource::System => {
                        reveal_strlit("system");
                        assert("system"@ =~= v.text());
                    },
                    JournalSource::Recurring => {
                        reveal_strlit("recurring");
                        assert("recurring"@ =~= v.text());
                    },
                }
            }
        }
        Err(string_from("Unknown JournalSource variant: ").concat(s))
    }
}

impl Default for JournalSource {
    fn default() -> (r: JournalSource)
        ensures
            r == JournalSource::Manual,
    {
        JournalSource::Manual
    }
}

/// Every label is its own lowercase and names one variant only, so parsing
/// the label of a variant gives that variant back.
pub proof fn lemma_journal_source_label_roundtrip(v: JournalSource)
    ensures
        lower_text(v.text()) == v.text(),
        forall|w: JournalSource| #[trigger] w.text() == v.text() ==> w == v,
{
    crate::text::lemma_lowercase_label(v.text());
    assert forall|w: JournalSource| #[trigger] w.text() == v.text() implies w == v by {
        match (v, w) {
            (JournalSource::Manual, JournalSource::Order) => { assert(w.text().len() != v.text().len()); },
            (JournalSource::Manual, JournalSource::Payment) => { assert(w.text().len() != v.text().len()); },
            (JournalSource::Manual, JournalSource::Settlement) => { assert(w.text().len() != v.text().len()); },
            (JournalSource::Manual, JournalSource::Adjustment) => { assert(w.text().len() != v.text().len()); },
            (JournalSource::Manual, JournalSource::Import) => { assert(w.text()[0] != v.text()[0]); },
            (JournalSource::Manual, JournalSource::System) => { assert(w.text()[0] != v.text()[0]); },
            (JournalSource::Manual, JournalSource::Recurring) => { assert(w.text().len() != v.text().len()); },
            (JournalSource::Order, JournalSource::Manual) => { assert(w.text().len() != v.text().len()); },
            (JournalSource::Order, JournalSource::Payment) => { assert(w.text().len() != v.text().len()); },
            (JournalSource::Order, JournalSource::Settlement) => { assert(w.text().len() != v.text().len()); },
            (JournalSource::Order, JournalSource::Adjustment) => { assert(w.text().len() != v.text().len()); },
            (JournalSource::Order, JournalSource::Import) => { assert(w.text().len() != v.text().len()); },
            (JournalSource::Order, JournalSource::System) => { assert(w.text().len() != v.text().len()); },
            (JournalSource::Order, JournalSource::Recurring) => { assert(w.text().len() != v.text().len()); },
            (JournalSource::Payment, JournalSource::Manual) => { assert(w.text().len() != v.text().len()); },
            (JournalSource::Payment, JournalSource::Order) => { assert(w.text().len() != v.text().len()); },
            (JournalSource::Payment, JournalSource::Settlement) => { assert(w.text().len() != v.text().len()); },
            (JournalSource::Payment, JournalSource::Adjustment) => { assert(w.text().len() != v.text().len()); },
            (JournalSource::Payment, JournalSource::Import) => { assert(w.text().len() != v.text().len()); },
            (JournalSource::Payment, JournalSource::System) => { assert(w.text().len() != v.text().len()); },
            (JournalSource::Payment, JournalSource::Recurring) => { assert(w.text().len() != v.text().len()); },
            (JournalSource::Settlement, JournalSource::Manual) => { assert(w.text().len() != v.text().len()); },
            (JournalSource::Settlement, JournalSource::Order) => { assert(w.text().len() != v.text().len()); },
            (JournalSource::Settlement, JournalSource::Payment) => { assert(w.text().len() != v.text().len()); },
            (JournalSource::Settlement, JournalSource::Adjustment) => { assert(w.text()[0] != v.text()[0]); },
            (JournalSource::Settlement, JournalSource::Import) => { assert(w.text().len() != v.text().len()); },
            (JournalSource::Settlement, JournalSource::System) => { assert(w.text().len() != v.text().len()); },
            (JournalSource::Settlement, JournalSource::Recurring) => { assert(w.text().len() != v.text().len()); },
            (JournalSource::Adjustment, JournalSource::Manual) => { assert(w.text().len() != v.text().len()); },
            (JournalSource::Adjustment, JournalSource::Order) => { assert(w.text().len() != v.text().len()); },
            (JournalSource::Adjustment, JournalSource::Payment) => { assert(w.text().len() != v.text().len()); },
            (JournalSource::Adjustment, JournalSource::Settlement) => { assert(w.text()[0] != v.text()[0]); },
            (JournalSource::Adjustment, JournalSource::Import) => { assert(w.text().len() != v.text().len()); },
            (JournalSource::Adjustment, JournalSource::System) => { assert(w.text().len() != v.text().len()); },
            (JournalSource::Adjustment, JournalSource::Recurring) => { assert(w.text().len() != v.text().len()); },
            (JournalSource::Import, JournalSource::Manual) => { assert(w.text()[0] != v.text()[0]); },
            (JournalSource::Import, JournalSource::Order) => { assert(w.text().len() != v.text().len()); },
            (JournalSource::Import, JournalSource::Payment) => { assert(w.text().len() != v.text().len()); },
            (JournalSource::Import, JournalSource::Settlement) => { assert(w.text().len() != v.text().len()); },
            (JournalSource::Import, JournalSource::Adjustment) => { assert(w.text().len() != v.text().len()); },
            (JournalSource::Import, JournalSource::System) => { assert(w.text()[0] != v.text()[0]); },
            (JournalSource::Import, JournalSource::Recurring) => { assert(w.text().len() != v.text().len()); },
            (JournalSource::System, JournalSource::Manual) => { assert(w.text()[0] != v.text()[0]); },
            (JournalSource::System, JournalSource::Order) => { assert(w.text().len() != v.text().len()); },
            (JournalSource::System, JournalSource::Payment) => { assert(w.text().len() != v.text().len()); },
            (JournalSource::System, JournalSource::Settlement) => { assert(w.text().len() != v.text().len()); },
            (JournalSource::System, JournalSource::Adjustment) => { assert(w.text().len() != v.text().len()); },
            (JournalSource::System, JournalSource::Import) => { assert(w.text()[0] != v.text()[0]); },
            (JournalSource::System, JournalSource::Recurring) => { assert(w.text().len() != v.text().len()); },
            (JournalSource::Recurring, JournalSource::Manual) => { assert(w.text().len() != v.text().len()); },
            (JournalSource::Recurring, JournalSource::Order) => { assert(w.text().len() != v.text().len()); },
            (JournalSource::Recurring, JournalSource::Payment) => { assert(w.text().len() != v.text().len()); },
            (JournalSource::Recurring, JournalSource::Settlement) => { assert(w.text().len() != v.text().len()); },
            (JournalSource::Recurring, JournalSource::Adjustment) => { assert(w.text().len() != v.text().len()); },
            (JournalSource::Recurring, JournalSource::Import) => { assert(w.text().len() != v.text().len()); },
            (JournalSource::Recurring, JournalSource::System) => { assert(w.text().len() != v.text().len()); },
            _ => {},
        }
    }
}

} // verus!
