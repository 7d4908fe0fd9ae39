//! The kind of a journal.

use crate::text::{lower_text, lowercase, str_eq, string_from};
use vstd::prelude::*;

verus! {

/// The kind of a journal.
#[derive(Debug, Clone, Copy, PartialEq, Eq, Structural, Hash)]
pub enum JournalType {
    General,
    Sales,
    Purchase,
    CashReceipt,
    CashDisbursement,
    Payroll,
    Adjusting,
    Closing,
    Reversing,
    Opening,
}

impl JournalType {
    /// The snake_case label of the variant.
    pub open spec fn text(&self) -> Seq<char> {
        match self {
            JournalType::General => seq!['g', 'e', 'n', 'e', 'r', 'a', 'l'],
            JournalType::Sales => seq!['s', 'a', 'l', 'e', 's'],
            JournalType::Purchase => seq!['p', 'u', 'r', 'c', 'h', 'a', 's', 'e'],
            JournalType::CashReceipt => seq!['c', 'a', 's', 'h', '_', 'r', 'e', 'c', 'e', 'i', 'p', 't'],
            JournalType::CashDisbursement => seq!['c', 'a', 's', 'h', '_', 'd', 'i', 's', 'b', 'u', 'r', 's', 'e', 'm', 'e', 'n', 't'],
            JournalType::Payroll => seq!['p', 'a', 'y', 'r', 'o', 'l', 'l'],
            JournalType::Adjusting => seq!['a', 'd', 'j', 'u', 's', 't', 'i', 'n', 'g'],
            JournalType::Closing => seq!['c', 'l', 'o', 's', 'i', 'n', 'g'],
            JournalType::Reversing => seq!['r', 'e', 'v', 'e', 'r', 's', 'i', 'n', 'g'],
            JournalType::Opening => seq!['o', 'p', 'e', 'n', 'i', 'n', 'g'],
        }
    }

    /// The snake_case label of the variant.
    pub fn as_str(&self) -> (r: &'static str)
        ensures
            r@ == self.text(),
    {
        match self {
            JournalType::General => {
                proof {
                    reveal_strlit("general");
                }
                "general"
            },
            JournalType::Sales => {
                proof {
                    reveal_strlit("sales");
                }
                "sales"
            },
            JournalType::Purchase => {
                proof {
                    reveal_strlit("purchase");
                }
                "purchase"
            },
            JournalType::CashReceipt => {
                proof {
                    reveal_strlit("cash_receipt");
                }
                "cash_receipt"
            },
            JournalType::CashDisbursement => {
                proof {
                    reveal_strlit("cash_disbursement");
                }
                "cash_disbursement"
            },
            JournalType::Payroll => {
                proof {
                    reveal_strlit("payroll");
                }
                "payroll"
            },
            JournalType::Adjusting => {
                proof {
                    reveal_strlit("adjusting");
                }
                "adjusting"
            },
            JournalType::Closing => {
                proof {
                    reveal_strlit("closing");
                }
                "closing"
            },
            JournalType::Reversing => {
                proof {
                    reveal_strlit("reversing");
                }
                "reversing"
            },
            JournalType::Opening => {
                proof {
                    reveal_strlit("opening");
                }
                "opening"
            },
        }
    }

    /// The snake_case label of the variant, as a string.
    pub fn to_string(&self) -> (r: String)
        ensures
            r@ == self.text(),
    {
        string_from(self.as_str())
    }

    /// Parse a label, case-insensitively (the input is lowercased first).
    pub fn from_str(s: &str) -> (r: Result<JournalType, String>)
        ensures
            match r {
                Ok(v) => lower_text(s@) == v.text(),
                Err(e) => (forall|v: JournalType| lower_text(s@) != #[trigger] v.text()) && e@
                    == "Unknown JournalType variant: "@ + s@,
            },
    {
        let lower = lowercase(s);
        let l = lower.as_str();
        proof {
            reveal_strlit("general");
        }
        if str_eq(l, "general") {
            return Ok(JournalType::General);
        }
        proof {
            reveal_strlit("sales");
        }
        if str_eq(l, "sales") {
            return Ok(JournalType::Sales);
        }
        proof {
            reveal_strlit("purchase");
        }
        if str_eq(l, "purchase") {
            return Ok(JournalType::Purchase);
        }
        proof {
            reveal_strlit("cash_receipt");
        }
        if str_eq(l, "cash_receipt") {
            return Ok(JournalType::CashReceipt);
        }
        proof {
            reveal_strlit("cash_disbursement");
        }
        if str_eq(l, "cash_disbursement") {
            return Ok(JournalType::CashDisbursement);
        }
        proof {
            reveal_strlit("payroll");
        }
        if str_eq(l, "payroll") {
            return Ok(JournalType::Payroll);
        }
        proof {
            reveal_strlit("adjusting");
        }
        if str_eq(l, "adjusting") {
            return Ok(JournalType::Adjusting);
        }
        proof {
            reveal_strlit("closing");
        }
        if str_eq(l, "closing") {
            return Ok(JournalType::Closing);
        }
        proof {
            reveal_strlit("reversing");
        }
        if str_eq(l, "reversing") {
            return Ok(JournalType::Reversing);
        }
        proof {
            reveal_strlit("opening");
        }
        if str_eq(l, "opening") {
            return Ok(JournalType::Opening);
        }
        proof {
            assert forall|v: JournalType| lower_text(s@) != #[trigger] v.text() by {
                match v {
                    JournalType::General => {
                        reveal_strlit("general");
                        assert("general"@ =~= v.text());
                    },
                    JournalType::Sales => {
                        reveal_strlit("sales");
                        assert("sales"@ =~= v.text());
                    },
                    JournalType::Purchase => {
                        reveal_strlit("purchase");
                        assert("purchase"@ =~= v.text());
                    },
                    JournalType::CashReceipt => {
                        reveal_strlit("cash_receipt");
                        assert("cash_receipt"@ =~= v.text());
                    },
                    JournalType::CashDisbursement => {
                        reveal_strlit("cash_disbursement");
                        assert("cash_disbursement"@ =~= v.text());
                    },
                    JournalType::Payroll => {
                        reveal_strlit("payroll");
                        assert("payroll"@ =~= v.text());
                    },
                    JournalType::Adjusting => {
                        reveal_strlit("adjusting");
                        assert("adjusting"@ =~= v.text());
                    },
                    JournalType::Closing => {
                        reveal_strlit("closing");
                        assert("closing"@ =~= v.text());
                    },
                    JournalType::Reversing => {
                        reveal_strlit("reversing");
                        assert("reversing"@ =~= v.text());
                    },
                    JournalType::Opening => {
                        reveal_strlit("opening");
                        assert("opening"@ =~= v.text());
                    },
                }
            }
        }
        Err(string_from("Unknown JournalType variant: ").concat(s))
    }
}

impl Default for JournalType {
    fn default() -> (r: JournalType)
        ensures
            r == JournalType::General,
    {
        JournalType::General
    }
}

/// Every label is its own lowercase and names one variant only, so parsing
/// the label of a variant gives that variant back.
pub proof fn lemma_journal_type_label_roundtrip(v: JournalType)
    ensures
        lower_text(v.text()) == v.text(),
        forall|w: JournalType| #[trigger] w.text() == v.text() ==> w == v,
{
    crate::text::lemma_lowercase_label(v.text());
    assert forall|w: JournalType| #[trigger] w.text() == v.text() implies w == v by {
        match (v, w) {
            (JournalType::General, JournalType::Sales) => { assert(w.text().len() != v.text().len()); },
            (JournalType::General, JournalType::Purchase) => { assert(w.text().len() != v.text().len()); },
            (JournalType::General, JournalType::CashReceipt) => { assert(w.text().len() != v.text().len()); },
            (JournalType::General, JournalType::CashDisbursement) => { assert(w.text().len() != v.text().len()); },
            (JournalType::General, JournalType::Payroll) => { assert(w.text()[0] != v.text()[0]); },
            (JournalType::General, JournalType::Adjusting) => { assert(w.text().len() != v.text().len()); },
            (JournalType::General, JournalType::Closing) => { assert(w.text()[0] != v.text()[0]); },
            (JournalType::General, JournalType::Reversing) => { assert(w.text().len() != v.text().len()); },
            (JournalType::General, JournalType::Opening) => { assert(w.text()[0] != v.text()[0]); },
            (JournalType::Sales, JournalType::General) => { assert(w.text().len() != v.text().len()); },
            (JournalType::Sales, JournalType::Purchase) => { assert(w.text().len() != v.text().len()); },
            (JournalType::Sales, JournalType::CashReceipt) => { assert(w.text().len() != v.text().len()); },
            (JournalType::Sales, JournalType::CashDisbursement) => { assert(w.text().len() != v.text().len()); },
            (JournalType::Sales, JournalType::Payroll) => { assert(w.text().len() != v.text().len()); },
            (JournalType::Sales, JournalType::Adjusting) => { assert(w.text().len() != v.text().len()); },
            (JournalType::Sales, JournalType::Closing) => { assert(w.text().len() != v.text().len()); },
            (JournalType::Sales, JournalType::Reversing) => { assert(w.text().len() != v.text().len()); },
            (JournalType::Sales, JournalType::Opening) => { assert(w.text().len() != v.text().len()); },
            (JournalType::Purchase, JournalType::General) => { assert(w.text().len() != v.text().len()); },
            (JournalType::Purchase, JournalType::Sales) => { assert(w.text().len() != v.text().len()); },
            (JournalType::Purchase, JournalType::CashReceipt) => { assert(w.text().len() != v.text().len()); },
            (JournalType::Purchase, JournalType::CashDisbursement) => { assert(w.text().len() != v.text().len()); },
            (JournalType::Purchase, JournalType::Payroll) => { assert(w.text().len() != v.text().len()); },
            (JournalType::Purchase, JournalType::Adjusting) => { assert(w.text().len() != v.text().len()); },
            (JournalType::Purchase, JournalType::Closing) => { assert(w.text().len() != v.text().len()); },
            (JournalType::Purchase, JournalType::Reversing) => { assert(w.text().len() != v.text().len()); },
            (JournalType::Purchase, JournalType::Opening) => { assert(w.text().len() != v.text().len()); },
            (JournalType::CashReceipt, JournalType::General) => { assert(w.text().len() != v.text().len()); },
            (JournalType::CashReceipt, JournalType::Sales) => { assert(w.text().len() != v.text().len()); },
            (JournalType::CashReceipt, JournalType::Purchase) => { assert(w.text().len() != v.text().len()); },
            (JournalType::CashReceipt, JournalType::CashDisbursement) => { assert(w.text().len() != v.text().len()); },
            (JournalType::CashReceipt, JournalType::Payroll) => { assert(w.text().len() != v.text().len()); },
            (JournalType::CashReceipt, JournalType::Adjusting) => { assert(w.text().len() != v.text().len()); },
            (JournalType::CashReceipt, JournalType::Closing) => { assert(w.text().len() != v.text().len()); },
            (JournalType::CashReceipt, JournalType::Reversing) => { assert(w.text().len() != v.text().len()); },
            (JournalType::CashReceipt, JournalType::Opening) => { assert(w.text().len() != v.text().len()); },
            (JournalType::CashDisbursement, JournalType::General) => { assert(w.text().len() != v.text().len()); },
            (JournalType::CashDisbursement, JournalType::Sales) => { assert(w.text().len() != v.text().len()); },
            (JournalType::CashDisbursement, JournalType::Purchase) => { assert(w.text().len() != v.text().len()); },
            (JournalType::CashDisbursement, JournalType::CashReceipt) => { assert(w.text().len() != v.text().len()); },
            (JournalType::CashDisbursement, JournalType::Payroll) => { assert(w.text().len() != v.text().len()); },
            (JournalType::CashDisbursement, JournalType::Adjusting) => { assert(w.text().len() != v.text().len()); },
            (JournalType::CashDisbursement, JournalType::Closing) => { assert(w.text().len() != v.text().len()); },
            (JournalType::CashDisbursement, JournalType::Reversing) => { assert(w.text().len() != v.text().len()); },
            (JournalType::CashDisbursement, JournalType::Opening) => { assert(w.text().len() != v.text().len()); },
            (JournalType::Payroll, JournalType::General) => { assert(w.text()[0] != v.text()[0]); },
            (JournalType::Payroll, JournalType::Sales) => { assert(w.text().len() != v.text().len()); },
            (JournalType::Payroll, JournalType::Purchase) => { assert(w.text().len() != v.text().len()); },
            (JournalType::Payroll, JournalType::CashReceipt) => { assert(w.text().len() != v.text().len()); },
            (JournalType::Payroll, JournalType::CashDisbursement) => { assert(w.text().len() != v.text().len()); },
            (JournalType::Payroll, JournalType::Adjusting) => { assert(w.text().len() != v.text().len()); },
            (JournalType::Payroll, JournalType::Closing) => { assert(w.text()[0] != v.text()[0]); },
            (JournalType::Payroll, JournalType::Reversing) => { assert(w.text().len() != v.text().len()); },
            (JournalType::Payroll, JournalType::Opening) => { assert(w.text()[0] != v.text()[0]); },
            (JournalType::Adjusting, JournalType::General) => { assert(w.text().len() != v.text().len()); },
            (JournalType::Adjusting, JournalType::Sales) => { assert(w.text().len() != v.text().len()); },
            (JournalType::Adjusting, JournalType::Purchase) => { assert(w.text().len() != v.text().len()); },
            (JournalType::Adjusting, JournalType::CashReceipt) => { assert(w.text().len() != v.text().len()); },
            (JournalType::Adjusting, JournalType::CashDisbursement) => { assert(w.text().len() != v.text().len()); },
            (JournalType::Adjusting, JournalType::Payroll) => { assert(w.text().len() != v.text().len()); },
            (JournalType::Adjusting, JournalType::Closing) => { assert(w.text().len() != v.text().len()); },
            (JournalType::Adjusting, JournalType::Reversing) => { assert(w.text()[0] != v.text()[0]); },
            (JournalType::Adjusting, JournalType::Opening) => { assert(w.text().len() != v.text().len()); },
            (JournalType::Closing, JournalType::General) => { assert(w.text()[0] != v.text()[0]); },
            (JournalType::Closing, JournalType::Sales) => { assert(w.text().len() != v.text().len()); },
            (JournalType::Closing, JournalType::Purchase) => { assert(w.text().len() != v.text().len()); },
            (JournalType::Closing, JournalType::CashReceipt) => { assert(w.text().len() != v.text().len()); },
            (JournalType::Closing, JournalType::CashDisbursement) => { assert(w.text().len() != v.text().len()); },
            (JournalType::Closing, JournalType::Payroll) => { assert(w.text()[0] != v.text()[0]); },
            (JournalType::Closing, JournalType::Adjusting) => { assert(w.text().len() != v.text().len()); },
            (JournalType::Closing, JournalType::Reversing) => { assert(w.text().len() != v.text().len()); },
            (JournalType::Closing, JournalType::Opening) => { assert(w.text()[0] != v.text()[0]); },
            (JournalType::Reversing, JournalType::General) => { assert(w.text().len() != v.text().len()); },
            (JournalType::Reversing, JournalType::Sales) => { assert(w.text().len() != v.text().len()); },
            (JournalType::Reversing, JournalType::Purchase) => { assert(w.text().len() != v.text().len()); },
            (JournalType::Reversing, JournalType::CashReceipt) => { assert(w.text().len() != v.text().len()); },
            (JournalType::Reversing, JournalType::CashDisbursement) => { assert(w.text().len() != v.text().len()); },
            (JournalType::Reversing, JournalType::Payroll) => { assert(w.text().len() != v.text().len()); },
            (JournalType::Reversing, JournalType::Adjusting) => { assert(w.text()[0] != v.text()[0]); },
            (JournalType::Reversing, JournalType::Closing) => { assert(w.text().len() != v.text().len()); },
            (JournalType::Reversing, JournalType::Opening) => { assert(w.text().len() != v.text().len()); },
            (JournalType::Opening, JournalType::General) => { assert(w.text()[0] != v.text()[0]); },
            (JournalType::Opening, JournalType::Sales) => { assert(w.text().len() != v.text().len()); },
            (JournalType::Opening, JournalType::Purchase) => { assert(w.text().len() != v.text().len()); },
            (JournalType::Opening, JournalType::CashReceipt) => { assert(w.text().len() != v.text().len()); },
            (JournalType::Opening, JournalType::CashDisbursement) => { assert(w.text().len() != v.text().len()); },
            (JournalType::Opening, JournalType::Payroll) => { assert(w.text()[0] != v.text()[0]); },
            (JournalType::Opening, JournalType::Adjusting) => { assert(w.text().len() != v.text().len()); },
            (JournalType::Opening, JournalType::Closing) => { assert(w.text()[0] != v.text()[0]); },
            (JournalType::Opening, JournalType::Reversing) => { assert(w.text().len() != v.text().len()); },
            _ => {},
        }
    }
}

} // verus!
