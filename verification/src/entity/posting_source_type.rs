//! The kind of source document behind a posting.

use crate::text::{lower_text, lowercase, str_eq, string_from};
use vstd::prelude::*;

verus! {

/// The kind of source document behind a posting.
#[derive(Debug, Clone, Copy, PartialEq, Eq, Structural, Hash)]
pub enum PostingSourceType {
    Order,
    Payment,
    Settlement,
    Refund,
    Expense,
    Inventory,
    Manual,
}

impl PostingSourceType {
    /// The snake_case label of the variant.
    pub open spec fn text(&self) -> Seq<char> {
        match self {
            PostingSourceType::Order => seq!['o', 'r', 'd', 'e', 'r'],
            PostingSourceType::Payment => seq!['p', 'a', 'y', 'm', 'e', 'n', 't'],
            PostingSourceType::Settlement => seq!['s', 'e', 't', 't', 'l', 'e', 'm', 'e', 'n', 't'],
            PostingSourceType::Refund => seq!['r', 'e', 'f', 'u', 'n', 'd'],
            PostingSourceType::Expense => seq!['e', 'x', 'p', 'e', 'n', 's', 'e'],
            PostingSourceType::Inventory => seq!['i', 'n', 'v', 'e', 'n', 't', 'o', 'r', 'y'],
            PostingSourceType::Manual => seq!['m', 'a', 'n', 'u', 'a', 'l'],
        }
    }

    /// The snake_case label of the variant.
    pub fn as_str(&self) -> (r: &'static str)
        ensures
            r@ == self.text(),
    {
        match self {
            PostingSourceType::Order => {
                proof {
                    reveal_strlit("order");
                }
                "order"
            },
            PostingSourceType::Payment => {
                proof {
                    reveal_strlit("payment");
                }
                "payment"
            },
            PostingSourceType::Settlement => {
                proof {
                    reveal_strlit("settlement");
                }
                "settlement"
            },
            PostingSourceType::Refund => {
                proof {
                    reveal_strlit("refund");
                }
                "refund"
            },
            PostingSourceType::Expense => {
                proof {
                    reveal_strlit("expense");
                }
                "expense"
            },
            PostingSourceType::Inventory => {
                proof {
                    reveal_strlit("inventory");
                }
                "inventory"
            },
            PostingSourceType::Manual => {
                proof {
                    reveal_strlit("manual");
                }
                "manual"
            },
        }
    }

    /// The snake_case label of the variant, as a string.
    pub fn to_string(&self) -> (r: String)
        ensures
            r@ == self.text(),
    {
        string_from(self.as_str())
    }

    /// Parse a label, case-insensitively (the input is lowercased first).
    pub fn from_str(s: &str) -> (r: Result<PostingSourceType, String>)
        ensures
            match r {
                Ok(v) => lower_text(s@) == v.text(),
                Err(e) => (forall|v: PostingSourceType| lower_text(s@) != #[trigger] v.text()) && e@
                    == "Unknown PostingSourceType variant: "@ + s@,
            },
    {
        let lower = lowercase(s);
        let l = lower.as_str();
        proof {
            reveal_strlit("order");
        }
        if str_eq(l, "order") {
            return Ok(PostingSourceType::Order);
        }
        proof {
            reveal_strlit("payment");
        }
        if str_eq(l, "payment") {
            return Ok(PostingSourceType::Payment);
        }
        proof {
            reveal_strlit("settlement");
        }
        if str_eq(l, "settlement") {
            return Ok(PostingSourceType::Settlement);
        }
        proof {
            reveal_strlit("refund");
        }
        if str_eq(l, "refund") {
            return Ok(PostingSourceType::Refund);
        }
        proof {
            reveal_strlit("expense");
        }
        if str_eq(l, "expense") {
            return Ok(PostingSourceType::Expense);
        }
        proof {
            reveal_strlit("inventory");
        }
        if str_eq(l, "inventory") {
            return Ok(PostingSourceType::Inventory);
        }
        proof {
            reveal_strlit("manual");
        }
        if str_eq(l, "manual") {
            return Ok(PostingSourceType::Manual);
        }
        proof {
            assert forall|v: PostingSourceType| lower_text(s@) != #[trigger] v.text() by {
                match v {
                    PostingSourceType::Order => {
                        reveal_strlit("order");
                        assert("order"@ =~= v.text());
                    },
                    PostingSourceType::Payment => {
                        reveal_strlit("payment");
                        assert("payment"@ =~= v.text());
                    },
                    PostingSourceType::Settlement => {
                        reveal_strlit("settlement");
                        assert("settlement"@ =~= v.text());
                    },
                    PostingSourceType::Refund => {
                        reveal_strlit("refund");
                        assert("refund"@ =~= v.text());
                    },
                    PostingSourceType::Expense => {
                        reveal_strlit("expense");
                        assert("expense"@ =~= v.text());
                    },
                    PostingSourceType::Inventory => {
                        reveal_strlit("inventory");
                        assert("inventory"@ =~= v.text());
                    },
                    PostingSourceType::Manual => {
                        reveal_strlit("manual");
                        assert("manual"@ =~= v.text());
                    },
                }
            }
        }
        Err(string_from("Unknown PostingSourceType variant: ").concat(s))
    }
}

impl Default for PostingSourceType {
    fn default() -> (r: PostingSourceType)
        ensures
            r == PostingSourceType::Order,
    {
        PostingSourceType::Order
    }
}

/// Every label is its own lowercase and names one variant only, so parsing
/// the label of a variant gives that variant back.
pub proof fn lemma_posting_source_type_label_roundtrip(v: PostingSourceType)
    ensures
        lower_text(v.text()) == v.text(),
        forall|w: PostingSourceType| #[trigger] w.text() == v.text() ==> w == v,
{
    crate::text::lemma_lowercase_label(v.text());
    assert forall|w: PostingSourceType| #[trigger] w.text() == v.text() implies w == v by {
        match (v, w) {
            (PostingSourceType::Order, PostingSourceType::Payment) => { assert(w.text().len() != v.text().len()); },
            (PostingSourceType::Order, PostingSourceType::Settlement) => { assert(w.text().len() != v.text().len()); },
            (PostingSourceType::Order, PostingSourceType::Refund) => { assert(w.text().len() != v.text().len()); },
            (PostingSourceType::Order, PostingSourceType::Expense) => { assert(w.text().len() != v.text().len()); },
            (PostingSourceType::Order, PostingSourceType::Inventory) => { assert(w.text().len() != v.text().len()); },
            (PostingSourceType::Order, PostingSourceType::Manual) => { assert(w.text().len() != v.text().len()); },
            (PostingSourceType::Payment, PostingSourceType::Order) => { assert(w.text().len() != v.text().len()); },
            (PostingSourceType::Payment, PostingSourceType::Settlement) => { assert(w.text().len() != v.text().len()); },
            (PostingSourceType::Payment, PostingSourceType::Refund) => { assert(w.text().len() != v.text().len()); },
            (PostingSourceType::Payment, PostingSourceType::Expense) => { assert(w.text()[0] != v.text()[0]); },
            (PostingSourceType::Payment, PostingSourceType::Inventory) => { assert(w.text().len() != v.text().len()); },
            (PostingSourceType::Payment, PostingSourceType::Manual) => { assert(w.text().len() != v.text().len()); },
            (PostingSourceType::Settlement, PostingSourceType::Order) => { assert(w.text().len() != v.text().len()); },
            (PostingSourceType::Settlement, PostingSourceType::Payment) => { assert(w.text().len() != v.text().len()); },
            (PostingSourceType::Settlement, PostingSourceType::Refund) => { assert(w.text().len() != v.text().len()); },
            (PostingSourceType::Settlement, PostingSourceType::Expense) => { assert(w.text().len() != v.text().len()); },
            (PostingSourceType::Settlement, PostingSourceType::Inventory) => { assert(w.text().len() != v.text().len()); },
            (PostingSourceType::Settlement, PostingSourceType::Manual) => { assert(w.text().len() != v.text().len()); },
            (PostingSourceType::Refund, PostingSourceType::Order) => { assert(w.text().len() != v.text().len()); },
            (PostingSourceType::Refund, PostingSourceType::Payment) => { assert(w.text().len() != v.text().len()); },
            (PostingSourceType::Refund, PostingSourceType::Settlement) => { assert(w.text().len() != v.text().len()); },
            (PostingSourceType::Refund, PostingSourceType::Expense) => { assert(w.text().len() != v.text().len()); },
            (PostingSourceType::Refund, PostingSourceType::Inventory) => { assert(w.text().len() != v.text().len()); },
            (PostingSourceType::Refund, PostingSourceType::Manual) => { assert(w.text()[0] != v.text()[0]); },
            (PostingSourceType::Expense, PostingSourceType::Order) => { assert(w.text().len() != v.text().len()); },
            (PostingSourceType::Expense, PostingSourceType::Payment) => { assert(w.text()[0] != v.text()[0]); },
            (PostingSourceType::Expense, PostingSourceType::Settlement) => { assert(w.text().len() != v.text().len()); },
            (PostingSourceType::Expense, PostingSourceType::Refund) => { assert(w.text().len() != v.text().len()); },
            (PostingSourceType::Expense, PostingSourceType::Inventory) => { assert(w.text().len() != v.text().len()); },
            (PostingSourceType::Expense, PostingSourceType::Manual) => { assert(w.text().len() != v.text().len()); },
            (PostingSourceType::Inventory, PostingSourceType::Order) => { assert(w.text().len() != v.text().len()); },
            (PostingSourceType::Inventory, PostingSourceType::Payment) => { assert(w.text().len() != v.text().len()); },
            (PostingSourceType::Inventory, PostingSourceType::Settlement) => { assert(w.text().len() != v.text().len()); },
            (PostingSourceType::Inventory, PostingSourceType::Refund) => { assert(w.text().len() != v.text().len()); },
            (PostingSourceType::Inventory, PostingSourceType::Expense) => { assert(w.text().len() != v.text().len()); },
            (PostingSourceType::Inventory, PostingSourceType::Manual) => { assert(w.text().len() != v.text().len()); },
            (PostingSourceType::Manual, PostingSourceType::Order) => { assert(w.text().len() != v.text().len()); },
            (PostingSourceType::Manual, PostingSourceType::Payment) => { assert(w.text().len() != v.text().len()); },
            (PostingSourceType::Manual, PostingSourceType::Settlement) => { assert(w.text().len() != v.text().len()); },
            (PostingSourceType::Manual, PostingSourceType::Refund) => { assert(w.text()[0] != v.text()[0]); },
            (PostingSourceType::Manual, PostingSourceType::Expense) => { assert(w.text().len() != v.text().len()); },
            (PostingSourceType::Manual, PostingSourceType::Inventory) => { assert(w.text().len() != v.text().len()); },
            _ => {},
        }
    }
}

} // verus!
