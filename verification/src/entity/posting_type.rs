//! Whether a posting is original or derived.

use crate::text::{lower_text, lowercase, str_eq, string_from};
use vstd::prelude::*;

verus! {

/// Whether a posting is original or derived.
#[derive(Debug, Clone, Copy, PartialEq, Eq, Structural, Hash)]
pub enum PostingType {
    Original,
    Reversal,
    Adjustment,
    Correction,
}

impl PostingType {
    /// The snake_case label of the variant.
    pub open spec fn text(&self) -> Seq<char> {
        match self {
            PostingType::Original => seq!['o', 'r', 'i', 'g', 'i', 'n', 'a', 'l'],
            PostingType::Reversal => seq!['r', 'e', 'v', 'e', 'r', 's', 'a', 'l'],
            PostingType::Adjustment => seq!['a', 'd', 'j', 'u', 's', 't', 'm', 'e', 'n', 't'],
            PostingType::Correction => seq!['c', 'o', 'r', 'r', 'e', 'c', 't', 'i', 'o', 'n'],
        }
    }

    /// The snake_case label of the variant.
    pub fn as_str(&self) -> (r: &'static str)
        ensures
            r@ == self.text(),
    {
        match self {
            PostingType::Original => {
                proof {
                    reveal_strlit("original");
                }
                "original"
            },
            PostingType::Reversal => {
                proof {
                    reveal_strlit("reversal");
                }
                "reversal"
            },
            PostingType::Adjustment => {
                proof {
                    reveal_strlit("adjustment");
                }
                "adjustment"
            },
            PostingType::Correction => {
                proof {
                    reveal_strlit("correction");
                }
                "correction"
            },
        }
    }

    /// The snake_case label of the variant, as a string.
    pub fn to_string(&self) -> (r: String)
        ensures
            r@ == self.text(),
    {
        string_from(self.as_str())
    }

    /// Parse a label, case-insensitively (the input is lowercased first).
    pub fn from_str(s: &str) -> (r: Result<PostingType, String>)
        ensures
            match r {
                Ok(v) => lower_text(s@) == v.text(),
                Err(e) => (forall|v: PostingType| lower_text(s@) != #[trigger] v.text()) && e@
                    == "Unknown PostingType variant: "@ + s@,
            },
    {
        let lower = lowercase(s);
        let l = lower.as_str();
        proof {
            reveal_strlit("original");
        }
        if str_eq(l, "original") {
            return Ok(PostingType::Original);
        }
        proof {
            reveal_strlit("reversal");
        }
        if str_eq(l, "reversal") {
            return Ok(PostingType::Reversal);
        }
        proof {
            reveal_strlit("adjustment");
        }
        if str_eq(l, "adjustment") {
            return Ok(PostingType::Adjustment);
        }
        proof {
            reveal_strlit("correction");
        }
        if str_eq(l, "correction") {
            return Ok(PostingType::Correction);
        }
        proof {
            assert forall|v: PostingType| lower_text(s@) != #[trigger] v.text() by {
                match v {
                    PostingType::Original => {
                        reveal_strlit("original");
                        assert("original"@ =~= v.text());
                    },
                    PostingType::Reversal => {
                        reveal_strlit("reversal");
                        assert("reversal"@ =~= v.text());
                    },
                    PostingType::Adjustment => {
                        reveal_strlit("adjustment");
                        assert("adjustment"@ =~= v.text());
                    },
                    PostingType::Correction => {
                        reveal_strlit("correction");
                        assert("correction"@ =~= v.text());
                    },
                }
            }
        }
        Err(string_from("Unknown PostingType variant: ").concat(s))
    }
}

impl Default for PostingType {
    fn default() -> (r: PostingType)
        ensures
            r == PostingType::Original,
    {
        PostingType::Original
    }
}

/// Every label is its own lowercase and names one variant only, so parsing
/// the label of a variant gives that variant back.
pub proof fn lemma_posting_type_label_roundtrip(v: PostingType)
    ensures
        lower_text(v.text()) == v.text(),
        forall|w: PostingType| #[trigger] w.text() == v.text() ==> w == v,
{
    crate::text::lemma_lowercase_label(v.text());
    assert forall|w: PostingType| #[trigger] w.text() == v.text() implies w == v by {
        match (v, w) {
            (PostingType::Original, PostingType::Reversal) => { assert(w.text()[0] != v.text()[0]); },
            (PostingType::Original, PostingType::Adjustment) => { assert(w.text().len() != v.text().len()); },
            (PostingType::Original, PostingType::Correction) => { assert(w.text().len() != v.text().len()); },
            (PostingType::Reversal, PostingType::Original) => { assert(w.text()[0] != v.text()[0]); },
            (PostingType::Reversal, PostingType::Adjustment) => { assert(w.text().len() != v.text().len()); },
            (PostingType::Reversal, PostingType::Correction) => { assert(w.text().len() != v.text().len()); },
            (PostingType::Adjustment, PostingType::Original) => { assert(w.text().len() != v.text().len()); },
            (PostingType::Adjustment, PostingType::Reversal) => { assert(w.text().len() != v.text().len()); },
            (PostingType::Adjustment, PostingType::Correction) => { assert(w.text()[0] != v.text()[0]); },
            (PostingType::Correction, PostingType::Original) => { assert(w.text().len() != v.text().len()); },
            (PostingType::Correction, PostingType::Reversal) => { assert(w.text().len() != v.text().len()); },
            (PostingType::Correction, PostingType::Adjustment) => { assert(w.text()[0] != v.text()[0]); },
            _ => {},
        }
    }
}

} // verus!
