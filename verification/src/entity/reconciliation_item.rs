//! The reconciliation item record and its builder.
//!
//! Ids are the 128-bit values of uuids; decimals are [`Amount`]s; dates are
//! day numbers (day 1 is 0001-01-01); instants are microseconds since
//! 1970-01-01 UTC; JSON values are held as their JSON text.

use crate::amount::Amount;
use crate::entity::reconciliation_item_status::ReconciliationItemStatus;
use crate::text::string_from;
use vstd::prelude::*;

verus! {

/// A reconciliation item record.
#[derive(Debug, Clone)]
pub struct ReconciliationItem {
    pub id: u128,
    pub reconciliation_id: u128,
    pub provider_id: Option<u128>,
    pub item_number: i32,
    pub source: String,
    pub ledger_id: Option<u128>,
    pub journal_id: Option<u128>,
    pub book_date: Option<i32>,
    pub book_reference: Option<String>,
    pub book_description: Option<String>,
    pub book_debit: Amount,
    pub book_credit: Amount,
    pub statement_date: Option<i32>,
    pub statement_reference: Option<String>,
    pub statement_description: Option<String>,
    pub statement_debit: Amount,
    pub statement_credit: Amount,
    pub status: ReconciliationItemStatus,
    pub matched_with_id: Option<u128>,
    pub match_date: Option<i64>,
    pub match_method: Option<String>,
    pub match_confidence: Option<Amount>,
    pub has_difference: bool,
    pub difference_amount: Amount,
    pub difference_reason: Option<String>,
    pub requires_adjustment: bool,
    pub adjustment_type: Option<String>,
    pub adjustment_journal_id: Option<u128>,
    pub adjusted_at: Option<i64>,
    pub is_written_off: bool,
    pub write_off_reason: Option<String>,
    pub write_off_approved_by: Option<u128>,
    pub is_outstanding: bool,
    pub outstanding_type: Option<String>,
    pub expected_clear_date: Option<i32>,
    pub notes: Option<String>,
    pub data: String,
}

/// Collects the fields of a reconciliation item; `build` checks the required ones and
/// fills in the defaults.
#[derive(Debug, Clone)]
pub struct ReconciliationItemBuilder {
    pub reconciliation_id: Option<u128>,
    pub provider_id: Option<u128>,
    pub item_number: Option<i32>,
    pub source: Option<String>,
    pub ledger_id: Option<u128>,
    pub journal_id: Option<u128>,
    pub book_date: Option<i32>,
    pub book_reference: Option<String>,
    pub book_description: Option<String>,
    pub book_debit: Option<Amount>,
    pub book_credit: Option<Amount>,
    pub statement_date: Option<i32>,
    pub statement_reference: Option<String>,
    pub statement_description: Option<String>,
    pub statement_debit: Option<Amount>,
    pub statement_credit: Option<Amount>,
    pub status: Option<ReconciliationItemStatus>,
    pub matched_with_id: Option<u128>,
    pub match_date: Option<i64>,
    pub match_method: Option<String>,
    pub match_confidence: Option<Amount>,
    pub has_difference: Option<bool>,
    pub difference_amount: Option<Amount>,
    pub difference_reason: Option<String>,
    pub requires_adjustment: Option<bool>,
    pub adjustment_type: Option<String>,
    pub adjustment_journal_id: Option<u128>,
    pub adjusted_at: Option<i64>,
    pub is_written_off: Option<bool>,
    pub write_off_reason: Option<String>,
    pub write_off_approved_by: Option<u128>,
    pub is_outstanding: Option<bool>,
    pub outstanding_type: Option<String>,
    pub expected_clear_date: Option<i32>,
    pub notes: Option<String>,
    pub data: Option<String>,
}

impl ReconciliationItem {
    /// A builder with no field set.
    pub fn builder() -> (r: ReconciliationItemBuilder)
        ensures
            r.reconciliation_id is None,
            r.provider_id is None,
            r.item_number is None,
            r.source is None,
            r.ledger_id is None,
            r.journal_id is None,
            r.book_date is None,
            r.book_reference is None,
            r.book_description is None,
            r.book_debit is None,
            r.book_credit is None,
            r.statement_date is None,
            r.statement_reference is None,
            r.statement_description is None,
            r.statement_debit is None,
            r.statement_credit is None,
            r.status is None,
            r.matched_with_id is None,
            r.match_date is None,
            r.match_method is None,
            r.match_confidence is None,
            r.has_difference is None,
            r.difference_amount is None,
            r.difference_reason is None,
            r.requires_adjustment is None,
            r.adjustment_type is None,
            r.adjustment_journal_id is None,
            r.adjusted_at is None,
            r.is_written_off is None,
            r.write_off_reason is None,
            r.write_off_approved_by is None,
            r.is_outstanding is None,
            r.outstanding_type is None,
            r.expected_clear_date is None,
            r.notes is None,
            r.data is None,
    {
        ReconciliationItemBuilder {
            reconciliation_id: None,
            provider_id: None,
            item_number: None,
            source: None,
            ledger_id: None,
            journal_id: None,
            book_date: None,
            book_reference: None,
            book_description: None,
            book_debit: None,
            book_credit: None,
            statement_date: None,
            statement_reference: None,
            statement_description: None,
            statement_debit: None,
            statement_credit: None,
            status: None,
            matched_with_id: None,
            match_date: None,
            match_method: None,
            match_confidence: None,
            has_difference: None,
            difference_amount: None,
            difference_reason: None,
            requires_adjustment: None,
            adjustment_type: None,
            adjustment_journal_id: None,
            adjusted_at: None,
            is_written_off: None,
            write_off_reason: None,
            write_off_approved_by: None,
            is_outstanding: None,
            outstanding_type: None,
            expected_clear_date: None,
            notes: None,
            data: None,
        }
    }

    /// A reconciliation item from its required fields; every optional field is unset.
    pub fn new(id: u128, reconciliation_id: u128, item_number: i32, source: String, book_debit: Amount, book_credit: Amount, statement_debit: Amount, statement_credit: Amount, status: ReconciliationItemStatus, has_difference: bool, difference_amount: Amount, requires_adjustment: bool, is_written_off: bool, is_outstanding: bool, data: String) -> (r: ReconciliationItem)
        ensures
            r.id == id,
            r.reconciliation_id == reconciliation_id,
            r.provider_id is None,
            r.item_number == item_number,
            r.source == source,
            r.ledger_id is None,
            r.journal_id is None,
            r.book_date is None,
            r.book_reference is None,
            r.book_description is None,
            r.book_debit == book_debit,
            r.book_credit == book_credit,
            r.statement_date is None,
            r.statement_reference is None,
            r.statement_description is None,
            r.statement_debit == statement_debit,
            r.statement_credit == statement_credit,
            r.status == status,
            r.matched_with_id is None,
            r.match_date is None,
            r.match_method is None,
            r.match_confidence is None,
            r.has_difference == has_difference,
            r.difference_amount == difference_amount,
            r.difference_reason is None,
            r.requires_adjustment == requires_adjustment,
            r.adjustment_type is None,
            r.adjustment_journal_id is None,
            r.adjusted_at is None,
            r.is_written_off == is_written_off,
            r.write_off_reason is None,
            r.write_off_approved_by is None,
            r.is_outstanding == is_outstanding,
            r.outstanding_type is None,
            r.expected_clear_date is None,
            r.notes is None,
            r.data == data,
    {
        ReconciliationItem {
            id,
            reconciliation_id,
            provider_id: None,
            item_number,
            source,
            ledger_id: None,
            journal_id: None,
            book_date: None,
            book_reference: None,
            book_description: None,
            book_debit,
            book_credit,
            statement_date: None,
            statement_reference: None,
            statement_description: None,
            statement_debit,
            statement_credit,
            status,
            matched_with_id: None,
            match_date: None,
            match_method: None,
            match_confidence: None,
            has_difference,
            difference_amount,
            difference_reason: None,
            requires_adjustment,
            adjustment_type: None,
            adjustment_journal_id: None,
            adjusted_at: None,
            is_written_off,
            write_off_reason: None,
            write_off_approved_by: None,
            is_outstanding,
            outstanding_type: None,
            expected_clear_date: None,
            notes: None,
            data,
        }
    }
}

impl ReconciliationItemBuilder {
    /// The refusal of the first required field left unset, in order.
    pub open spec fn first_missing(self) -> Option<Seq<char>> {
        if self.reconciliation_id is None {
            Some("reconciliation_id is required"@)
        } else if self.item_number is None {
            Some("item_number is required"@)
        } else if self.source is None {
            Some("source is required"@)
        } else {
            None
        }
    }

    /// Set `reconciliation_id`.
    pub fn reconciliation_id(self, value: u128) -> (r: ReconciliationItemBuilder)
        ensures
            r == (ReconciliationItemBuilder { reconciliation_id: Some(value), ..self }),
    {
        ReconciliationItemBuilder { reconciliation_id: Some(value), ..self }
    }

    /// Set `provider_id`.
    pub fn provider_id(self, value: u128) -> (r: ReconciliationItemBuilder)
        ensures
            r == (ReconciliationItemBuilder { provider_id: Some(value), ..self }),
    {
        ReconciliationItemBuilder { provider_id: Some(value), ..self }
    }

    /// Set `item_number`.
    pub fn item_number(self, value: i32) -> (r: ReconciliationItemBuilder)
        ensures
            r == (ReconciliationItemBuilder { item_number: Some(value), ..self }),
    {
        ReconciliationItemBuilder { item_number: Some(value), ..self }
    }

    /// Set `source`.
    pub fn source(self, value: String) -> (r: ReconciliationItemBuilder)
        ensures
            r == (ReconciliationItemBuilder { source: Some(value), ..self }),
    {
        ReconciliationItemBuilder { source: Some(value), ..self }
    }

    /// Set `ledger_id`.
    pub fn ledger_id(self, value: u128) -> (r: ReconciliationItemBuilder)
        ensures
            r == (ReconciliationItemBuilder { ledger_id: Some(value), ..self }),
    {
        ReconciliationItemBuilder { ledger_id: Some(value), ..self }
    }

    /// Set `journal_id`.
    pub fn journal_id(self, value: u128) -> (r: ReconciliationItemBuilder)
        ensures
            r == (ReconciliationItemBuilder { journal_id: Some(value), ..self }),
    {
        ReconciliationItemBuilder { journal_id: Some(value), ..self }
    }

    /// Set `book_date`.
    pub fn book_date(self, value: i32) -> (r: ReconciliationItemBuilder)
        ensures
            r == (ReconciliationItemBuilder { book_date: Some(value), ..self }),
    {
        ReconciliationItemBuilder { book_date: Some(value), ..self }
    }

    /// Set `book_reference`.
    pub fn book_reference(self, value: String) -> (r: ReconciliationItemBuilder)
        ensures
            r == (ReconciliationItemBuilder { book_reference: Some(value), ..self }),
    {
        ReconciliationItemBuilder { book_reference: Some(value), ..self }
    }

    /// Set `book_description`.
    pub fn book_description(self, value: String) -> (r: ReconciliationItemBuilder)
        ensures
            r == (ReconciliationItemBuilder { book_description: Some(value), ..self }),
    {
        ReconciliationItemBuilder { book_description: Some(value), ..self }
    }

    /// Set `book_debit`.
    pub fn book_debit(self, value: Amount) -> (r: ReconciliationItemBuilder)
        ensures
            r == (ReconciliationItemBuilder { book_debit: Some(value), ..self }),
    {
        ReconciliationItemBuilder { book_debit: Some(value), ..self }
    }

    /// Set `book_credit`.
    pub fn book_credit(self, value: Amount) -> (r: ReconciliationItemBuilder)
        ensures
            r == (ReconciliationItemBuilder { book_credit: Some(value), ..self }),
    {
        ReconciliationItemBuilder { book_credit: Some(value), ..self }
    }

    /// Set `statement_date`.
    pub fn statement_date(self, value: i32) -> (r: ReconciliationItemBuilder)
        ensures
            r == (ReconciliationItemBuilder { statement_date: Some(value), ..self }),
    {
        ReconciliationItemBuilder { statement_date: Some(value), ..self }
    }

    /// Set `statement_reference`.
    pub fn statement_reference(self, value: String) -> (r: ReconciliationItemBuilder)
        ensures
            r == (ReconciliationItemBuilder { statement_reference: Some(value), ..self }),
    {
        ReconciliationItemBuilder { statement_reference: Some(value), ..self }
    }

    /// Set `statement_description`.
    pub fn statement_description(self, value: String) -> (r: ReconciliationItemBuilder)
        ensures
            r == (ReconciliationItemBuilder { statement_description: Some(value), ..self }),
    {
        ReconciliationItemBuilder { statement_description: Some(value), ..self }
    }

    /// Set `statement_debit`.
    pub fn statement_debit(self, value: Amount) -> (r: ReconciliationItemBuilder)
        ensures
            r == (ReconciliationItemBuilder { statement_debit: Some(value), ..self }),
    {
        ReconciliationItemBuilder { statement_debit: Some(value), ..self }
    }

    /// Set `statement_credit`.
    pub fn statement_credit(self, value: Amount) -> (r: ReconciliationItemBuilder)
        ensures
            r == (ReconciliationItemBuilder { statement_credit: Some(value), ..self }),
    {
        ReconciliationItemBuilder { statement_credit: Some(value), ..self }
    }

    /// Set `status`.
    pub fn status(self, value: ReconciliationItemStatus) -> (r: ReconciliationItemBuilder)
        ensures
            r == (ReconciliationItemBuilder { status: Some(value), ..self }),
    {
        ReconciliationItemBuilder { status: Some(value), ..self }
    }

    /// Set `matched_with_id`.
    pub fn matched_with_id(self, value: u128) -> (r: ReconciliationItemBuilder)
        ensures
            r == (ReconciliationItemBuilder { matched_with_id: Some(value), ..self }),
    {
        ReconciliationItemBuilder { matched_with_id: Some(value), ..self }
    }

    /// Set `match_date`.
    pub fn match_date(self, value: i64) -> (r: ReconciliationItemBuilder)
        ensures
            r == (ReconciliationItemBuilder { match_date: Some(value), ..self }),
    {
        ReconciliationItemBuilder { match_date: Some(value), ..self }
    }

    /// Set `match_method`.
    pub fn match_method(self, value: String) -> (r: ReconciliationItemBuilder)
        ensures
            r == (ReconciliationItemBuilder { match_method: Some(value), ..self }),
    {
        ReconciliationItemBuilder { match_method: Some(value), ..self }
    }

    /// Set `match_confidence`.
    pub fn match_confidence(self, value: Amount) -> (r: ReconciliationItemBuilder)
        ensures
            r == (ReconciliationItemBuilder { match_confidence: Some(value), ..self }),
    {
        ReconciliationItemBuilder { match_confidence: Some(value), ..self }
    }

    /// Set `has_difference`.
    pub fn has_difference(self, value: bool) -> (r: ReconciliationItemBuilder)
        ensures
            r == (ReconciliationItemBuilder { has_difference: Some(value), ..self }),
    {
        ReconciliationItemBuilder { has_difference: Some(value), ..self }
    }

    /// Set `difference_amount`.
    pub fn difference_amount(self, value: Amount) -> (r: ReconciliationItemBuilder)
        ensures
            r == (ReconciliationItemBuilder { difference_amount: Some(value), ..self }),
    {
        ReconciliationItemBuilder { difference_amount: Some(value), ..self }
    }

    /// Set `difference_reason`.
    pub fn difference_reason(self, value: String) -> (r: ReconciliationItemBuilder)
        ensures
            r == (ReconciliationItemBuilder { difference_reason: Some(value), ..self }),
    {
        ReconciliationItemBuilder { difference_reason: Some(value), ..self }
    }

    /// Set `requires_adjustment`.
    pub fn requires_adjustment(self, value: bool) -> (r: ReconciliationItemBuilder)
        ensures
            r == (ReconciliationItemBuilder { requires_adjustment: Some(value), ..self }),
    {
        ReconciliationItemBuilder { requires_adjustment: Some(value), ..self }
    }

    /// Set `adjustment_type`.
    pub fn adjustment_type(self, value: String) -> (r: ReconciliationItemBuilder)
        ensures
            r == (ReconciliationItemBuilder { adjustment_type: Some(value), ..self }),
    {
        ReconciliationItemBuilder { adjustment_type: Some(value), ..self }
    }

    /// Set `adjustment_journal_id`.
    pub fn adjustment_journal_id(self, value: u128) -> (r: ReconciliationItemBuilder)
        ensures
            r == (ReconciliationItemBuilder { adjustment_journal_id: Some(value), ..self }),
    {
        ReconciliationItemBuilder { adjustment_journal_id: Some(value), ..self }
    }

    /// Set `adjusted_at`.
    pub fn adjusted_at(self, value: i64) -> (r: ReconciliationItemBuilder)
        ensures
            r == (ReconciliationItemBuilder { adjusted_at: Some(value), ..self }),
    {
        ReconciliationItemBuilder { adjusted_at: Some(value), ..self }
    }

    /// Set `is_written_off`.
    pub fn is_written_off(self, value: bool) -> (r: ReconciliationItemBuilder)
        ensures
            r == (ReconciliationItemBuilder { is_written_off: Some(value), ..self }),
    {
        ReconciliationItemBuilder { is_written_off: Some(value), ..self }
    }

    /// Set `write_off_reason`.
    pub fn write_off_reason(self, value: String) -> (r: ReconciliationItemBuilder)
        ensures
            r == (ReconciliationItemBuilder { write_off_reason: Some(value), ..self }),
    {
        ReconciliationItemBuilder { write_off_reason: Some(value), ..self }
    }

    /// Set `write_off_approved_by`.
    pub fn write_off_approved_by(self, value: u128) -> (r: ReconciliationItemBuilder)
        ensures
            r == (ReconciliationItemBuilder { write_off_approved_by: Some(value), ..self }),
    {
        ReconciliationItemBuilder { write_off_approved_by: Some(value), ..self }
    }

    /// Set `is_outstanding`.
    pub fn is_outstanding(self, value: bool) -> (r: ReconciliationItemBuilder)
        ensures
            r == (ReconciliationItemBuilder { is_outstanding: Some(value), ..self }),
    {
        ReconciliationItemBuilder { is_outstanding: Some(value), ..self }
    }

    /// Set `outstanding_type`.
    pub fn outstanding_type(self, value: String) -> (r: ReconciliationItemBuilder)
        ensures
            r == (ReconciliationItemBuilder { outstanding_type: Some(value), ..self }),
    {
        ReconciliationItemBuilder { outstanding_type: Some(value), ..self }
    }

    /// Set `expected_clear_date`.
    pub fn expected_clear_date(self, value: i32) -> (r: ReconciliationItemBuilder)
        ensures
            r == (ReconciliationItemBuilder { expected_clear_date: Some(value), ..self }),
    {
        ReconciliationItemBuilder { expected_clear_date: Some(value), ..self }
    }

    /// Set `notes`.
    pub fn notes(self, value: String) -> (r: ReconciliationItemBuilder)
        ensures
            r == (ReconciliationItemBuilder { notes: Some(value), ..self }),
    {
        ReconciliationItemBuilder { notes: Some(value), ..self }
    }

    /// Set `data`.
    pub fn data(self, value: String) -> (r: ReconciliationItemBuilder)
        ensures
            r == (ReconciliationItemBuilder { data: Some(value), ..self }),
    {
        ReconciliationItemBuilder { data: Some(value), ..self }
    }

    /// The reconciliation item, with `id` as its id.
    /// Refused as [`Self::first_missing`] says when a required field is
    /// unset; otherwise every unset field takes its default.
    pub fn build(self, id: u128) -> (r: Result<ReconciliationItem, String>)
        ensures
            self.first_missing() matches Some(msg) ==> (r matches Err(m) && m@ == msg),
            self.first_missing() is None ==> (r matches Ok(e) && {
                &&& e.id == id
                &&& e.reconciliation_id == self.reconciliation_id.unwrap()
                &&& e.provider_id == self.provider_id
                &&& e.item_number == self.item_number.unwrap()
                &&& e.source == self.source.unwrap()
                &&& e.ledger_id == self.ledger_id
                &&& e.journal_id == self.journal_id
                &&& e.book_date == self.book_date
                &&& e.book_reference == self.book_reference
                &&& e.book_description == self.book_description
                &&& match self.book_debit { Some(v) => e.book_debit == v, None => e.book_debit == Amount { mantissa: 0, scale: 0 } }
                &&& match self.book_credit { Some(v) => e.book_credit == v, None => e.book_credit == Amount { mantissa: 0, scale: 0 } }
                &&& e.statement_date == self.statement_date
                &&& e.statement_reference == self.statement_reference
                &&& e.statement_description == self.statement_description
                &&& match self.statement_debit { Some(v) => e.statement_debit == v, None => e.statement_debit == Amount { mantissa: 0, scale: 0 } }
                &&& match self.statement_credit { Some(v) => e.statement_credit == v, None => e.statement_credit == Amount { mantissa: 0, scale: 0 } }
                &&& e.status == (match self.status { Some(v) => v, None => ReconciliationItemStatus::Unmatched })
                &&& e.matched_with_id == self.matched_with_id
                &&& e.match_date == self.match_date
                &&& e.match_method == self.match_method
                &&& e.match_confidence == self.match_confidence
                &&& match self.has_difference { Some(v) => e.has_difference == v, None => e.has_difference == false }
                &&& match self.difference_amount { Some(v) => e.difference_amount == v, None => e.difference_amount == Amount { mantissa: 0, scale: 0 } }
                &&& e.difference_reason == self.difference_reason
                &&& match self.requires_adjustment { Some(v) => e.requires_adjustment == v, None => e.requires_adjustment == false }
                &&& e.adjustment_type == self.adjustment_type
                &&& e.adjustment_journal_id == self.adjustment_journal_id
                &&& e.adjusted_at == self.adjusted_at
                &&& match self.is_written_off { Some(v) => e.is_written_off == v, None => e.is_written_off == false }
                &&& e.write_off_reason == self.write_off_reason
                &&& e.write_off_approved_by == self.write_off_approved_by
                &&& match self.is_outstanding { Some(v) => e.is_outstanding == v, None => e.is_outstanding == false }
                &&& e.outstanding_type == self.outstanding_type
                &&& e.expected_clear_date == self.expected_clear_date
                &&& e.notes == self.notes
                &&& match self.data { Some(v) => e.data == v, None => e.data@ == "{}"@ }
            }),
    {
        let reconciliation_id: u128 = match self.reconciliation_id {
            Some(v) => v,
            None => {
                return Err(string_from("reconciliation_id is required"));
            },
        };
        let item_number: i32 = match self.item_number {
            Some(v) => v,
            None => {
                return Err(string_from("item_number is required"));
            },
        };
        let source: String = match self.source {
            Some(v) => v,
            None => {
                return Err(string_from("source is required"));
            },
        };
        Ok(ReconciliationItem {
            id,
            reconciliation_id,
            provider_id: self.provider_id,
            item_number,
            source,
            ledger_id: self.ledger_id,
            journal_id: self.journal_id,
            book_date: self.book_date,
            book_reference: self.book_reference,
            book_description: self.book_description,
            book_debit: match self.book_debit {
                Some(v) => v,
                None => Amount::zero(),
            },
            book_credit: match self.book_credit {
                Some(v) => v,
                None => Amount::zero(),
            },
            statement_date: self.statement_date,
            statement_reference: self.statement_reference,
            statement_description: self.statement_description,
            statement_debit: match self.statement_debit {
                Some(v) => v,
                None => Amount::zero(),
            },
            statement_credit: match self.statement_credit {
                Some(v) => v,
                None => Amount::zero(),
            },
            status: match self.status {
                Some(v) => v,
                None => ReconciliationItemStatus::default(),
            },
            matched_with_id: self.matched_with_id,
            match_date: self.match_date,
            match_method: self.match_method,
            match_confidence: self.match_confidence,
            has_difference: match self.has_difference {
                Some(v) => v,
                None => false,
            },
            difference_amount: match self.difference_amount {
                Some(v) => v,
                None => Amount::zero(),
            },
            difference_reason: self.difference_reason,
            requires_adjustment: match self.requires_adjustment {
                Some(v) => v,
                None => false,
            },
            adjustment_type: self.adjustment_type,
            adjustment_journal_id: self.adjustment_journal_id,
            adjusted_at: self.adjusted_at,
            is_written_off: match self.is_written_off {
                Some(v) => v,
                None => false,
            },
            write_off_reason: self.write_off_reason,
            write_off_approved_by: self.write_off_approved_by,
            is_outstanding: match self.is_outstanding {
                Some(v) => v,
                None => false,
            },
            outstanding_type: self.outstanding_type,
            expected_clear_date: self.expected_clear_date,
            notes: self.notes,
            data: match self.data {
                Some(v) => v,
                None => string_from("{}"),
            },
        })
    }
}

} // verus!
