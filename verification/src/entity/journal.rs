//! The journal record and its builder.
//!
//! Ids are the 128-bit values of uuids; decimals are [`Amount`]s; dates are
//! day numbers (day 1 is 0001-01-01); instants are microseconds since
//! 1970-01-01 UTC; JSON values are held as their JSON text.

use crate::amount::Amount;
use crate::entity::journal_source::JournalSource;
use crate::entity::journal_status::JournalStatus;
use crate::entity::journal_type::JournalType;
use crate::text::string_from;
use vstd::prelude::*;

verus! {

/// A journal record.
#[derive(Debug, Clone)]
pub struct Journal {
    pub id: u128,
    pub company_id: u128,
    pub journal_number: String,
    pub reference_number: Option<String>,
    pub journal_type: JournalType,
    pub branch_id: Option<u128>,
    pub transaction_date: i32,
    pub posting_date: Option<i32>,
    pub fiscal_period_id: Option<u128>,
    pub fiscal_year: Option<i32>,
    pub fiscal_month: Option<i32>,
    pub description: String,
    pub notes: Option<String>,
    pub currency: String,
    pub total_debit: Amount,
    pub total_credit: Amount,
    pub line_count: i32,
    pub source: JournalSource,
    pub source_type: Option<String>,
    pub source_id: Option<u128>,
    pub source_reference: Option<String>,
    pub is_reversed: bool,
    pub reversed_by_id: Option<u128>,
    pub reversed_at: Option<i64>,
    pub reversal_reason: Option<String>,
    pub reverses_id: Option<u128>,
    pub is_reversing: bool,
    pub auto_reverse: bool,
    pub auto_reverse_date: Option<i32>,
    pub status: JournalStatus,
    pub requires_approval: bool,
    pub approval_threshold: Option<Amount>,
    pub submitted_at: Option<i64>,
    pub submitted_by: Option<u128>,
    pub approved_at: Option<i64>,
    pub approved_by: Option<u128>,
    pub rejected_at: Option<i64>,
    pub rejected_by: Option<u128>,
    pub rejection_reason: Option<String>,
    pub posted_at: Option<i64>,
    pub posted_by: Option<u128>,
    pub is_voided: bool,
    pub voided_at: Option<i64>,
    pub voided_by: Option<u128>,
    pub void_reason: Option<String>,
    pub attachments: String,
    /// The audit metadata (creation, update and deletion stamps), as JSON text.
    pub metadata: String,
}

/// Collects the fields of a journal; `build` checks the required ones and
/// fills in the defaults.
#[derive(Debug, Clone)]
pub struct JournalBuilder {
    pub company_id: Option<u128>,
    pub journal_number: Option<String>,
    pub reference_number: Option<String>,
    pub journal_type: Option<JournalType>,
    pub branch_id: Option<u128>,
    pub transaction_date: Option<i32>,
    pub posting_date: Option<i32>,
    pub fiscal_period_id: Option<u128>,
    pub fiscal_year: Option<i32>,
    pub fiscal_month: Option<i32>,
    pub description: Option<String>,
    pub notes: Option<String>,
    pub currency: Option<String>,
    pub total_debit: Option<Amount>,
    pub total_credit: Option<Amount>,
    pub line_count: Option<i32>,
    pub source: Option<JournalSource>,
    pub source_type: Option<String>,
    pub source_id: Option<u128>,
    pub source_reference: Option<String>,
    pub is_reversed: Option<bool>,
    pub reversed_by_id: Option<u128>,
    pub reversed_at: Option<i64>,
    pub reversal_reason: Option<String>,
    pub reverses_id: Option<u128>,
    pub is_reversing: Option<bool>,
    pub auto_reverse: Option<bool>,
    pub auto_reverse_date: Option<i32>,
    pub status: Option<JournalStatus>,
    pub requires_approval: Option<bool>,
    pub approval_threshold: Option<Amount>,
    pub submitted_at: Option<i64>,
    pub submitted_by: Option<u128>,
    pub approved_at: Option<i64>,
    pub approved_by: Option<u128>,
    pub rejected_at: Option<i64>,
    pub rejected_by: Option<u128>,
    pub rejection_reason: Option<String>,
    pub posted_at: Option<i64>,
    pub posted_by: Option<u128>,
    pub is_voided: Option<bool>,
    pub voided_at: Option<i64>,
    pub voided_by: Option<u128>,
    pub void_reason: Option<String>,
    pub attachments: Option<String>,
}

impl Journal {
    /// A builder with no field set.
    pub fn builder() -> (r: JournalBuilder)
        ensures
            r.company_id is None,
            r.journal_number is None,
            r.reference_number is None,
            r.journal_type is None,
            r.branch_id is None,
            r.transaction_date is None,
            r.posting_date is None,
            r.fiscal_period_id is None,
            r.fiscal_year is None,
            r.fiscal_month is None,
            r.description is None,
            r.notes is None,
            r.currency is None,
            r.total_debit is None,
            r.total_credit is None,
            r.line_count is None,
            r.source is None,
            r.source_type is None,
            r.source_id is None,
            r.source_reference is None,
            r.is_reversed is None,
            r.reversed_by_id is None,
            r.reversed_at is None,
            r.reversal_reason is None,
            r.reverses_id is None,
            r.is_reversing is None,
            r.auto_reverse is None,
            r.auto_reverse_date is None,
            r.status is None,
            r.requires_approval is None,
            r.approval_threshold is None,
            r.submitted_at is None,
            r.submitted_by is None,
            r.approved_at is None,
            r.approved_by is None,
            r.rejected_at is None,
            r.rejected_by is None,
            r.rejection_reason is None,
            r.posted_at is None,
            r.posted_by is None,
            r.is_voided is None,
            r.voided_at is None,
            r.voided_by is None,
            r.void_reason is None,
            r.attachments is None,
    {
        JournalBuilder {
            company_id: None,
            journal_number: None,
            reference_number: None,
            journal_type: None,
            branch_id: None,
            transaction_date: None,
            posting_date: None,
            fiscal_period_id: None,
            fiscal_year: None,
            fiscal_month: None,
            description: None,
            notes: None,
            currency: None,
            total_debit: None,
            total_credit: None,
            line_count: None,
            source: None,
            source_type: None,
            source_id: None,
            source_reference: None,
            is_reversed: None,
            reversed_by_id: None,
            reversed_at: None,
            reversal_reason: None,
            reverses_id: None,
            is_reversing: None,
            auto_reverse: None,
            auto_reverse_date: None,
            status: None,
            requires_approval: None,
            approval_threshold: None,
            submitted_at: None,
            submitted_by: None,
            approved_at: None,
            approved_by: None,
            rejected_at: None,
            rejected_by: None,
            rejection_reason: None,
            posted_at: None,
            posted_by: None,
            is_voided: None,
            voided_at: None,
            voided_by: None,
            void_reason: None,
            attachments: None,
        }
    }

    /// A journal from its required fields; every optional field is unset.
    pub fn new(id: u128, company_id: u128, journal_number: String, journal_type: JournalType, transaction_date: i32, description: String, currency: String, total_debit: Amount, total_credit: Amount, line_count: i32, source: JournalSource, is_reversed: bool, is_reversing: bool, auto_reverse: bool, status: JournalStatus, requires_approval: bool, is_voided: bool, attachments: String, metadata: String) -> (r: Journal)
        ensures
            r.id == id,
            r.company_id == company_id,
            r.journal_number == journal_number,
            r.reference_number is None,
            r.journal_type == journal_type,
            r.branch_id is None,
            r.transaction_date == transaction_date,
            r.posting_date is None,
            r.fiscal_period_id is None,
            r.fiscal_year is None,
            r.fiscal_month is None,
            r.description == description,
            r.notes is None,
            r.currency == currency,
            r.total_debit == total_debit,
            r.total_credit == total_credit,
            r.line_count == line_count,
            r.source == source,
            r.source_type is None,
            r.source_id is None,
            r.source_reference is None,
            r.is_reversed == is_reversed,
            r.reversed_by_id is None,
            r.reversed_at is None,
            r.reversal_reason is None,
            r.reverses_id is None,
            r.is_reversing == is_reversing,
            r.auto_reverse == auto_reverse,
            r.auto_reverse_date is None,
            r.status == status,
            r.requires_approval == requires_approval,
            r.approval_threshold is None,
            r.submitted_at is None,
            r.submitted_by is None,
            r.approved_at is None,
            r.approved_by is None,
            r.rejected_at is None,
            r.rejected_by is None,
            r.rejection_reason is None,
            r.posted_at is None,
            r.posted_by is None,
            r.is_voided == is_voided,
            r.voided_at is None,
            r.voided_by is None,
            r.void_reason is None,
            r.attachments == attachments,
            r.metadata == metadata,
    {
        Journal {
            id,
            company_id,
            journal_number,
            reference_number: None,
            journal_type,
            branch_id: None,
            transaction_date,
            posting_date: None,
            fiscal_period_id: None,
            fiscal_year: None,
            fiscal_month: None,
            description,
            notes: None,
            currency,
            total_debit,
            total_credit,
            line_count,
            source,
            source_type: None,
            source_id: None,
            source_reference: None,
            is_reversed,
            reversed_by_id: None,
            reversed_at: None,
            reversal_reason: None,
            reverses_id: None,
            is_reversing,
            auto_reverse,
            auto_reverse_date: None,
            status,
            requires_approval,
            approval_threshold: None,
            submitted_at: None,
            submitted_by: None,
            approved_at: None,
            approved_by: None,
            rejected_at: None,
            rejected_by: None,
            rejection_reason: None,
            posted_at: None,
            posted_by: None,
            is_voided,
            voided_at: None,
            voided_by: None,
            void_reason: None,
            attachments,
            metadata,
        }
    }
}

impl JournalBuilder {
    /// The refusal of the first required field left unset, in order.
    pub open spec fn first_missing(self) -> Option<Seq<char>> {
        if self.company_id is None {
            Some("company_id is required"@)
        } else if self.journal_number is None {
            Some("journal_number is required"@)
        } else if self.transaction_date is None {
            Some("transaction_date is required"@)
        } else if self.description is None {
            Some("description is required"@)
        } else {
            None
        }
    }

    /// Set `company_id`.
    pub fn company_id(self, value: u128) -> (r: JournalBuilder)
        ensures
            r == (JournalBuilder { company_id: Some(value), ..self }),
    {
        JournalBuilder { company_id: Some(value), ..self }
    }

    /// Set `journal_number`.
    pub fn journal_number(self, value: String) -> (r: JournalBuilder)
        ensures
            r == (JournalBuilder { journal_number: Some(value), ..self }),
    {
        JournalBuilder { journal_number: Some(value), ..self }
    }

    /// Set `reference_number`.
    pub fn reference_number(self, value: String) -> (r: JournalBuilder)
        ensures
            r == (JournalBuilder { reference_number: Some(value), ..self }),
    {
        JournalBuilder { reference_number: Some(value), ..self }
    }

    /// Set `journal_type`.
    pub fn journal_type(self, value: JournalType) -> (r: JournalBuilder)
        ensures
            r == (JournalBuilder { journal_type: Some(value), ..self }),
    {
        JournalBuilder { journal_type: Some(value), ..self }
    }

    /// Set `branch_id`.
    pub fn branch_id(self, value: u128) -> (r: JournalBuilder)
        ensures
            r == (JournalBuilder { branch_id: Some(value), ..self }),
    {
        JournalBuilder { branch_id: Some(value), ..self }
    }

    /// Set `transaction_date`.
    pub fn transaction_date(self, value: i32) -> (r: JournalBuilder)
        ensures
            r == (JournalBuilder { transaction_date: Some(value), ..self }),
    {
        JournalBuilder { transaction_date: Some(value), ..self }
    }

    /// Set `posting_date`.
    pub fn posting_date(self, value: i32) -> (r: JournalBuilder)
        ensures
            r == (JournalBuilder { posting_date: Some(value), ..self }),
    {
        JournalBuilder { posting_date: Some(value), ..self }
    }

    /// Set `fiscal_period_id`.
    pub fn fiscal_period_id(self, value: u128) -> (r: JournalBuilder)
        ensures
            r == (JournalBuilder { fiscal_period_id: Some(value), ..self }),
    {
        JournalBuilder { fiscal_period_id: Some(value), ..self }
    }

    /// Set `fiscal_year`.
    pub fn fiscal_year(self, value: i32) -> (r: JournalBuilder)
        ensures
            r == (JournalBuilder { fiscal_year: Some(value), ..self }),
    {
        JournalBuilder { fiscal_year: Some(value), ..self }
    }

    /// Set `fiscal_month`.
    pub fn fiscal_month(self, value: i32) -> (r: JournalBuilder)
        ensures
            r == (JournalBuilder { fiscal_month: Some(value), ..self }),
    {
        JournalBuilder { fiscal_month: Some(value), ..self }
    }

    /// Set `description`.
    pub fn description(self, value: String) -> (r: JournalBuilder)
        ensures
            r == (JournalBuilder { description: Some(value), ..self }),
    {
        JournalBuilder { description: Some(value), ..self }
    }

    /// Set `notes`.
    pub fn notes(self, value: String) -> (r: JournalBuilder)
        ensures
            r == (JournalBuilder { notes: Some(value), ..self }),
    {
        JournalBuilder { notes: Some(value), ..self }
    }

    /// Set `currency`.
    pub fn currency(self, value: String) -> (r: JournalBuilder)
        ensures
            r == (JournalBuilder { currency: Some(value), ..self }),
    {
        JournalBuilder { currency: Some(value), ..self }
    }

    /// Set `total_debit`.
    pub fn total_debit(self, value: Amount) -> (r: JournalBuilder)
        ensures
            r == (JournalBuilder { total_debit: Some(value), ..self }),
    {
        JournalBuilder { total_debit: Some(value), ..self }
    }

    /// Set `total_credit`.
    pub fn total_credit(self, value: Amount) -> (r: JournalBuilder)
        ensures
            r == (JournalBuilder { total_credit: Some(value), ..self }),
    {
        JournalBuilder { total_credit: Some(value), ..self }
    }

    /// Set `line_count`.
    pub fn line_count(self, value: i32) -> (r: JournalBuilder)
        ensures
            r == (JournalBuilder { line_count: Some(value), ..self }),
    {
        JournalBuilder { line_count: Some(value), ..self }
    }

    /// Set `source`.
    pub fn source(self, value: JournalSource) -> (r: JournalBuilder)
        ensures
            r == (JournalBuilder { source: Some(value), ..self }),
    {
        JournalBuilder { source: Some(value), ..self }
    }

    /// Set `source_type`.
    pub fn source_type(self, value: String) -> (r: JournalBuilder)
        ensures
            r == (JournalBuilder { source_type: Some(value), ..self }),
    {
        JournalBuilder { source_type: Some(value), ..self }
    }

    /// Set `source_id`.
    pub fn source_id(self, value: u128) -> (r: JournalBuilder)
        ensures
            r == (JournalBuilder { source_id: Some(value), ..self }),
    {
        JournalBuilder { source_id: Some(value), ..self }
    }

    /// Set `source_reference`.
    pub fn source_reference(self, value: String) -> (r: JournalBuilder)
        ensures
            r == (JournalBuilder { source_reference: Some(value), ..self }),
    {
        JournalBuilder { source_reference: Some(value), ..self }
    }

    /// Set `is_reversed`.
    pub fn is_reversed(self, value: bool) -> (r: JournalBuilder)
        ensures
            r == (JournalBuilder { is_reversed: Some(value), ..self }),
    {
        JournalBuilder { is_reversed: Some(value), ..self }
    }

    /// Set `reversed_by_id`.
    pub fn reversed_by_id(self, value: u128) -> (r: JournalBuilder)
        ensures
            r == (JournalBuilder { reversed_by_id: Some(value), ..self }),
    {
        JournalBuilder { reversed_by_id: Some(value), ..self }
    }

    /// Set `reversed_at`.
    pub fn reversed_at(self, value: i64) -> (r: JournalBuilder)
        ensures
            r == (JournalBuilder { reversed_at: Some(value), ..self }),
    {
        JournalBuilder { reversed_at: Some(value), ..self }
    }

    /// Set `reversal_reason`.
    pub fn reversal_reason(self, value: String) -> (r: JournalBuilder)
        ensures
            r == (JournalBuilder { reversal_reason: Some(value), ..self }),
    {
        JournalBuilder { reversal_reason: Some(value), ..self }
    }

    /// Set `reverses_id`.
    pub fn reverses_id(self, value: u128) -> (r: JournalBuilder)
        ensures
            r == (JournalBuilder { reverses_id: Some(value), ..self }),
    {
        JournalBuilder { reverses_id: Some(value), ..self }
    }

    /// Set `is_reversing`.
    pub fn is_reversing(self, value: bool) -> (r: JournalBuilder)
        ensures
            r == (JournalBuilder { is_reversing: Some(value), ..self }),
    {
        JournalBuilder { is_reversing: Some(value), ..self }
    }

    /// Set `auto_reverse`.
    pub fn auto_reverse(self, value: bool) -> (r: JournalBuilder)
        ensures
            r == (JournalBuilder { auto_reverse: Some(value), ..self }),
    {
        JournalBuilder { auto_reverse: Some(value), ..self }
    }

    /// Set `auto_reverse_date`.
    pub fn auto_reverse_date(self, value: i32) -> (r: JournalBuilder)
        ensures
            r == (JournalBuilder { auto_reverse_date: Some(value), ..self }),
    {
        JournalBuilder { auto_reverse_date: Some(value), ..self }
    }

    /// Set `status`.
    pub fn status(self, value: JournalStatus) -> (r: JournalBuilder)
        ensures
            r == (JournalBuilder { status: Some(value), ..self }),
    {
        JournalBuilder { status: Some(value), ..self }
    }

    /// Set `requires_approval`.
    pub fn requires_approval(self, value: bool) -> (r: JournalBuilder)
        ensures
            r == (JournalBuilder { requires_approval: Some(value), ..self }),
    {
        JournalBuilder { requires_approval: Some(value), ..self }
    }

    /// Set `approval_threshold`.
    pub fn approval_threshold(self, value: Amount) -> (r: JournalBuilder)
        ensures
            r == (JournalBuilder { approval_threshold: Some(value), ..self }),
    {
        JournalBuilder { approval_threshold: Some(value), ..self }
    }

    /// Set `submitted_at`.
    pub fn submitted_at(self, value: i64) -> (r: JournalBuilder)
        ensures
            r == (JournalBuilder { submitted_at: Some(value), ..self }),
    {
        JournalBuilder { submitted_at: Some(value), ..self }
    }

    /// Set `submitted_by`.
    pub fn submitted_by(self, value: u128) -> (r: JournalBuilder)
        ensures
            r == (JournalBuilder { submitted_by: Some(value), ..self }),
    {
        JournalBuilder { submitted_by: Some(value), ..self }
    }

    /// Set `approved_at`.
    pub fn approved_at(self, value: i64) -> (r: JournalBuilder)
        ensures
            r == (JournalBuilder { approved_at: Some(value), ..self }),
    {
        JournalBuilder { approved_at: Some(value), ..self }
    }

    /// Set `approved_by`.
    pub fn approved_by(self, value: u128) -> (r: JournalBuilder)
        ensures
            r == (JournalBuilder { approved_by: Some(value), ..self }),
    {
        JournalBuilder { approved_by: Some(value), ..self }
    }

    /// Set `rejected_at`.
    pub fn rejected_at(self, value: i64) -> (r: JournalBuilder)
        ensures
            r == (JournalBuilder { rejected_at: Some(value), ..self }),
    {
        JournalBuilder { rejected_at: Some(value), ..self }
    }

    /// Set `rejected_by`.
    pub fn rejected_by(self, value: u128) -> (r: JournalBuilder)
        ensures
            r == (JournalBuilder { rejected_by: Some(value), ..self }),
    {
        JournalBuilder { rejected_by: Some(value), ..self }
    }

    /// Set `rejection_reason`.
    pub fn rejection_reason(self, value: String) -> (r: JournalBuilder)
        ensures
            r == (JournalBuilder { rejection_reason: Some(value), ..self }),
    {
        JournalBuilder { rejection_reason: Some(value), ..self }
    }

    /// Set `posted_at`.
    pub fn posted_at(self, value: i64) -> (r: JournalBuilder)
        ensures
            r == (JournalBuilder { posted_at: Some(value), ..self }),
    {
        JournalBuilder { posted_at: Some(value), ..self }
    }

    /// Set `posted_by`.
    pub fn posted_by(self, value: u128) -> (r: JournalBuilder)
        ensures
            r == (JournalBuilder { posted_by: Some(value), ..self }),
    {
        JournalBuilder { posted_by: Some(value), ..self }
    }

    /// Set `is_voided`.
    pub fn is_voided(self, value: bool) -> (r: JournalBuilder)
        ensures
            r == (JournalBuilder { is_voided: Some(value), ..self }),
    {
        JournalBuilder { is_voided: Some(value), ..self }
    }

    /// Set `voided_at`.
    pub fn voided_at(self, value: i64) -> (r: JournalBuilder)
        ensures
            r == (JournalBuilder { voided_at: Some(value), ..self }),
    {
        JournalBuilder { voided_at: Some(value), ..self }
    }

    /// Set `voided_by`.
    pub fn voided_by(self, value: u128) -> (r: JournalBuilder)
        ensures
            r == (JournalBuilder { voided_by: Some(value), ..self }),
    {
        JournalBuilder { voided_by: Some(value), ..self }
    }

    /// Set `void_reason`.
    pub fn void_reason(self, value: String) -> (r: JournalBuilder)
        ensures
            r == (JournalBuilder { void_reason: Some(value), ..self }),
    {
        JournalBuilder { void_reason: Some(value), ..self }
    }

    /// Set `attachments`.
    pub fn attachments(self, value: String) -> (r: JournalBuilder)
        ensures
            r == (JournalBuilder { attachments: Some(value), ..self }),
    {
        JournalBuilder { attachments: Some(value), ..self }
    }

    /// The journal, with `id` as its id, `metadata` as its starting audit metadata.
    /// Refused as [`Self::first_missing`] says when a required field is
    /// unset; otherwise every unset field takes its default.
    pub fn build(self, id: u128, metadata: String) -> (r: Result<Journal, String>)
        ensures
            self.first_missing() matches Some(msg) ==> (r matches Err(m) && m@ == msg),
            self.first_missing() is None ==> (r matches Ok(e) && {
                &&& e.id == id
                &&& e.company_id == self.company_id.unwrap()
                &&& e.journal_number == self.journal_number.unwrap()
                &&& e.reference_number == self.reference_number
                &&& e.journal_type == (match self.journal_type { Some(v) => v, None => JournalType::General })
                &&& e.branch_id == self.branch_id
                &&& e.transaction_date == self.transaction_date.unwrap()
                &&& e.posting_date == self.posting_date
                &&& e.fiscal_period_id == self.fiscal_period_id
                &&& e.fiscal_year == self.fiscal_year
                &&& e.fiscal_month == self.fiscal_month
                &&& e.description == self.description.unwrap()
                &&& e.notes == self.notes
                &&& match self.currency { Some(v) => e.currency == v, None => e.currency@ == "IDR"@ }
                &&& match self.total_debit { Some(v) => e.total_debit == v, None => e.total_debit == Amount { mantissa: 0, scale: 0 } }
                &&& match self.total_credit { Some(v) => e.total_credit == v, None => e.total_credit == Amount { mantissa: 0, scale: 0 } }
                &&& match self.line_count { Some(v) => e.line_count == v, None => e.line_count == 0 }
                &&& e.source == (match self.source { Some(v) => v, None => JournalSource::Manual })
                &&& e.source_type == self.source_type
                &&& e.source_id == self.source_id
                &&& e.source_reference == self.source_reference
                &&& match self.is_reversed { Some(v) => e.is_reversed == v, None => e.is_reversed == false }
                &&& e.reversed_by_id == self.reversed_by_id
                &&& e.reversed_at == self.reversed_at
                &&& e.reversal_reason == self.reversal_reason
                &&& e.reverses_id == self.reverses_id
                &&& match self.is_reversing { Some(v) => e.is_reversing == v, None => e.is_reversing == false }
                &&& match self.auto_reverse { Some(v) => e.auto_reverse == v, None => e.auto_reverse == false }
                &&& e.auto_reverse_date == self.auto_reverse_date
                &&& e.status == (match self.status { Some(v) => v, None => JournalStatus::Draft })
                &&& match self.requires_approval { Some(v) => e.requires_approval == v, None => e.requires_approval == false }
                &&& e.approval_threshold == self.approval_threshold
                &&& e.submitted_at == self.submitted_at
                &&& e.submitted_by == self.submitted_by
                &&& e.approved_at == self.approved_at
                &&& e.approved_by == self.approved_by
                &&& e.rejected_at == self.rejected_at
                &&& e.rejected_by == self.rejected_by
                &&& e.rejection_reason == self.rejection_reason
                &&& e.posted_at == self.posted_at
                &&& e.posted_by == self.posted_by
                &&& match self.is_voided { Some(v) => e.is_voided == v, None => e.is_voided == false }
                &&& e.voided_at == self.voided_at
                &&& e.voided_by == self.voided_by
                &&& e.void_reason == self.void_reason
                &&& match self.attachments { Some(v) => e.attachments == v, None => e.attachments@ == "[]"@ }
                &&& e.metadata == metadata
            }),
    {
        let company_id: u128 = match self.company_id {
            Some(v) => v,
            None => {
                return Err(string_from("company_id is required"));
            },
        };
        let journal_number: String = match self.journal_number {
            Some(v) => v,
            None => {
                return Err(string_from("journal_number is required"));
            },
        };
        let transaction_date: i32 = match self.transaction_date {
            Some(v) => v,
            None => {
                return Err(string_from("transaction_date is required"));
            },
        };
        let description: String = match self.description {
            Some(v) => v,
            None => {
                return Err(string_from("description is required"));
            },
        };
        Ok(Journal {
            id,
            company_id,
            journal_number,
            reference_number: self.reference_number,
            journal_type: match self.journal_type {
                Some(v) => v,
                None => JournalType::default(),
            },
            branch_id: self.branch_id,
            transaction_date,
            posting_date: self.posting_date,
            fiscal_period_id: self.fiscal_period_id,
            fiscal_year: self.fiscal_year,
            fiscal_month: self.fiscal_month,
            description,
            notes: self.notes,
            currency: match self.currency {
                Some(v) => v,
                None => string_from("IDR"),
            },
            total_debit: match self.total_debit {
                Some(v) => v,
                None => Amount::zero(),
            },
            total_credit: match self.total_credit {
                Some(v) => v,
                None => Amount::zero(),
            },
            line_count: match self.line_count {
                Some(v) => v,
                None => 0,
            },
            source: match self.source {
                Some(v) => v,
                None => JournalSource::default(),
            },
            source_type: self.source_type,
            source_id: self.source_id,
            source_reference: self.source_reference,
            is_reversed: match self.is_reversed {
                Some(v) => v,
                None => false,
            },
            reversed_by_id: self.reversed_by_id,
            reversed_at: self.reversed_at,
            reversal_reason: self.reversal_reason,
            reverses_id: self.reverses_id,
            is_reversing: match self.is_reversing {
                Some(v) => v,
                None => false,
            },
            auto_reverse: match self.auto_reverse {
                Some(v) => v,
                None => false,
            },
            auto_reverse_date: self.auto_reverse_date,
            status: match self.status {
                Some(v) => v,
                None => JournalStatus::default(),
            },
            requires_approval: match self.requires_approval {
                Some(v) => v,
                None => false,
            },
            approval_threshold: self.approval_threshold,
            submitted_at: self.submitted_at,
            submitted_by: self.submitted_by,
            approved_at: self.approved_at,
            approved_by: self.approved_by,
            rejected_at: self.rejected_at,
            rejected_by: self.rejected_by,
            rejection_reason: self.rejection_reason,
            posted_at: self.posted_at,
            posted_by: self.posted_by,
            is_voided: match self.is_voided {
                Some(v) => v,
                None => false,
            },
            voided_at: self.voided_at,
            voided_by: self.voided_by,
            void_reason: self.void_reason,
            attachments: match self.attachments {
                Some(v) => v,
                None => string_from("[]"),
            },
            metadata,
        })
    }
}

} // verus!
