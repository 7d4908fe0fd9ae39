//! The reconciliation record and its builder.
//!
//! Ids are the 128-bit values of uuids; decimals are [`Amount`]s; dates are
//! day numbers (day 1 is 0001-01-01); instants are microseconds since
//! 1970-01-01 UTC; JSON values are held as their JSON text.

use crate::amount::Amount;
use crate::entity::reconciliation_status::ReconciliationStatus;
use crate::entity::reconciliation_type::ReconciliationType;
use crate::text::string_from;
use vstd::prelude::*;

verus! {

/// A reconciliation record.
#[derive(Debug, Clone)]
pub struct Reconciliation {
    pub id: u128,
    pub company_id: u128,
    pub reconciliation_number: String,
    pub account_id: u128,
    pub account_number: String,
    pub account_name: String,
    pub reconciliation_type: ReconciliationType,
    pub period_start: i32,
    pub period_end: i32,
    pub statement_date: i32,
    pub opening_book_balance: Amount,
    pub opening_statement_balance: Amount,
    pub previous_reconciliation_id: Option<u128>,
    pub closing_book_balance: Amount,
    pub closing_statement_balance: Amount,
    pub total_matched_debits: Amount,
    pub total_matched_credits: Amount,
    pub matched_count: i32,
    pub total_unmatched_book_debits: Amount,
    pub total_unmatched_book_credits: Amount,
    pub unmatched_book_count: i32,
    pub total_unmatched_statement_debits: Amount,
    pub total_unmatched_statement_credits: Amount,
    pub unmatched_statement_count: i32,
    pub outstanding_deposits: Amount,
    pub outstanding_checks: Amount,
    pub deposits_in_transit: Amount,
    pub bank_charges: Amount,
    pub bank_interest: Amount,
    pub nsf_checks: Amount,
    pub other_adjustments: Amount,
    pub adjusted_book_balance: Option<Amount>,
    pub adjusted_statement_balance: Option<Amount>,
    pub difference: Amount,
    pub is_balanced: bool,
    pub status: ReconciliationStatus,
    pub started_at: Option<i64>,
    pub started_by: Option<u128>,
    pub completed_at: Option<i64>,
    pub completed_by: Option<u128>,
    pub reviewed_at: Option<i64>,
    pub reviewed_by: Option<u128>,
    pub has_adjusting_entries: bool,
    pub adjusting_journal_ids: String,
    pub statement_source: Option<String>,
    pub statement_file_url: Option<String>,
    pub import_date: Option<i64>,
    pub notes: Option<String>,
    pub discrepancy_notes: Option<String>,
    /// The audit metadata (creation, update and deletion stamps), as JSON text.
    pub metadata: String,
}

/// Collects the fields of a reconciliation; `build` checks the required ones and
/// fills in the defaults.
#[derive(Debug, Clone)]
pub struct ReconciliationBuilder {
    pub company_id: Option<u128>,
    pub reconciliation_number: Option<String>,
    pub account_id: Option<u128>,
    pub account_number: Option<String>,
    pub account_name: Option<String>,
    pub reconciliation_type: Option<ReconciliationType>,
    pub period_start: Option<i32>,
    pub period_end: Option<i32>,
    pub statement_date: Option<i32>,
    pub opening_book_balance: Option<Amount>,
    pub opening_statement_balance: Option<Amount>,
    pub previous_reconciliation_id: Option<u128>,
    pub closing_book_balance: Option<Amount>,
    pub closing_statement_balance: Option<Amount>,
    pub total_matched_debits: Option<Amount>,
    pub total_matched_credits: Option<Amount>,
    pub matched_count: Option<i32>,
    pub total_unmatched_book_debits: Option<Amount>,
    pub total_unmatched_book_credits: Option<Amount>,
    pub unmatched_book_count: Option<i32>,
    pub total_unmatched_statement_debits: Option<Amount>,
    pub total_unmatched_statement_credits: Option<Amount>,
    pub unmatched_statement_count: Option<i32>,
    pub outstanding_deposits: Option<Amount>,
    pub outstanding_checks: Option<Amount>,
    pub deposits_in_transit: Option<Amount>,
    pub bank_charges: Option<Amount>,
    pub bank_interest: Option<Amount>,
    pub nsf_checks: Option<Amount>,
    pub other_adjustments: Option<Amount>,
    pub adjusted_book_balance: Option<Amount>,
    pub adjusted_statement_balance: Option<Amount>,
    pub difference: Option<Amount>,
    pub is_balanced: Option<bool>,
    pub status: Option<ReconciliationStatus>,
    pub started_at: Option<i64>,
    pub started_by: Option<u128>,
    pub completed_at: Option<i64>,
    pub completed_by: Option<u128>,
    pub reviewed_at: Option<i64>,
    pub reviewed_by: Option<u128>,
    pub has_adjusting_entries: Option<bool>,
    pub adjusting_journal_ids: Option<String>,
    pub statement_source: Option<String>,
    pub statement_file_url: Option<String>,
    pub import_date: Option<i64>,
    pub notes: Option<String>,
    pub discrepancy_notes: Option<String>,
}

impl Reconciliation {
    /// A builder with no field set.
    pub fn builder() -> (r: ReconciliationBuilder)
        ensures
            r.company_id is None,
            r.reconciliation_number is None,
            r.account_id is None,
            r.account_number is None,
            r.account_name is None,
            r.reconciliation_type is None,
            r.period_start is None,
            r.period_end is None,
            r.statement_date is None,
            r.opening_book_balance is None,
            r.opening_statement_balance is None,
            r.previous_reconciliation_id is None,
            r.closing_book_balance is None,
            r.closing_statement_balance is None,
            r.total_matched_debits is None,
            r.total_matched_credits is None,
            r.matched_count is None,
            r.total_unmatched_book_debits is None,
            r.total_unmatched_book_credits is None,
            r.unmatched_book_count is None,
            r.total_unmatched_statement_debits is None,
            r.total_unmatched_statement_credits is None,
            r.unmatched_statement_count is None,
            r.outstanding_deposits is None,
            r.outstanding_checks is None,
            r.deposits_in_transit is None,
            r.bank_charges is None,
            r.bank_interest is None,
            r.nsf_checks is None,
            r.other_adjustments is None,
            r.adjusted_book_balance is None,
            r.adjusted_statement_balance is None,
            r.difference is None,
            r.is_balanced is None,
            r.status is None,
            r.started_at is None,
            r.started_by is None,
            r.completed_at is None,
            r.completed_by is None,
            r.reviewed_at is None,
            r.reviewed_by is None,
            r.has_adjusting_entries is None,
            r.adjusting_journal_ids is None,
            r.statement_source is None,
            r.statement_file_url is None,
            r.import_date is None,
            r.notes is None,
            r.discrepancy_notes is None,
    {
        ReconciliationBuilder {
            company_id: None,
            reconciliation_number: None,
            account_id: None,
            account_number: None,
            account_name: None,
            reconciliation_type: None,
            period_start: None,
            period_end: None,
            statement_date: None,
            opening_book_balance: None,
            opening_statement_balance: None,
            previous_reconciliation_id: None,
            closing_book_balance: None,
            closing_statement_balance: None,
            total_matched_debits: None,
            total_matched_credits: None,
            matched_count: None,
            total_unmatched_book_debits: None,
            total_unmatched_book_credits: None,
            unmatched_book_count: None,
            total_unmatched_statement_debits: None,
            total_unmatched_statement_credits: None,
            unmatched_statement_count: None,
            outstanding_deposits: None,
            outstanding_checks: None,
            deposits_in_transit: None,
            bank_charges: None,
            bank_interest: None,
            nsf_checks: None,
            other_adjustments: None,
            adjusted_book_balance: None,
            adjusted_statement_balance: None,
            difference: None,
            is_balanced: None,
            status: None,
            started_at: None,
            started_by: None,
            completed_at: None,
            completed_by: None,
            reviewed_at: None,
            reviewed_by: None,
            has_adjusting_entries: None,
            adjusting_journal_ids: None,
            statement_source: None,
            statement_file_url: None,
            import_date: None,
            notes: None,
            discrepancy_notes: None,
        }
    }

    /// A reconciliation from its required fields; every optional field is unset.
    pub fn new(id: u128, company_id: u128, reconciliation_number: String, account_id: u128, account_number: String, account_name: String, reconciliation_type: ReconciliationType, period_start: i32, period_end: i32, statement_date: i32, opening_book_balance: Amount, opening_statement_balance: Amount, closing_book_balance: Amount, closing_statement_balance: Amount, total_matched_debits: Amount, total_matched_credits: Amount, matched_count: i32, total_unmatched_book_debits: Amount, total_unmatched_book_credits: Amount, unmatched_book_count: i32, total_unmatched_statement_debits: Amount, total_unmatched_statement_credits: Amount, unmatched_statement_count: i32, outstanding_deposits: Amount, outstanding_checks: Amount, deposits_in_transit: Amount, bank_charges: Amount, bank_interest: Amount, nsf_checks: Amount, other_adjustments: Amount, difference: Amount, is_balanced: bool, status: ReconciliationStatus, has_adjusting_entries: bool, adjusting_journal_ids: String, metadata: String) -> (r: Reconciliation)
        ensures
            r.id == id,
            r.company_id == company_id,
            r.reconciliation_number == reconciliation_number,
            r.account_id == account_id,
            r.account_number == account_number,
            r.account_name == account_name,
            r.reconciliation_type == reconciliation_type,
            r.period_start == period_start,
            r.period_end == period_end,
            r.statement_date == statement_date,
            r.opening_book_balance == opening_book_balance,
            r.opening_statement_balance == opening_statement_balance,
            r.previous_reconciliation_id is None,
            r.closing_book_balance == closing_book_balance,
            r.closing_statement_balance == closing_statement_balance,
            r.total_matched_debits == total_matched_debits,
            r.total_matched_credits == total_matched_credits,
            r.matched_count == matched_count,
            r.total_unmatched_book_debits == total_unmatched_book_debits,
            r.total_unmatched_book_credits == total_unmatched_book_credits,
            r.unmatched_book_count == unmatched_book_count,
            r.total_unmatched_statement_debits == total_unmatched_statement_debits,
            r.total_unmatched_statement_credits == total_unmatched_statement_credits,
            r.unmatched_statement_count == unmatched_statement_count,
            r.outstanding_deposits == outstanding_deposits,
            r.outstanding_checks == outstanding_checks,
            r.deposits_in_transit == deposits_in_transit,
            r.bank_charges == bank_charges,
            r.bank_interest == bank_interest,
            r.nsf_checks == nsf_checks,
            r.other_adjustments == other_adjustments,
            r.adjusted_book_balance is None,
            r.adjusted_statement_balance is None,
            r.difference == difference,
            r.is_balanced == is_balanced,
            r.status == status,
            r.started_at is None,
            r.started_by is None,
            r.completed_at is None,
            r.completed_by is None,
            r.reviewed_at is None,
            r.reviewed_by is None,
            r.has_adjusting_entries == has_adjusting_entries,
            r.adjusting_journal_ids == adjusting_journal_ids,
            r.statement_source is None,
            r.statement_file_url is None,
            r.import_date is None,
            r.notes is None,
            r.discrepancy_notes is None,
            r.metadata == metadata,
    {
        Reconciliation {
            id,
            company_id,
            reconciliation_number,
            account_id,
            account_number,
            account_name,
            reconciliation_type,
            period_start,
            period_end,
            statement_date,
            opening_book_balance,
            opening_statement_balance,
            previous_reconciliation_id: None,
            closing_book_balance,
            closing_statement_balance,
            total_matched_debits,
            total_matched_credits,
            matched_count,
            total_unmatched_book_debits,
            total_unmatched_book_credits,
            unmatched_book_count,
            total_unmatched_statement_debits,
            total_unmatched_statement_credits,
            unmatched_statement_count,
            outstanding_deposits,
            outstanding_checks,
            deposits_in_transit,
            bank_charges,
            bank_interest,
            nsf_checks,
            other_adjustments,
            adjusted_book_balance: None,
            adjusted_statement_balance: None,
            difference,
            is_balanced,
            status,
            started_at: None,
            started_by: None,
            completed_at: None,
            completed_by: None,
            reviewed_at: None,
            reviewed_by: None,
            has_adjusting_entries,
            adjusting_journal_ids,
            statement_source: None,
            statement_file_url: None,
            import_date: None,
            notes: None,
            discrepancy_notes: None,
            metadata,
        }
    }
}

impl ReconciliationBuilder {
    /// The refusal of the first required field left unset, in order.
    pub open spec fn first_missing(self) -> Option<Seq<char>> {
        if self.company_id is None {
            Some("company_id is required"@)
        } else if self.reconciliation_number is None {
            Some("reconciliation_number is required"@)
        } else if self.account_id is None {
            Some("account_id is required"@)
        } else if self.account_number is None {
            Some("account_number is required"@)
        } else if self.account_name is None {
            Some("account_name is required"@)
        } else if self.period_start is None {
            Some("period_start is required"@)
        } else if self.period_end is None {
            Some("period_end is required"@)
        } else if self.statement_date is None {
            Some("statement_date is required"@)
        } else if self.opening_book_balance is None {
            Some("opening_book_balance is required"@)
        } else if self.opening_statement_balance is None {
            Some("opening_statement_balance is required"@)
        } else if self.closing_book_balance is None {
            Some("closing_book_balance is required"@)
        } else if self.closing_statement_balance is None {
            Some("closing_statement_balance is required"@)
        } else {
            None
        }
    }

    /// Set `company_id`.
    pub fn company_id(self, value: u128) -> (r: ReconciliationBuilder)
        ensures
            r == (ReconciliationBuilder { company_id: Some(value), ..self }),
    {
        ReconciliationBuilder { company_id: Some(value), ..self }
    }

    /// Set `reconciliation_number`.
    pub fn reconciliation_number(self, value: String) -> (r: ReconciliationBuilder)
        ensures
            r == (ReconciliationBuilder { reconciliation_number: Some(value), ..self }),
    {
        ReconciliationBuilder { reconciliation_number: Some(value), ..self }
    }

    /// Set `account_id`.
    pub fn account_id(self, value: u128) -> (r: ReconciliationBuilder)
        ensures
            r == (ReconciliationBuilder { account_id: Some(value), ..self }),
    {
        ReconciliationBuilder { account_id: Some(value), ..self }
    }

    /// Set `account_number`.
    pub fn account_number(self, value: String) -> (r: ReconciliationBuilder)
        ensures
            r == (ReconciliationBuilder { account_number: Some(value), ..self }),
    {
        ReconciliationBuilder { account_number: Some(value), ..self }
    }

    /// Set `account_name`.
    pub fn account_name(self, value: String) -> (r: ReconciliationBuilder)
        ensures
            r == (ReconciliationBuilder { account_name: Some(value), ..self }),
    {
        ReconciliationBuilder { account_name: Some(value), ..self }
    }

    /// Set `reconciliation_type`.
    pub fn reconciliation_type(self, value: ReconciliationType) -> (r: ReconciliationBuilder)
        ensures
            r == (ReconciliationBuilder { reconciliation_type: Some(value), ..self }),
    {
        ReconciliationBuilder { reconciliation_type: Some(value), ..self }
    }

    /// Set `period_start`.
    pub fn period_start(self, value: i32) -> (r: ReconciliationBuilder)
        ensures
            r == (ReconciliationBuilder { period_start: Some(value), ..self }),
    {
        ReconciliationBuilder { period_start: Some(value), ..self }
    }

    /// Set `period_end`.
    pub fn period_end(self, value: i32) -> (r: ReconciliationBuilder)
        ensures
            r == (ReconciliationBuilder { period_end: Some(value), ..self }),
    {
        ReconciliationBuilder { period_end: Some(value), ..self }
    }

    /// Set `statement_date`.
    pub fn statement_date(self, value: i32) -> (r: ReconciliationBuilder)
        ensures
            r == (ReconciliationBuilder { statement_date: Some(value), ..self }),
    {
        ReconciliationBuilder { statement_date: Some(value), ..self }
    }

    /// Set `opening_book_balance`.
    pub fn opening_book_balance(self, value: Amount) -> (r: ReconciliationBuilder)
        ensures
            r == (ReconciliationBuilder { opening_book_balance: Some(value), ..self }),
    {
        ReconciliationBuilder { opening_book_balance: Some(value), ..self }
    }

    /// Set `opening_statement_balance`.
    pub fn opening_statement_balance(self, value: Amount) -> (r: ReconciliationBuilder)
        ensures
            r == (ReconciliationBuilder { opening_statement_balance: Some(value), ..self }),
    {
        ReconciliationBuilder { opening_statement_balance: Some(value), ..self }
    }

    /// Set `previous_reconciliation_id`.
    pub fn previous_reconciliation_id(self, value: u128) -> (r: ReconciliationBuilder)
        ensures
            r == (ReconciliationBuilder { previous_reconciliation_id: Some(value), ..self }),
    {
        ReconciliationBuilder { previous_reconciliation_id: Some(value), ..self }
    }

    /// Set `closing_book_balance`.
    pub fn closing_book_balance(self, value: Amount) -> (r: ReconciliationBuilder)
        ensures
            r == (ReconciliationBuilder { closing_book_balance: Some(value), ..self }),
    {
        ReconciliationBuilder { closing_book_balance: Some(value), ..self }
    }

    /// Set `closing_statement_balance`.
    pub fn closing_statement_balance(self, value: Amount) -> (r: ReconciliationBuilder)
        ensures
            r == (ReconciliationBuilder { closing_statement_balance: Some(value), ..self }),
    {
        ReconciliationBuilder { closing_statement_balance: Some(value), ..self }
    }

    /// Set `total_matched_debits`.
    pub fn total_matched_debits(self, value: Amount) -> (r: ReconciliationBuilder)
        ensures
            r == (ReconciliationBuilder { total_matched_debits: Some(value), ..self }),
    {
        ReconciliationBuilder { total_matched_debits: Some(value), ..self }
    }

    /// Set `total_matched_credits`.
    pub fn total_matched_credits(self, value: Amount) -> (r: ReconciliationBuilder)
        ensures
            r == (ReconciliationBuilder { total_matched_credits: Some(value), ..self }),
    {
        ReconciliationBuilder { total_matched_credits: Some(value), ..self }
    }

    /// Set `matched_count`.
    pub fn matched_count(self, value: i32) -> (r: ReconciliationBuilder)
        ensures
            r == (ReconciliationBuilder { matched_count: Some(value), ..self }),
    {
        ReconciliationBuilder { matched_count: Some(value), ..self }
    }

    /// Set `total_unmatched_book_debits`.
    pub fn total_unmatched_book_debits(self, value: Amount) -> (r: ReconciliationBuilder)
        ensures
            r == (ReconciliationBuilder { total_unmatched_book_debits: Some(value), ..self }),
    {
        ReconciliationBuilder { total_unmatched_book_debits: Some(value), ..self }
    }

    /// Set `total_unmatched_book_credits`.
    pub fn total_unmatched_book_credits(self, value: Amount) -> (r: ReconciliationBuilder)
        ensures
            r == (ReconciliationBuilder { total_unmatched_book_credits: Some(value), ..self }),
    {
        ReconciliationBuilder { total_unmatched_book_credits: Some(value), ..self }
    }

    /// Set `unmatched_book_count`.
    pub fn unmatched_book_count(self, value: i32) -> (r: ReconciliationBuilder)
        ensures
            r == (ReconciliationBuilder { unmatched_book_count: Some(value), ..self }),
    {
        ReconciliationBuilder { unmatched_book_count: Some(value), ..self }
    }

    /// Set `total_unmatched_statement_debits`.
    pub fn total_unmatched_statement_debits(self, value: Amount) -> (r: ReconciliationBuilder)
        ensures
            r == (ReconciliationBuilder { total_unmatched_statement_debits: Some(value), ..self }),
    {
        ReconciliationBuilder { total_unmatched_statement_debits: Some(value), ..self }
    }

    /// Set `total_unmatched_statement_credits`.
    pub fn total_unmatched_statement_credits(self, value: Amount) -> (r: ReconciliationBuilder)
        ensures
            r == (ReconciliationBuilder { total_unmatched_statement_credits: Some(value), ..self }),
    {
        ReconciliationBuilder { total_unmatched_statement_credits: Some(value), ..self }
    }

    /// Set `unmatched_statement_count`.
    pub fn unmatched_statement_count(self, value: i32) -> (r: ReconciliationBuilder)
        ensures
            r == (ReconciliationBuilder { unmatched_statement_count: Some(value), ..self }),
    {
        ReconciliationBuilder { unmatched_statement_count: Some(value), ..self }
    }

    /// Set `outstanding_deposits`.
    pub fn outstanding_deposits(self, value: Amount) -> (r: ReconciliationBuilder)
        ensures
            r == (ReconciliationBuilder { outstanding_deposits: Some(value), ..self }),
    {
        ReconciliationBuilder { outstanding_deposits: Some(value), ..self }
    }

    /// Set `outstanding_checks`.
    pub fn outstanding_checks(self, value: Amount) -> (r: ReconciliationBuilder)
        ensures
            r == (ReconciliationBuilder { outstanding_checks: Some(value), ..self }),
    {
        ReconciliationBuilder { outstanding_checks: Some(value), ..self }
    }

    /// Set `deposits_in_transit`.
    pub fn deposits_in_transit(self, value: Amount) -> (r: ReconciliationBuilder)
        ensures
            r == (ReconciliationBuilder { deposits_in_transit: Some(value), ..self }),
    {
        ReconciliationBuilder { deposits_in_transit: Some(value), ..self }
    }

    /// Set `bank_charges`.
    pub fn bank_charges(self, value: Amount) -> (r: ReconciliationBuilder)
        ensures
            r == (ReconciliationBuilder { bank_charges: Some(value), ..self }),
    {
        ReconciliationBuilder { bank_charges: Some(value), ..self }
    }

    /// Set `bank_interest`.
    pub fn bank_interest(self, value: Amount) -> (r: ReconciliationBuilder)
        ensures
            r == (ReconciliationBuilder { bank_interest: Some(value), ..self }),
    {
        ReconciliationBuilder { bank_interest: Some(value), ..self }
    }

    /// Set `nsf_checks`.
    pub fn nsf_checks(self, value: Amount) -> (r: ReconciliationBuilder)
        ensures
            r == (ReconciliationBuilder { nsf_checks: Some(value), ..self }),
    {
        ReconciliationBuilder { nsf_checks: Some(value), ..self }
    }

    /// Set `other_adjustments`.
    pub fn other_adjustments(self, value: Amount) -> (r: ReconciliationBuilder)
        ensures
            r == (ReconciliationBuilder { other_adjustments: Some(value), ..self }),
    {
        ReconciliationBuilder { other_adjustments: Some(value), ..self }
    }

    /// Set `adjusted_book_balance`.
    pub fn adjusted_book_balance(self, value: Amount) -> (r: ReconciliationBuilder)
        ensures
            r == (ReconciliationBuilder { adjusted_book_balance: Some(value), ..self }),
    {
        ReconciliationBuilder { adjusted_book_balance: Some(value), ..self }
    }

    /// Set `adjusted_statement_balance`.
    pub fn adjusted_statement_balance(self, value: Amount) -> (r: ReconciliationBuilder)
        ensures
            r == (ReconciliationBuilder { adjusted_statement_balance: Some(value), ..self }),
    {
        ReconciliationBuilder { adjusted_statement_balance: Some(value), ..self }
    }

    /// Set `difference`.
    pub fn difference(self, value: Amount) -> (r: ReconciliationBuilder)
        ensures
            r == (ReconciliationBuilder { difference: Some(value), ..self }),
    {
        ReconciliationBuilder { difference: Some(value), ..self }
    }

    /// Set `is_balanced`.
    pub fn is_balanced(self, value: bool) -> (r: ReconciliationBuilder)
        ensures
            r == (ReconciliationBuilder { is_balanced: Some(value), ..self }),
    {
        ReconciliationBuilder { is_balanced: Some(value), ..self }
    }

    /// Set `status`.
    pub fn status(self, value: ReconciliationStatus) -> (r: ReconciliationBuilder)
        ensures
            r == (ReconciliationBuilder { status: Some(value), ..self }),
    {
        ReconciliationBuilder { status: Some(value), ..self }
    }

    /// Set `started_at`.
    pub fn started_at(self, value: i64) -> (r: ReconciliationBuilder)
        ensures
            r == (ReconciliationBuilder { started_at: Some(value), ..self }),
    {
        ReconciliationBuilder { started_at: Some(value), ..self }
    }

    /// Set `started_by`.
    pub fn started_by(self, value: u128) -> (r: ReconciliationBuilder)
        ensures
            r == (ReconciliationBuilder { started_by: Some(value), ..self }),
    {
        ReconciliationBuilder { started_by: Some(value), ..self }
    }

    /// Set `completed_at`.
    pub fn completed_at(self, value: i64) -> (r: ReconciliationBuilder)
        ensures
            r == (ReconciliationBuilder { completed_at: Some(value), ..self }),
    {
        ReconciliationBuilder { completed_at: Some(value), ..self }
    }

    /// Set `completed_by`.
    pub fn completed_by(self, value: u128) -> (r: ReconciliationBuilder)
        ensures
            r == (ReconciliationBuilder { completed_by: Some(value), ..self }),
    {
        ReconciliationBuilder { completed_by: Some(value), ..self }
    }

    /// Set `reviewed_at`.
    pub fn reviewed_at(self, value: i64) -> (r: ReconciliationBuilder)
        ensures
            r == (ReconciliationBuilder { reviewed_at: Some(value), ..self }),
    {
        ReconciliationBuilder { reviewed_at: Some(value), ..self }
    }

    /// Set `reviewed_by`.
    pub fn reviewed_by(self, value: u128) -> (r: ReconciliationBuilder)
        ensures
            r == (ReconciliationBuilder { reviewed_by: Some(value), ..self }),
    {
        ReconciliationBuilder { reviewed_by: Some(value), ..self }
    }

    /// Set `has_adjusting_entries`.
    pub fn has_adjusting_entries(self, value: bool) -> (r: ReconciliationBuilder)
        ensures
            r == (ReconciliationBuilder { has_adjusting_entries: Some(value), ..self }),
    {
        ReconciliationBuilder { has_adjusting_entries: Some(value), ..self }
    }

    /// Set `adjusting_journal_ids`.
    pub fn adjusting_journal_ids(self, value: String) -> (r: ReconciliationBuilder)
        ensures
            r == (ReconciliationBuilder { adjusting_journal_ids: Some(value), ..self }),
    {
        ReconciliationBuilder { adjusting_journal_ids: Some(value), ..self }
    }

    /// Set `statement_source`.
    pub fn statement_source(self, value: String) -> (r: ReconciliationBuilder)
        ensures
            r == (ReconciliationBuilder { statement_source: Some(value), ..self }),
    {
        ReconciliationBuilder { statement_source: Some(value), ..self }
    }

    /// Set `statement_file_url`.
    pub fn statement_file_url(self, value: String) -> (r: ReconciliationBuilder)
        ensures
            r == (ReconciliationBuilder { statement_file_url: Some(value), ..self }),
    {
        ReconciliationBuilder { statement_file_url: Some(value), ..self }
    }

    /// Set `import_date`.
    pub fn import_date(self, value: i64) -> (r: ReconciliationBuilder)
        ensures
            r == (ReconciliationBuilder { import_date: Some(value), ..self }),
    {
        ReconciliationBuilder { import_date: Some(value), ..self }
    }

    /// Set `notes`.
    pub fn notes(self, value: String) -> (r: ReconciliationBuilder)
        ensures
            r == (ReconciliationBuilder { notes: Some(value), ..self }),
    {
        ReconciliationBuilder { notes: Some(value), ..self }
    }

    /// Set `discrepancy_notes`.
    pub fn discrepancy_notes(self, value: String) -> (r: ReconciliationBuilder)
        ensures
            r == (ReconciliationBuilder { discrepancy_notes: Some(value), ..self }),
    {
        ReconciliationBuilder { discrepancy_notes: Some(value), ..self }
    }

    /// The reconciliation, with `id` as its id, `metadata` as its starting audit metadata.
    /// Refused as [`Self::first_missing`] says when a required field is
    /// unset; otherwise every unset field takes its default.
    pub fn build(self, id: u128, metadata: String) -> (r: Result<Reconciliation, String>)
        ensures
            self.first_missing() matches Some(msg) ==> (r matches Err(m) && m@ == msg),
            self.first_missing() is None ==> (r matches Ok(e) && {
                &&& e.id == id
                &&& e.company_id == self.company_id.unwrap()
                &&& e.reconciliation_number == self.reconciliation_number.unwrap()
                &&& e.account_id == self.account_id.unwrap()
                &&& e.account_number == self.account_number.unwrap()
                &&& e.account_name == self.account_name.unwrap()
                &&& e.reconciliation_type == (match self.reconciliation_type { Some(v) => v, None => ReconciliationType::Bank })
                &&& e.period_start == self.period_start.unwrap()
                &&& e.period_end == self.period_end.unwrap()
                &&& e.statement_date == self.statement_date.unwrap()
                &&& e.opening_book_balance == self.opening_book_balance.unwrap()
                &&& e.opening_statement_balance == self.opening_statement_balance.unwrap()
                &&& e.previous_reconciliation_id == self.previous_reconciliation_id
                &&& e.closing_book_balance == self.closing_book_balance.unwrap()
                &&& e.closing_statement_balance == self.closing_statement_balance.unwrap()
                &&& match self.total_matched_debits { Some(v) => e.total_matched_debits == v, None => e.total_matched_debits == Amount { mantissa: 0, scale: 0 } }
                &&& match self.total_matched_credits { Some(v) => e.total_matched_credits == v, None => e.total_matched_credits == Amount { mantissa: 0, scale: 0 } }
                &&& match self.matched_count { Some(v) => e.matched_count == v, None => e.matched_count == 0 }
                &&& match self.total_unmatched_book_debits { Some(v) => e.total_unmatched_book_debits == v, None => e.total_unmatched_book_debits == Amount { mantissa: 0, scale: 0 } }
                &&& match self.total_unmatched_book_credits { Some(v) => e.total_unmatched_book_credits == v, None => e.total_unmatched_book_credits == Amount { mantissa: 0, scale: 0 } }
                &&& match self.unmatched_book_count { Some(v) => e.unmatched_book_count == v, None => e.unmatched_book_count == 0 }
                &&& match self.total_unmatched_statement_debits { Some(v) => e.total_unmatched_statement_debits == v, None => e.total_unmatched_statement_debits == Amount { mantissa: 0, scale: 0 } }
                &&& match self.total_unmatched_statement_credits { Some(v) => e.total_unmatched_statement_credits == v, None => e.total_unmatched_statement_credits == Amount { mantissa: 0, scale: 0 } }
                &&& match self.unmatched_statement_count { Some(v) => e.unmatched_statement_count == v, None => e.unmatched_statement_count == 0 }
                &&& match self.outstanding_deposits { Some(v) => e.outstanding_deposits == v, None => e.outstanding_deposits == Amount { mantissa: 0, scale: 0 } }
                &&& match self.outstanding_checks { Some(v) => e.outstanding_checks == v, None => e.outstanding_checks == Amount { mantissa: 0, scale: 0 } }
                &&& match self.deposits_in_transit { Some(v) => e.deposits_in_transit == v, None => e.deposits_in_transit == Amount { mantissa: 0, scale: 0 } }
                &&& match self.bank_charges { Some(v) => e.bank_charges == v, None => e.bank_charges == Amount { mantissa: 0, scale: 0 } }
                &&& match self.bank_interest { Some(v) => e.bank_interest == v, None => e.bank_interest == Amount { mantissa: 0, scale: 0 } }
                &&& match self.nsf_checks { Some(v) => e.nsf_checks == v, None => e.nsf_checks == Amount { mantissa: 0, scale: 0 } }
                &&& match self.other_adjustments { Some(v) => e.other_adjustments == v, None => e.other_adjustments == Amount { mantissa: 0, scale: 0 } }
                &&& e.adjusted_book_balance == self.adjusted_book_balance
                &&& e.adjusted_statement_balance == self.adjusted_statement_balance
                &&& match self.difference { Some(v) => e.difference == v, None => e.difference == Amount { mantissa: 0, scale: 0 } }
                &&& match self.is_balanced { Some(v) => e.is_balanced == v, None => e.is_balanced == false }
                &&& e.status == (match self.status { Some(v) => v, None => ReconciliationStatus::InProgress })
                &&& e.started_at == self.started_at
                &&& e.started_by == self.started_by
                &&& e.completed_at == self.completed_at
                &&& e.completed_by == self.completed_by
                &&& e.reviewed_at == self.reviewed_at
                &&& e.reviewed_by == self.reviewed_by
                &&& match self.has_adjusting_entries { Some(v) => e.has_adjusting_entries == v, None => e.has_adjusting_entries == false }
                &&& match self.adjusting_journal_ids { Some(v) => e.adjusting_journal_ids == v, None => e.adjusting_journal_ids@ == "[]"@ }
                &&& e.statement_source == self.statement_source
                &&& e.statement_file_url == self.statement_file_url
                &&& e.import_date == self.import_date
                &&& e.notes == self.notes
                &&& e.discrepancy_notes == self.discrepancy_notes
                &&& e.metadata == metadata
            }),
    {
        let company_id: u128 = match self.company_id {
            Some(v) => v,
            None => {
                return Err(string_from("company_id is required"));
            },
        };
        let reconciliation_number: String = match self.reconciliation_number {
            Some(v) => v,
            None => {
                return Err(string_from("reconciliation_number is required"));
            },
        };
        let account_id: u128 = match self.account_id {
            Some(v) => v,
            None => {
                return Err(string_from("account_id is required"));
            },
        };
        let account_number: String = match self.account_number {
            Some(v) => v,
            None => {
                return Err(string_from("account_number is required"));
            },
        };
        let account_name: String = match self.account_name {
            Some(v) => v,
            None => {
                return Err(string_from("account_name is required"));
            },
        };
        let period_start: i32 = match self.period_start {
            Some(v) => v,
            None => {
                return Err(string_from("period_start is required"));
            },
        };
        let period_end: i32 = match self.period_end {
            Some(v) => v,
            None => {
                return Err(string_from("period_end is required"));
            },
        };
        let statement_date: i32 = match self.statement_date {
            Some(v) => v,
            None => {
                return Err(string_from("statement_date is required"));
            },
        };
        let opening_book_balance: Amount = match self.opening_book_balance {
            Some(v) => v,
            None => {
                return Err(string_from("opening_book_balance is required"));
            },
        };
        let opening_statement_balance: Amount = match self.opening_statement_balance {
            Some(v) => v,
            None => {
                return Err(string_from("opening_statement_balance is required"));
            },
        };
        let closing_book_balance: Amount = match self.closing_book_balance {
            Some(v) => v,
            None => {
                return Err(string_from("closing_book_balance is required"));
            },
        };
        let closing_statement_balance: Amount = match self.closing_statement_balance {
            Some(v) => v,
            None => {
                return Err(string_from("closing_statement_balance is required"));
            },
        };
        Ok(Reconciliation {
            id,
            company_id,
            reconciliation_number,
            account_id,
            account_number,
            account_name,
            reconciliation_type: match self.reconciliation_type {
                Some(v) => v,
                None => ReconciliationType::default(),
            },
            period_start,
            period_end,
            statement_date,
            opening_book_balance,
            opening_statement_balance,
            previous_reconciliation_id: self.previous_reconciliation_id,
            closing_book_balance,
            closing_statement_balance,
            total_matched_debits: match self.total_matched_debits {
                Some(v) => v,
                None => Amount::zero(),
            },
            total_matched_credits: match self.total_matched_credits {
                Some(v) => v,
                None => Amount::zero(),
            },
            matched_count: match self.matched_count {
                Some(v) => v,
                None => 0,
            },
            total_unmatched_book_debits: match self.total_unmatched_book_debits {
                Some(v) => v,
                None => Amount::zero(),
            },
            total_unmatched_book_credits: match self.total_unmatched_book_credits {
                Some(v) => v,
                None => Amount::zero(),
            },
            unmatched_book_count: match self.unmatched_book_count {
                Some(v) => v,
                None => 0,
            },
            total_unmatched_statement_debits: match self.total_unmatched_statement_debits {
                Some(v) => v,
                None => Amount::zero(),
            },
            total_unmatched_statement_credits: match self.total_unmatched_statement_credits {
                Some(v) => v,
                None => Amount::zero(),
            },
            unmatched_statement_count: match self.unmatched_statement_count {
                Some(v) => v,
                None => 0,
            },
            outstanding_deposits: match self.outstanding_deposits {
                Some(v) => v,
                None => Amount::zero(),
            },
            outstanding_checks: match self.outstanding_checks {
                Some(v) => v,
                None => Amount::zero(),
            },
            deposits_in_transit: match self.deposits_in_transit {
                Some(v) => v,
                None => Amount::zero(),
            },
            bank_charges: match self.bank_charges {
                Some(v) => v,
                None => Amount::zero(),
            },
            bank_interest: match self.bank_interest {
                Some(v) => v,
                None => Amount::zero(),
            },
            nsf_checks: match self.nsf_checks {
                Some(v) => v,
                None => Amount::zero(),
            },
            other_adjustments: match self.other_adjustments {
                Some(v) => v,
                None => Amount::zero(),
            },
            adjusted_book_balance: self.adjusted_book_balance,
            adjusted_statement_balance: self.adjusted_statement_balance,
            difference: match self.difference {
                Some(v) => v,
                None => Amount::zero(),
            },
            is_balanced: match self.is_balanced {
                Some(v) => v,
                None => false,
            },
            status: match self.status {
                Some(v) => v,
                None => ReconciliationStatus::default(),
            },
            started_at: self.started_at,
            started_by: self.started_by,
            completed_at: self.completed_at,
            completed_by: self.completed_by,
            reviewed_at: self.reviewed_at,
            reviewed_by: self.reviewed_by,
            has_adjusting_entries: match self.has_adjusting_entries {
                Some(v) => v,
                None => false,
            },
            adjusting_journal_ids: match self.adjusting_journal_ids {
                Some(v) => v,
                None => string_from("[]"),
            },
            statement_source: self.statement_source,
            statement_file_url: self.statement_file_url,
            import_date: self.import_date,
            notes: self.notes,
            discrepancy_notes: self.discrepancy_notes,
            metadata,
        })
    }
}

} // verus!
