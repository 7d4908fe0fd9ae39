//! The ledger record and its builder.
//!
//! Ids are the 128-bit values of uuids; decimals are [`Amount`]s; dates are
//! day numbers (day 1 is 0001-01-01); instants are microseconds since
//! 1970-01-01 UTC; JSON values are held as their JSON text.

use crate::amount::Amount;
use crate::entity::account_type::AccountType;
use crate::entity::normal_balance::NormalBalance;
use crate::text::string_from;
use vstd::prelude::*;

verus! {

/// A ledger record.
#[derive(Debug, Clone)]
pub struct Ledger {
    pub id: u128,
    pub provider_id: Option<u128>,
    pub account_id: u128,
    pub account_number: String,
    pub account_name: String,
    pub account_type: AccountType,
    pub normal_balance: NormalBalance,
    pub journal_id: u128,
    pub journal_number: String,
    pub journal_line_id: u128,
    pub transaction_date: i32,
    pub posting_date: i32,
    pub fiscal_period_id: Option<u128>,
    pub fiscal_year: i32,
    pub fiscal_month: i32,
    pub description: String,
    pub reference: Option<String>,
    pub currency: String,
    pub debit_amount: Amount,
    pub credit_amount: Amount,
    pub balance_before: Amount,
    pub balance_after: Amount,
    pub balance_change: Amount,
    pub sequence_number: i32,
    pub outlet_id: Option<u128>,
    pub cost_center: Option<String>,
    pub project: Option<String>,
    pub department: Option<String>,
    pub source_type: Option<String>,
    pub source_id: Option<u128>,
    pub source_reference: Option<String>,
    pub is_reconciled: bool,
    pub reconciliation_id: Option<u128>,
    pub reconciled_at: Option<i64>,
    pub is_opening_balance: bool,
    pub is_closing_entry: bool,
    pub is_adjustment: bool,
    pub is_reversed: bool,
    pub reversed_by_id: Option<u128>,
    pub reverses_id: Option<u128>,
    /// The audit metadata (creation, update and deletion stamps), as JSON text.
    pub metadata: String,
}

/// Collects the fields of a ledger; `build` checks the required ones and
/// fills in the defaults.
#[derive(Debug, Clone)]
pub struct LedgerBuilder {
    pub provider_id: Option<u128>,
    pub account_id: Option<u128>,
    pub account_number: Option<String>,
    pub account_name: Option<String>,
    pub account_type: Option<AccountType>,
    pub normal_balance: Option<NormalBalance>,
    pub journal_id: Option<u128>,
    pub journal_number: Option<String>,
    pub journal_line_id: Option<u128>,
    pub transaction_date: Option<i32>,
    pub posting_date: Option<i32>,
    pub fiscal_period_id: Option<u128>,
    pub fiscal_year: Option<i32>,
    pub fiscal_month: Option<i32>,
    pub description: Option<String>,
    pub reference: Option<String>,
    pub currency: Option<String>,
    pub debit_amount: Option<Amount>,
    pub credit_amount: Option<Amount>,
    pub balance_before: Option<Amount>,
    pub balance_after: Option<Amount>,
    pub balance_change: Option<Amount>,
    pub sequence_number: Option<i32>,
    pub outlet_id: Option<u128>,
    pub cost_center: Option<String>,
    pub project: Option<String>,
    pub department: Option<String>,
    pub source_type: Option<String>,
    pub source_id: Option<u128>,
    pub source_reference: Option<String>,
    pub is_reconciled: Option<bool>,
    pub reconciliation_id: Option<u128>,
    pub reconciled_at: Option<i64>,
    pub is_opening_balance: Option<bool>,
    pub is_closing_entry: Option<bool>,
    pub is_adjustment: Option<bool>,
    pub is_reversed: Option<bool>,
    pub reversed_by_id: Option<u128>,
    pub reverses_id: Option<u128>,
}

impl Ledger {
    /// A builder with no field set.
    pub fn builder() -> (r: LedgerBuilder)
        ensures
            r.provider_id is None,
            r.account_id is None,
            r.account_number is None,
            r.account_name is None,
            r.account_type is None,
            r.normal_balance is None,
            r.journal_id is None,
            r.journal_number is None,
            r.journal_line_id is None,
            r.transaction_date is None,
            r.posting_date is None,
            r.fiscal_period_id is None,
            r.fiscal_year is None,
            r.fiscal_month is None,
            r.description is None,
            r.reference is None,
            r.currency is None,
            r.debit_amount is None,
            r.credit_amount is None,
            r.balance_before is None,
            r.balance_after is None,
            r.balance_change is None,
            r.sequence_number is None,
            r.outlet_id is None,
            r.cost_center is None,
            r.project is None,
            r.department is None,
            r.source_type is None,
            r.source_id is None,
            r.source_reference is None,
            r.is_reconciled is None,
            r.reconciliation_id is None,
            r.reconciled_at is None,
            r.is_opening_balance is None,
            r.is_closing_entry is None,
            r.is_adjustment is None,
            r.is_reversed is None,
            r.reversed_by_id is None,
            r.reverses_id is None,
    {
        LedgerBuilder {
            provider_id: None,
            account_id: None,
            account_number: None,
            account_name: None,
            account_type: None,
            normal_balance: None,
            journal_id: None,
            journal_number: None,
            journal_line_id: None,
            transaction_date: None,
            posting_date: None,
            fiscal_period_id: None,
            fiscal_year: None,
            fiscal_month: None,
            description: None,
            reference: None,
            currency: None,
            debit_amount: None,
            credit_amount: None,
            balance_before: None,
            balance_after: None,
            balance_change: None,
            sequence_number: None,
            outlet_id: None,
            cost_center: None,
            project: None,
            department: None,
            source_type: None,
            source_id: None,
            source_reference: None,
            is_reconciled: None,
            reconciliation_id: None,
            reconciled_at: None,
            is_opening_balance: None,
            is_closing_entry: None,
            is_adjustment: None,
            is_reversed: None,
            reversed_by_id: None,
            reverses_id: None,
        }
    }

    /// A ledger from its required fields; every optional field is unset.
    pub fn new(id: u128, account_id: u128, account_number: String, account_name: String, account_type: AccountType, normal_balance: NormalBalance, journal_id: u128, journal_number: String, journal_line_id: u128, transaction_date: i32, posting_date: i32, fiscal_year: i32, fiscal_month: i32, description: String, currency: String, debit_amount: Amount, credit_amount: Amount, balance_before: Amount, balance_after: Amount, balance_change: Amount, sequence_number: i32, is_reconciled: bool, is_opening_balance: bool, is_closing_entry: bool, is_adjustment: bool, is_reversed: bool, metadata: String) -> (r: Ledger)
        ensures
            r.id == id,
            r.provider_id is None,
            r.account_id == account_id,
            r.account_number == account_number,
            r.account_name == account_name,
            r.account_type == account_type,
            r.normal_balance == normal_balance,
            r.journal_id == journal_id,
            r.journal_number == journal_number,
            r.journal_line_id == journal_line_id,
            r.transaction_date == transaction_date,
            r.posting_date == posting_date,
            r.fiscal_period_id is None,
            r.fiscal_year == fiscal_year,
            r.fiscal_month == fiscal_month,
            r.description == description,
            r.reference is None,
            r.currency == currency,
            r.debit_amount == debit_amount,
            r.credit_amount == credit_amount,
            r.balance_before == balance_before,
            r.balance_after == balance_after,
            r.balance_change == balance_change,
            r.sequence_number == sequence_number,
            r.outlet_id is None,
            r.cost_center is None,
            r.project is None,
            r.department is None,
            r.source_type is None,
            r.source_id is None,
            r.source_reference is None,
            r.is_reconciled == is_reconciled,
            r.reconciliation_id is None,
            r.reconciled_at is None,
            r.is_opening_balance == is_opening_balance,
            r.is_closing_entry == is_closing_entry,
            r.is_adjustment == is_adjustment,
            r.is_reversed == is_reversed,
            r.reversed_by_id is None,
            r.reverses_id is None,
            r.metadata == metadata,
    {
        Ledger {
            id,
            provider_id: None,
            account_id,
            account_number,
            account_name,
            account_type,
            normal_balance,
            journal_id,
            journal_number,
            journal_line_id,
            transaction_date,
            posting_date,
            fiscal_period_id: None,
            fiscal_year,
            fiscal_month,
            description,
            reference: None,
            currency,
            debit_amount,
            credit_amount,
            balance_before,
            balance_after,
            balance_change,
            sequence_number,
            outlet_id: None,
            cost_center: None,
            project: None,
            department: None,
            source_type: None,
            source_id: None,
            source_reference: None,
            is_reconciled,
            reconciliation_id: None,
            reconciled_at: None,
            is_opening_balance,
            is_closing_entry,
            is_adjustment,
            is_reversed,
            reversed_by_id: None,
            reverses_id: None,
            metadata,
        }
    }
}

impl LedgerBuilder {
    /// The refusal of the first required field left unset, in order.
    pub open spec fn first_missing(self) -> Option<Seq<char>> {
        if self.account_id is None {
            Some("account_id is required"@)
        } else if self.account_number is None {
            Some("account_number is required"@)
        } else if self.account_name is None {
            Some("account_name is required"@)
        } else if self.account_type is None {
            Some("account_type is required"@)
        } else if self.normal_balance is None {
            Some("normal_balance is required"@)
        } else if self.journal_id is None {
            Some("journal_id is required"@)
        } else if self.journal_number is None {
            Some("journal_number is required"@)
        } else if self.journal_line_id is None {
            Some("journal_line_id is required"@)
        } else if self.transaction_date is None {
            Some("transaction_date is required"@)
        } else if self.posting_date is None {
            Some("posting_date is required"@)
        } else if self.fiscal_year is None {
            Some("fiscal_year is required"@)
        } else if self.fiscal_month is None {
            Some("fiscal_month is required"@)
        } else if self.description is None {
            Some("description is required"@)
        } else if self.balance_before is None {
            Some("balance_before is required"@)
        } else if self.balance_after is None {
            Some("balance_after is required"@)
        } else if self.balance_change is None {
            Some("balance_change is required"@)
        } else if self.sequence_number is None {
            Some("sequence_number is required"@)
        } else {
            None
        }
    }

    /// Set `provider_id`.
    pub fn provider_id(self, value: u128) -> (r: LedgerBuilder)
        ensures
            r == (LedgerBuilder { provider_id: Some(value), ..self }),
    {
        LedgerBuilder { provider_id: Some(value), ..self }
    }

    /// Set `account_id`.
    pub fn account_id(self, value: u128) -> (r: LedgerBuilder)
        ensures
            r == (LedgerBuilder { account_id: Some(value), ..self }),
    {
        LedgerBuilder { account_id: Some(value), ..self }
    }

    /// Set `account_number`.
    pub fn account_number(self, value: String) -> (r: LedgerBuilder)
        ensures
            r == (LedgerBuilder { account_number: Some(value), ..self }),
    {
        LedgerBuilder { account_number: Some(value), ..self }
    }

    /// Set `account_name`.
    pub fn account_name(self, value: String) -> (r: LedgerBuilder)
        ensures
            r == (LedgerBuilder { account_name: Some(value), ..self }),
    {
        LedgerBuilder { account_name: Some(value), ..self }
    }

    /// Set `account_type`.
    pub fn account_type(self, value: AccountType) -> (r: LedgerBuilder)
        ensures
            r == (LedgerBuilder { account_type: Some(value), ..self }),
    {
        LedgerBuilder { account_type: Some(value), ..self }
    }

    /// Set `normal_balance`.
    pub fn normal_balance(self, value: NormalBalance) -> (r: LedgerBuilder)
        ensures
            r == (LedgerBuilder { normal_balance: Some(value), ..self }),
    {
        LedgerBuilder { normal_balance: Some(value), ..self }
    }

    /// Set `journal_id`.
    pub fn journal_id(self, value: u128) -> (r: LedgerBuilder)
        ensures
            r == (LedgerBuilder { journal_id: Some(value), ..self }),
    {
        LedgerBuilder { journal_id: Some(value), ..self }
    }

    /// Set `journal_number`.
    pub fn journal_number(self, value: String) -> (r: LedgerBuilder)
        ensures
            r == (LedgerBuilder { journal_number: Some(value), ..self }),
    {
        LedgerBuilder { journal_number: Some(value), ..self }
    }

    /// Set `journal_line_id`.
    pub fn journal_line_id(self, value: u128) -> (r: LedgerBuilder)
        ensures
            r == (LedgerBuilder { journal_line_id: Some(value), ..self }),
    {
        LedgerBuilder { journal_line_id: Some(value), ..self }
    }

    /// Set `transaction_date`.
    pub fn transaction_date(self, value: i32) -> (r: LedgerBuilder)
        ensures
            r == (LedgerBuilder { transaction_date: Some(value), ..self }),
    {
        LedgerBuilder { transaction_date: Some(value), ..self }
    }

    /// Set `posting_date`.
    pub fn posting_date(self, value: i32) -> (r: LedgerBuilder)
        ensures
            r == (LedgerBuilder { posting_date: Some(value), ..self }),
    {
        LedgerBuilder { posting_date: Some(value), ..self }
    }

    /// Set `fiscal_period_id`.
    pub fn fiscal_period_id(self, value: u128) -> (r: LedgerBuilder)
        ensures
            r == (LedgerBuilder { fiscal_period_id: Some(value), ..self }),
    {
        LedgerBuilder { fiscal_period_id: Some(value), ..self }
    }

    /// Set `fiscal_year`.
    pub fn fiscal_year(self, value: i32) -> (r: LedgerBuilder)
        ensures
            r == (LedgerBuilder { fiscal_year: Some(value), ..self }),
    {
        LedgerBuilder { fiscal_year: Some(value), ..self }
    }

    /// Set `fiscal_month`.
    pub fn fiscal_month(self, value: i32) -> (r: LedgerBuilder)
        ensures
            r == (LedgerBuilder { fiscal_month: Some(value), ..self }),
    {
        LedgerBuilder { fiscal_month: Some(value), ..self }
    }

    /// Set `description`.
    pub fn description(self, value: String) -> (r: LedgerBuilder)
        ensures
            r == (LedgerBuilder { description: Some(value), ..self }),
    {
        LedgerBuilder { description: Some(value), ..self }
    }

    /// Set `reference`.
    pub fn reference(self, value: String) -> (r: LedgerBuilder)
        ensures
            r == (LedgerBuilder { reference: Some(value), ..self }),
    {
        LedgerBuilder { reference: Some(value), ..self }
    }

    /// Set `currency`.
    pub fn currency(self, value: String) -> (r: LedgerBuilder)
        ensures
            r == (LedgerBuilder { currency: Some(value), ..self }),
    {
        LedgerBuilder { currency: Some(value), ..self }
    }

    /// Set `debit_amount`.
    pub fn debit_amount(self, value: Amount) -> (r: LedgerBuilder)
        ensures
            r == (LedgerBuilder { debit_amount: Some(value), ..self }),
    {
        LedgerBuilder { debit_amount: Some(value), ..self }
    }

    /// Set `credit_amount`.
    pub fn credit_amount(self, value: Amount) -> (r: LedgerBuilder)
        ensures
            r == (LedgerBuilder { credit_amount: Some(value), ..self }),
    {
        LedgerBuilder { credit_amount: Some(value), ..self }
    }

    /// Set `balance_before`.
    pub fn balance_before(self, value: Amount) -> (r: LedgerBuilder)
        ensures
            r == (LedgerBuilder { balance_before: Some(value), ..self }),
    {
        LedgerBuilder { balance_before: Some(value), ..self }
    }

    /// Set `balance_after`.
    pub fn balance_after(self, value: Amount) -> (r: LedgerBuilder)
        ensures
            r == (LedgerBuilder { balance_after: Some(value), ..self }),
    {
        LedgerBuilder { balance_after: Some(value), ..self }
    }

    /// Set `balance_change`.
    pub fn balance_change(self, value: Amount) -> (r: LedgerBuilder)
        ensures
            r == (LedgerBuilder { balance_change: Some(value), ..self }),
    {
        LedgerBuilder { balance_change: Some(value), ..self }
    }

    /// Set `sequence_number`.
    pub fn sequence_number(self, value: i32) -> (r: LedgerBuilder)
        ensures
            r == (LedgerBuilder { sequence_number: Some(value), ..self }),
    {
        LedgerBuilder { sequence_number: Some(value), ..self }
    }

    /// Set `outlet_id`.
    pub fn outlet_id(self, value: u128) -> (r: LedgerBuilder)
        ensures
            r == (LedgerBuilder { outlet_id: Some(value), ..self }),
    {
        LedgerBuilder { outlet_id: Some(value), ..self }
    }

    /// Set `cost_center`.
    pub fn cost_center(self, value: String) -> (r: LedgerBuilder)
        ensures
            r == (LedgerBuilder { cost_center: Some(value), ..self }),
    {
        LedgerBuilder { cost_center: Some(value), ..self }
    }

    /// Set `project`.
    pub fn project(self, value: String) -> (r: LedgerBuilder)
        ensures
            r == (LedgerBuilder { project: Some(value), ..self }),
    {
        LedgerBuilder { project: Some(value), ..self }
    }

    /// Set `department`.
    pub fn department(self, value: String) -> (r: LedgerBuilder)
        ensures
            r == (LedgerBuilder { department: Some(value), ..self }),
    {
        LedgerBuilder { department: Some(value), ..self }
    }

    /// Set `source_type`.
    pub fn source_type(self, value: String) -> (r: LedgerBuilder)
        ensures
            r == (LedgerBuilder { source_type: Some(value), ..self }),
    {
        LedgerBuilder { source_type: Some(value), ..self }
    }

    /// Set `source_id`.
    pub fn source_id(self, value: u128) -> (r: LedgerBuilder)
        ensures
            r == (LedgerBuilder { source_id: Some(value), ..self }),
    {
        LedgerBuilder { source_id: Some(value), ..self }
    }

    /// Set `source_reference`.
    pub fn source_reference(self, value: String) -> (r: LedgerBuilder)
        ensures
            r == (LedgerBuilder { source_reference: Some(value), ..self }),
    {
        LedgerBuilder { source_reference: Some(value), ..self }
    }

    /// Set `is_reconciled`.
    pub fn is_reconciled(self, value: bool) -> (r: LedgerBuilder)
        ensures
            r == (LedgerBuilder { is_reconciled: Some(value), ..self }),
    {
        LedgerBuilder { is_reconciled: Some(value), ..self }
    }

    /// Set `reconciliation_id`.
    pub fn reconciliation_id(self, value: u128) -> (r: LedgerBuilder)
        ensures
            r == (LedgerBuilder { reconciliation_id: Some(value), ..self }),
    {
        LedgerBuilder { reconciliation_id: Some(value), ..self }
    }

    /// Set `reconciled_at`.
    pub fn reconciled_at(self, value: i64) -> (r: LedgerBuilder)
        ensures
            r == (LedgerBuilder { reconciled_at: Some(value), ..self }),
    {
        LedgerBuilder { reconciled_at: Some(value), ..self }
    }

    /// Set `is_opening_balance`.
    pub fn is_opening_balance(self, value: bool) -> (r: LedgerBuilder)
        ensures
            r == (LedgerBuilder { is_opening_balance: Some(value), ..self }),
    {
        LedgerBuilder { is_opening_balance: Some(value), ..self }
    }

    /// Set `is_closing_entry`.
    pub fn is_closing_entry(self, value: bool) -> (r: LedgerBuilder)
        ensures
            r == (LedgerBuilder { is_closing_entry: Some(value), ..self }),
    {
        LedgerBuilder { is_closing_entry: Some(value), ..self }
    }

    /// Set `is_adjustment`.
    pub fn is_adjustment(self, value: bool) -> (r: LedgerBuilder)
        ensures
            r == (LedgerBuilder { is_adjustment: Some(value), ..self }),
    {
        LedgerBuilder { is_adjustment: Some(value), ..self }
    }

    /// Set `is_reversed`.
    pub fn is_reversed(self, value: bool) -> (r: LedgerBuilder)
        ensures
            r == (LedgerBuilder { is_reversed: Some(value), ..self }),
    {
        LedgerBuilder { is_reversed: Some(value), ..self }
    }

    /// Set `reversed_by_id`.
    pub fn reversed_by_id(self, value: u128) -> (r: LedgerBuilder)
        ensures
            r == (LedgerBuilder { reversed_by_id: Some(value), ..self }),
    {
        LedgerBuilder { reversed_by_id: Some(value), ..self }
    }

    /// Set `reverses_id`.
    pub fn reverses_id(self, value: u128) -> (r: LedgerBuilder)
        ensures
            r == (LedgerBuilder { reverses_id: Some(value), ..self }),
    {
        LedgerBuilder { reverses_id: Some(value), ..self }
    }

    /// The ledger, with `id` as its id, `metadata` as its starting audit metadata.
    /// Refused as [`Self::first_missing`] says when a required field is
    /// unset; otherwise every unset field takes its default.
    pub fn build(self, id: u128, metadata: String) -> (r: Result<Ledger, String>)
        ensures
            self.first_missing() matches Some(msg) ==> (r matches Err(m) && m@ == msg),
            self.first_missing() is None ==> (r matches Ok(e) && {
                &&& e.id == id
                &&& e.provider_id == self.provider_id
                &&& e.account_id == self.account_id.unwrap()
                &&& e.account_number == self.account_number.unwrap()
                &&& e.account_name == self.account_name.unwrap()
                &&& e.account_type == self.account_type.unwrap()
                &&& e.normal_balance == self.normal_balance.unwrap()
                &&& e.journal_id == self.journal_id.unwrap()
                &&& e.journal_number == self.journal_number.unwrap()
                &&& e.journal_line_id == self.journal_line_id.unwrap()
                &&& e.transaction_date == self.transaction_date.unwrap()
                &&& e.posting_date == self.posting_date.unwrap()
                &&& e.fiscal_period_id == self.fiscal_period_id
                &&& e.fiscal_year == self.fiscal_year.unwrap()
                &&& e.fiscal_month == self.fiscal_month.unwrap()
                &&& e.description == self.description.unwrap()
                &&& e.reference == self.reference
                &&& match self.currency { Some(v) => e.currency == v, None => e.currency@ == "IDR"@ }
                &&& match self.debit_amount { Some(v) => e.debit_amount == v, None => e.debit_amount == Amount { mantissa: 0, scale: 0 } }
                &&& match self.credit_amount { Some(v) => e.credit_amount == v, None => e.credit_amount == Amount { mantissa: 0, scale: 0 } }
                &&& e.balance_before == self.balance_before.unwrap()
                &&& e.balance_after == self.balance_after.unwrap()
                &&& e.balance_change == self.balance_change.unwrap()
                &&& e.sequence_number == self.sequence_number.unwrap()
                &&& e.outlet_id == self.outlet_id
                &&& e.cost_center == self.cost_center
                &&& e.project == self.project
                &&& e.department == self.department
                &&& e.source_type == self.source_type
                &&& e.source_id == self.source_id
                &&& e.source_reference == self.source_reference
                &&& match self.is_reconciled { Some(v) => e.is_reconciled == v, None => e.is_reconciled == false }
                &&& e.reconciliation_id == self.reconciliation_id
                &&& e.reconciled_at == self.reconciled_at
                &&& match self.is_opening_balance { Some(v) => e.is_opening_balance == v, None => e.is_opening_balance == false }
                &&& match self.is_closing_entry { Some(v) => e.is_closing_entry == v, None => e.is_closing_entry == false }
                &&& match self.is_adjustment { Some(v) => e.is_adjustment == v, None => e.is_adjustment == false }
                &&& match self.is_reversed { Some(v) => e.is_reversed == v, None => e.is_reversed == false }
                &&& e.reversed_by_id == self.reversed_by_id
                &&& e.reverses_id == self.reverses_id
                &&& e.metadata == metadata
            }),
    {
        let account_id: u128 = match self.account_id {
            Some(v) => v,
            None => {
                return Err(string_from("account_id is required"));
            },
        };
        let account_number: String = match self.account_number {
            Some(v) => v,
            None => {
                return Err(string_from("account_number is required"));
            },
        };
        let account_name: String = match self.account_name {
            Some(v) => v,
            None => {
                return Err(string_from("account_name is required"));
            },
        };
        let account_type: AccountType = match self.account_type {
            Some(v) => v,
            None => {
                return Err(string_from("account_type is required"));
            },
        };
        let normal_balance: NormalBalance = match self.normal_balance {
            Some(v) => v,
            None => {
                return Err(string_from("normal_balance is required"));
            },
        };
        let journal_id: u128 = match self.journal_id {
            Some(v) => v,
            None => {
                return Err(string_from("journal_id is required"));
            },
        };
        let journal_number: String = match self.journal_number {
            Some(v) => v,
            None => {
                return Err(string_from("journal_number is required"));
            },
        };
        let journal_line_id: u128 = match self.journal_line_id {
            Some(v) => v,
            None => {
                return Err(string_from("journal_line_id is required"));
            },
        };
        let transaction_date: i32 = match self.transaction_date {
            Some(v) => v,
            None => {
                return Err(string_from("transaction_date is required"));
            },
        };
        let posting_date: i32 = match self.posting_date {
            Some(v) => v,
            None => {
                return Err(string_from("posting_date is required"));
            },
        };
        let fiscal_year: i32 = match self.fiscal_year {
            Some(v) => v,
            None => {
                return Err(string_from("fiscal_year is required"));
            },
        };
        let fiscal_month: i32 = match self.fiscal_month {
            Some(v) => v,
            None => {
                return Err(string_from("fiscal_month is required"));
            },
        };
        let description: String = match self.description {
            Some(v) => v,
            None => {
                return Err(string_from("description is required"));
            },
        };
        let balance_before: Amount = match self.balance_before {
            Some(v) => v,
            None => {
                return Err(string_from("balance_before is required"));
            },
        };
        let balance_after: Amount = match self.balance_after {
            Some(v) => v,
            None => {
                return Err(string_from("balance_after is required"));
            },
        };
        let balance_change: Amount = match self.balance_change {
            Some(v) => v,
            None => {
                return Err(string_from("balance_change is required"));
            },
        };
        let sequence_number: i32 = match self.sequence_number {
            Some(v) => v,
            None => {
                return Err(string_from("sequence_number is required"));
            },
        };
        Ok(Ledger {
            id,
            provider_id: self.provider_id,
            account_id,
            account_number,
            account_name,
            account_type,
            normal_balance,
            journal_id,
            journal_number,
            journal_line_id,
            transaction_date,
            posting_date,
            fiscal_period_id: self.fiscal_period_id,
            fiscal_year,
            fiscal_month,
            description,
            reference: self.reference,
            currency: match self.currency {
                Some(v) => v,
                None => string_from("IDR"),
            },
            debit_amount: match self.debit_amount {
                Some(v) => v,
                None => Amount::zero(),
            },
            credit_amount: match self.credit_amount {
                Some(v) => v,
                None => Amount::zero(),
            },
            balance_before,
            balance_after,
            balance_change,
            sequence_number,
            outlet_id: self.outlet_id,
            cost_center: self.cost_center,
            project: self.project,
            department: self.department,
            source_type: self.source_type,
            source_id: self.source_id,
            source_reference: self.source_reference,
            is_reconciled: match self.is_reconciled {
                Some(v) => v,
                None => false,
            },
            reconciliation_id: self.reconciliation_id,
            reconciled_at: self.reconciled_at,
            is_opening_balance: match self.is_opening_balance {
                Some(v) => v,
                None => false,
            },
            is_closing_entry: match self.is_closing_entry {
                Some(v) => v,
                None => false,
            },
            is_adjustment: match self.is_adjustment {
                Some(v) => v,
                None => false,
            },
            is_reversed: match self.is_reversed {
                Some(v) => v,
                None => false,
            },
            reversed_by_id: self.reversed_by_id,
            reverses_id: self.reverses_id,
            metadata,
        })
    }
}

} // verus!
