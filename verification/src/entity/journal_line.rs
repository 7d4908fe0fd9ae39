//! The journal line record and its builder.
//!
//! Ids are the 128-bit values of uuids; decimals are [`Amount`]s; dates are
//! day numbers (day 1 is 0001-01-01); instants are microseconds since
//! 1970-01-01 UTC; JSON values are held as their JSON text.

use crate::amount::Amount;
use crate::text::string_from;
use vstd::prelude::*;

verus! {

/// A journal line record.
#[derive(Debug, Clone)]
pub struct JournalLine {
    pub id: u128,
    pub journal_id: u128,
    pub company_id: u128,
    pub branch_id: Option<u128>,
    /// The party type, by its label.
    pub party_type: Option<String>,
    pub party_id: Option<u128>,
    pub line_number: i32,
    pub account_id: u128,
    pub account_number: String,
    pub account_name: String,
    pub debit_amount: Amount,
    pub credit_amount: Amount,
    pub currency: String,
    pub exchange_rate: Amount,
    pub base_debit_amount: Amount,
    pub base_credit_amount: Amount,
    pub description: Option<String>,
    pub cost_center_id: Option<u128>,
    pub project_id: Option<u128>,
    pub department_id: Option<u128>,
    pub dimensions: Option<String>,
    pub source_type: Option<String>,
    pub source_id: Option<u128>,
    pub source_reference: Option<String>,
    pub is_tax_line: bool,
    pub tax_rate: Option<Amount>,
    pub tax_base_amount: Option<Amount>,
    pub related_line_id: Option<u128>,
    pub has_quantity: bool,
    pub quantity: Option<Amount>,
    pub unit: Option<String>,
    pub unit_price: Option<Amount>,
    pub is_reconciled: bool,
    pub reconciliation_id: Option<u128>,
    pub reconciled_at: Option<i64>,
    pub is_posted: bool,
    pub ledger_id: Option<u128>,
    pub posted_at: Option<i64>,
    pub tags: String,
    pub data: String,
}

/// Collects the fields of a journal line; `build` checks the required ones and
/// fills in the defaults.
#[derive(Debug, Clone)]
pub struct JournalLineBuilder {
    pub journal_id: Option<u128>,
    pub company_id: Option<u128>,
    pub branch_id: Option<u128>,
    pub party_type: Option<String>,
    pub party_id: Option<u128>,
    pub line_number: Option<i32>,
    pub account_id: Option<u128>,
    pub account_number: Option<String>,
    pub account_name: Option<String>,
    pub debit_amount: Option<Amount>,
    pub credit_amount: Option<Amount>,
    pub currency: Option<String>,
    pub exchange_rate: Option<Amount>,
    pub base_debit_amount: Option<Amount>,
    pub base_credit_amount: Option<Amount>,
    pub description: Option<String>,
    pub cost_center_id: Option<u128>,
    pub project_id: Option<u128>,
    pub department_id: Option<u128>,
    pub dimensions: Option<String>,
    pub source_type: Option<String>,
    pub source_id: Option<u128>,
    pub source_reference: Option<String>,
    pub is_tax_line: Option<bool>,
    pub tax_rate: Option<Amount>,
    pub tax_base_amount: Option<Amount>,
    pub related_line_id: Option<u128>,
    pub has_quantity: Option<bool>,
    pub quantity: Option<Amount>,
    pub unit: Option<String>,
    pub unit_price: Option<Amount>,
    pub is_reconciled: Option<bool>,
    pub reconciliation_id: Option<u128>,
    pub reconciled_at: Option<i64>,
    pub is_posted: Option<bool>,
    pub ledger_id: Option<u128>,
    pub posted_at: Option<i64>,
    pub tags: Option<String>,
    pub data: Option<String>,
}

impl JournalLine {
    /// A builder with no field set.
    pub fn builder() -> (r: JournalLineBuilder)
        ensures
            r.journal_id is None,
            r.company_id is None,
            r.branch_id is None,
            r.party_type is None,
            r.party_id is None,
            r.line_number is None,
            r.account_id is None,
            r.account_number is None,
            r.account_name is None,
            r.debit_amount is None,
            r.credit_amount is None,
            r.currency is None,
            r.exchange_rate is None,
            r.base_debit_amount is None,
            r.base_credit_amount is None,
            r.description is None,
            r.cost_center_id is None,
            r.project_id is None,
            r.department_id is None,
            r.dimensions is None,
            r.source_type is None,
            r.source_id is None,
            r.source_reference is None,
            r.is_tax_line is None,
            r.tax_rate is None,
            r.tax_base_amount is None,
            r.related_line_id is None,
            r.has_quantity is None,
            r.quantity is None,
            r.unit is None,
            r.unit_price is None,
            r.is_reconciled is None,
            r.reconciliation_id is None,
            r.reconciled_at is None,
            r.is_posted is None,
            r.ledger_id is None,
            r.posted_at is None,
            r.tags is None,
            r.data is None,
    {
        JournalLineBuilder {
            journal_id: None,
            company_id: None,
            branch_id: None,
            party_type: None,
            party_id: None,
            line_number: None,
            account_id: None,
            account_number: None,
            account_name: None,
            debit_amount: None,
            credit_amount: None,
            currency: None,
            exchange_rate: None,
            base_debit_amount: None,
            base_credit_amount: None,
            description: None,
            cost_center_id: None,
            project_id: None,
            department_id: None,
            dimensions: None,
            source_type: None,
            source_id: None,
            source_reference: None,
            is_tax_line: None,
            tax_rate: None,
            tax_base_amount: None,
            related_line_id: None,
            has_quantity: None,
            quantity: None,
            unit: None,
            unit_price: None,
            is_reconciled: None,
            reconciliation_id: None,
            reconciled_at: None,
            is_posted: None,
            ledger_id: None,
            posted_at: None,
            tags: None,
            data: None,
        }
    }

    /// A journal line from its required fields; every optional field is unset.
    pub fn new(id: u128, journal_id: u128, company_id: u128, line_number: i32, account_id: u128, account_number: String, account_name: String, debit_amount: Amount, credit_amount: Amount, currency: String, exchange_rate: Amount, base_debit_amount: Amount, base_credit_amount: Amount, is_tax_line: bool, has_quantity: bool, is_reconciled: bool, is_posted: bool, tags: String, data: String) -> (r: JournalLine)
        ensures
            r.id == id,
            r.journal_id == journal_id,
            r.company_id == company_id,
            r.branch_id is None,
            r.party_type is None,
            r.party_id is None,
            r.line_number == line_number,
            r.account_id == account_id,
            r.account_number == account_number,
            r.account_name == account_name,
            r.debit_amount == debit_amount,
            r.credit_amount == credit_amount,
            r.currency == currency,
            r.exchange_rate == exchange_rate,
            r.base_debit_amount == base_debit_amount,
            r.base_credit_amount == base_credit_amount,
            r.description is None,
            r.cost_center_id is None,
            r.project_id is None,
            r.department_id is None,
            r.dimensions is None,
            r.source_type is None,
            r.source_id is None,
            r.source_reference is None,
            r.is_tax_line == is_tax_line,
            r.tax_rate is None,
            r.tax_base_amount is None,
            r.related_line_id is None,
            r.has_quantity == has_quantity,
            r.quantity is None,
            r.unit is None,
            r.unit_price is None,
            r.is_reconciled == is_reconciled,
            r.reconciliation_id is None,
            r.reconciled_at is None,
            r.is_posted == is_posted,
            r.ledger_id is None,
            r.posted_at is None,
            r.tags == tags,
            r.data == data,
    {
        JournalLine {
            id,
            journal_id,
            company_id,
            branch_id: None,
            party_type: None,
            party_id: None,
            line_number,
            account_id,
            account_number,
            account_name,
            debit_amount,
            credit_amount,
            currency,
            exchange_rate,
            base_debit_amount,
            base_credit_amount,
            description: None,
            cost_center_id: None,
            project_id: None,
            department_id: None,
            dimensions: None,
            source_type: None,
            source_id: None,
            source_reference: None,
            is_tax_line,
            tax_rate: None,
            tax_base_amount: None,
            related_line_id: None,
            has_quantity,
            quantity: None,
            unit: None,
            unit_price: None,
            is_reconciled,
            reconciliation_id: None,
            reconciled_at: None,
            is_posted,
            ledger_id: None,
            posted_at: None,
            tags,
            data,
        }
    }
}

impl JournalLineBuilder {
    /// The refusal of the first required field left unset, in order.
    pub open spec fn first_missing(self) -> Option<Seq<char>> {
        if self.journal_id is None {
            Some("journal_id is required"@)
        } else if self.company_id is None {
            Some("company_id is required"@)
        } else if self.line_number is None {
            Some("line_number is required"@)
        } else if self.account_id is None {
            Some("account_id is required"@)
        } else if self.account_number is None {
            Some("account_number is required"@)
        } else if self.account_name is None {
            Some("account_name is required"@)
        } else {
            None
        }
    }

    /// Set `journal_id`.
    pub fn journal_id(self, value: u128) -> (r: JournalLineBuilder)
        ensures
            r == (JournalLineBuilder { journal_id: Some(value), ..self }),
    {
        JournalLineBuilder { journal_id: Some(value), ..self }
    }

    /// Set `company_id`.
    pub fn company_id(self, value: u128) -> (r: JournalLineBuilder)
        ensures
            r == (JournalLineBuilder { company_id: Some(value), ..self }),
    {
        JournalLineBuilder { company_id: Some(value), ..self }
    }

    /// Set `branch_id`.
    pub fn branch_id(self, value: u128) -> (r: JournalLineBuilder)
        ensures
            r == (JournalLineBuilder { branch_id: Some(value), ..self }),
    {
        JournalLineBuilder { branch_id: Some(value), ..self }
    }

    /// Set `party_type`.
    pub fn party_type(self, value: String) -> (r: JournalLineBuilder)
        ensures
            r == (JournalLineBuilder { party_type: Some(value), ..self }),
    {
        JournalLineBuilder { party_type: Some(value), ..self }
    }

    /// Set `party_id`.
    pub fn party_id(self, value: u128) -> (r: JournalLineBuilder)
        ensures
            r == (JournalLineBuilder { party_id: Some(value), ..self }),
    {
        JournalLineBuilder { party_id: Some(value), ..self }
    }

    /// Set `line_number`.
    pub fn line_number(self, value: i32) -> (r: JournalLineBuilder)
        ensures
            r == (JournalLineBuilder { line_number: Some(value), ..self }),
    {
        JournalLineBuilder { line_number: Some(value), ..self }
    }

    /// Set `account_id`.
    pub fn account_id(self, value: u128) -> (r: JournalLineBuilder)
        ensures
            r == (JournalLineBuilder { account_id: Some(value), ..self }),
    {
        JournalLineBuilder { account_id: Some(value), ..self }
    }

    /// Set `account_number`.
    pub fn account_number(self, value: String) -> (r: JournalLineBuilder)
        ensures
            r == (JournalLineBuilder { account_number: Some(value), ..self }),
    {
        JournalLineBuilder { account_number: Some(value), ..self }
    }

    /// Set `account_name`.
    pub fn account_name(self, value: String) -> (r: JournalLineBuilder)
        ensures
            r == (JournalLineBuilder { account_name: Some(value), ..self }),
    {
        JournalLineBuilder { account_name: Some(value), ..self }
    }

    /// Set `debit_amount`.
    pub fn debit_amount(self, value: Amount) -> (r: JournalLineBuilder)
        ensures
            r == (JournalLineBuilder { debit_amount: Some(value), ..self }),
    {
        JournalLineBuilder { debit_amount: Some(value), ..self }
    }

    /// Set `credit_amount`.
    pub fn credit_amount(self, value: Amount) -> (r: JournalLineBuilder)
        ensures
            r == (JournalLineBuilder { credit_amount: Some(value), ..self }),
    {
        JournalLineBuilder { credit_amount: Some(value), ..self }
    }

    /// Set `currency`.
    pub fn currency(self, value: String) -> (r: JournalLineBuilder)
        ensures
            r == (JournalLineBuilder { currency: Some(value), ..self }),
    {
        JournalLineBuilder { currency: Some(value), ..self }
    }

    /// Set `exchange_rate`.
    pub fn exchange_rate(self, value: Amount) -> (r: JournalLineBuilder)
        ensures
            r == (JournalLineBuilder { exchange_rate: Some(value), ..self }),
    {
        JournalLineBuilder { exchange_rate: Some(value), ..self }
    }

    /// Set `base_debit_amount`.
    pub fn base_debit_amount(self, value: Amount) -> (r: JournalLineBuilder)
        ensures
            r == (JournalLineBuilder { base_debit_amount: Some(value), ..self }),
    {
        JournalLineBuilder { base_debit_amount: Some(value), ..self }
    }

    /// Set `base_credit_amount`.
    pub fn base_credit_amount(self, value: Amount) -> (r: JournalLineBuilder)
        ensures
            r == (JournalLineBuilder { base_credit_amount: Some(value), ..self }),
    {
        JournalLineBuilder { base_credit_amount: Some(value), ..self }
    }

    /// Set `description`.
    pub fn description(self, value: String) -> (r: JournalLineBuilder)
        ensures
            r == (JournalLineBuilder { description: Some(value), ..self }),
    {
        JournalLineBuilder { description: Some(value), ..self }
    }

    /// Set `cost_center_id`.
    pub fn cost_center_id(self, value: u128) -> (r: JournalLineBuilder)
        ensures
            r == (JournalLineBuilder { cost_center_id: Some(value), ..self }),
    {
        JournalLineBuilder { cost_center_id: Some(value), ..self }
    }

    /// Set `project_id`.
    pub fn project_id(self, value: u128) -> (r: JournalLineBuilder)
        ensures
            r == (JournalLineBuilder { project_id: Some(value), ..self }),
    {
        JournalLineBuilder { project_id: Some(value), ..self }
    }

    /// Set `department_id`.
    pub fn department_id(self, value: u128) -> (r: JournalLineBuilder)
        ensures
            r == (JournalLineBuilder { department_id: Some(value), ..self }),
    {
        JournalLineBuilder { department_id: Some(value), ..self }
    }

    /// Set `dimensions`.
    pub fn dimensions(self, value: String) -> (r: JournalLineBuilder)
        ensures
            r == (JournalLineBuilder { dimensions: Some(value), ..self }),
    {
        JournalLineBuilder { dimensions: Some(value), ..self }
    }

    /// Set `source_type`.
    pub fn source_type(self, value: String) -> (r: JournalLineBuilder)
        ensures
            r == (JournalLineBuilder { source_type: Some(value), ..self }),
    {
        JournalLineBuilder { source_type: Some(value), ..self }
    }

    /// Set `source_id`.
    pub fn source_id(self, value: u128) -> (r: JournalLineBuilder)
        ensures
            r == (JournalLineBuilder { source_id: Some(value), ..self }),
    {
        JournalLineBuilder { source_id: Some(value), ..self }
    }

    /// Set `source_reference`.
    pub fn source_reference(self, value: String) -> (r: JournalLineBuilder)
        ensures
            r == (JournalLineBuilder { source_reference: Some(value), ..self }),
    {
        JournalLineBuilder { source_reference: Some(value), ..self }
    }

    /// Set `is_tax_line`.
    pub fn is_tax_line(self, value: bool) -> (r: JournalLineBuilder)
        ensures
            r == (JournalLineBuilder { is_tax_line: Some(value), ..self }),
    {
        JournalLineBuilder { is_tax_line: Some(value), ..self }
    }

    /// Set `tax_rate`.
    pub fn tax_rate(self, value: Amount) -> (r: JournalLineBuilder)
        ensures
            r == (JournalLineBuilder { tax_rate: Some(value), ..self }),
    {
        JournalLineBuilder { tax_rate: Some(value), ..self }
    }

    /// Set `tax_base_amount`.
    pub fn tax_base_amount(self, value: Amount) -> (r: JournalLineBuilder)
        ensures
            r == (JournalLineBuilder { tax_base_amount: Some(value), ..self }),
    {
        JournalLineBuilder { tax_base_amount: Some(value), ..self }
    }

    /// Set `related_line_id`.
    pub fn related_line_id(self, value: u128) -> (r: JournalLineBuilder)
        ensures
            r == (JournalLineBuilder { related_line_id: Some(value), ..self }),
    {
        JournalLineBuilder { related_line_id: Some(value), ..self }
    }

    /// Set `has_quantity`.
    pub fn has_quantity(self, value: bool) -> (r: JournalLineBuilder)
        ensures
            r == (JournalLineBuilder { has_quantity: Some(value), ..self }),
    {
        JournalLineBuilder { has_quantity: Some(value), ..self }
    }

    /// Set `quantity`.
    pub fn quantity(self, value: Amount) -> (r: JournalLineBuilder)
        ensures
            r == (JournalLineBuilder { quantity: Some(value), ..self }),
    {
        JournalLineBuilder { quantity: Some(value), ..self }
    }

    /// Set `unit`.
    pub fn unit(self, value: String) -> (r: JournalLineBuilder)
        ensures
            r == (JournalLineBuilder { unit: Some(value), ..self }),
    {
        JournalLineBuilder { unit: Some(value), ..self }
    }

    /// Set `unit_price`.
    pub fn unit_price(self, value: Amount) -> (r: JournalLineBuilder)
        ensures
            r == (JournalLineBuilder { unit_price: Some(value), ..self }),
    {
        JournalLineBuilder { unit_price: Some(value), ..self }
    }

    /// Set `is_reconciled`.
    pub fn is_reconciled(self, value: bool) -> (r: JournalLineBuilder)
        ensures
            r == (JournalLineBuilder { is_reconciled: Some(value), ..self }),
    {
        JournalLineBuilder { is_reconciled: Some(value), ..self }
    }

    /// Set `reconciliation_id`.
    pub fn reconciliation_id(self, value: u128) -> (r: JournalLineBuilder)
        ensures
            r == (JournalLineBuilder { reconciliation_id: Some(value), ..self }),
    {
        JournalLineBuilder { reconciliation_id: Some(value), ..self }
    }

    /// Set `reconciled_at`.
    pub fn reconciled_at(self, value: i64) -> (r: JournalLineBuilder)
        ensures
            r == (JournalLineBuilder { reconciled_at: Some(value), ..self }),
    {
        JournalLineBuilder { reconciled_at: Some(value), ..self }
    }

    /// Set `is_posted`.
    pub fn is_posted(self, value: bool) -> (r: JournalLineBuilder)
        ensures
            r == (JournalLineBuilder { is_posted: Some(value), ..self }),
    {
        JournalLineBuilder { is_posted: Some(value), ..self }
    }

    /// Set `ledger_id`.
    pub fn ledger_id(self, value: u128) -> (r: JournalLineBuilder)
        ensures
            r == (JournalLineBuilder { ledger_id: Some(value), ..self }),
    {
        JournalLineBuilder { ledger_id: Some(value), ..self }
    }

    /// Set `posted_at`.
    pub fn posted_at(self, value: i64) -> (r: JournalLineBuilder)
        ensures
            r == (JournalLineBuilder { posted_at: Some(value), ..self }),
    {
        JournalLineBuilder { posted_at: Some(value), ..self }
    }

    /// Set `tags`.
    pub fn tags(self, value: String) -> (r: JournalLineBuilder)
        ensures
            r == (JournalLineBuilder { tags: Some(value), ..self }),
    {
        JournalLineBuilder { tags: Some(value), ..self }
    }

    /// Set `data`.
    pub fn data(self, value: String) -> (r: JournalLineBuilder)
        ensures
            r == (JournalLineBuilder { data: Some(value), ..self }),
    {
        JournalLineBuilder { data: Some(value), ..self }
    }

    /// The journal line, with `id` as its id.
    /// Refused as [`Self::first_missing`] says when a required field is
    /// unset; otherwise every unset field takes its default.
    pub fn build(self, id: u128) -> (r: Result<JournalLine, String>)
        ensures
            self.first_missing() matches Some(msg) ==> (r matches Err(m) && m@ == msg),
            self.first_missing() is None ==> (r matches Ok(e) && {
                &&& e.id == id
                &&& e.journal_id == self.journal_id.unwrap()
                &&& e.company_id == self.company_id.unwrap()
                &&& e.branch_id == self.branch_id
                &&& e.party_type == self.party_type
                &&& e.party_id == self.party_id
                &&& e.line_number == self.line_number.unwrap()
                &&& e.account_id == self.account_id.unwrap()
                &&& e.account_number == self.account_number.unwrap()
                &&& e.account_name == self.account_name.unwrap()
                &&& match self.debit_amount { Some(v) => e.debit_amount == v, None => e.debit_amount == Amount { mantissa: 0, scale: 0 } }
                &&& match self.credit_amount { Some(v) => e.credit_amount == v, None => e.credit_amount == Amount { mantissa: 0, scale: 0 } }
                &&& match self.currency { Some(v) => e.currency == v, None => e.currency@ == "IDR"@ }
                &&& match self.exchange_rate { Some(v) => e.exchange_rate == v, None => e.exchange_rate == Amount { mantissa: 1, scale: 0 } }
                &&& match self.base_debit_amount { Some(v) => e.base_debit_amount == v, None => e.base_debit_amount == Amount { mantissa: 0, scale: 0 } }
                &&& match self.base_credit_amount { Some(v) => e.base_credit_amount == v, None => e.base_credit_amount == Amount { mantissa: 0, scale: 0 } }
                &&& e.description == self.description
                &&& e.cost_center_id == self.cost_center_id
                &&& e.project_id == self.project_id
                &&& e.department_id == self.department_id
                &&& e.dimensions == self.dimensions
                &&& e.source_type == self.source_type
                &&& e.source_id == self.source_id
                &&& e.source_reference == self.source_reference
                &&& match self.is_tax_line { Some(v) => e.is_tax_line == v, None => e.is_tax_line == false }
                &&& e.tax_rate == self.tax_rate
                &&& e.tax_base_amount == self.tax_base_amount
                &&& e.related_line_id == self.related_line_id
                &&& match self.has_quantity { Some(v) => e.has_quantity == v, None => e.has_quantity == false }
                &&& e.quantity == self.quantity
                &&& e.unit == self.unit
                &&& e.unit_price == self.unit_price
                &&& match self.is_reconciled { Some(v) => e.is_reconciled == v, None => e.is_reconciled == false }
                &&& e.reconciliation_id == self.reconciliation_id
                &&& e.reconciled_at == self.reconciled_at
                &&& match self.is_posted { Some(v) => e.is_posted == v, None => e.is_posted == false }
                &&& e.ledger_id == self.ledger_id
                &&& e.posted_at == self.posted_at
                &&& match self.tags { Some(v) => e.tags == v, None => e.tags@ == "[]"@ }
                &&& match self.data { Some(v) => e.data == v, None => e.data@ == "{}"@ }
            }),
    {
        let journal_id: u128 = match self.journal_id {
            Some(v) => v,
            None => {
                return Err(string_from("journal_id is required"));
            },
        };
        let company_id: u128 = match self.company_id {
            Some(v) => v,
            None => {
                return Err(string_from("company_id is required"));
            },
        };
        let line_number: i32 = match self.line_number {
            Some(v) => v,
            None => {
                return Err(string_from("line_number is required"));
            },
        };
        let account_id: u128 = match self.account_id {
            Some(v) => v,
            None => {
                return Err(string_from("account_id is required"));
            },
        };
        let account_number: String = match self.account_number {
            Some(v) => v,
            None => {
                return Err(string_from("account_number is required"));
            },
        };
        let account_name: String = match self.account_name {
            Some(v) => v,
            None => {
                return Err(string_from("account_name is required"));
            },
        };
        Ok(JournalLine {
            id,
            journal_id,
            company_id,
            branch_id: self.branch_id,
            party_type: self.party_type,
            party_id: self.party_id,
            line_number,
            account_id,
            account_number,
            account_name,
            debit_amount: match self.debit_amount {
                Some(v) => v,
                None => Amount::zero(),
            },
            credit_amount: match self.credit_amount {
                Some(v) => v,
                None => Amount::zero(),
            },
            currency: match self.currency {
                Some(v) => v,
                None => string_from("IDR"),
            },
            exchange_rate: match self.exchange_rate {
                Some(v) => v,
                None => Amount::new(1, 0),
            },
            base_debit_amount: match self.base_debit_amount {
                Some(v) => v,
                None => Amount::zero(),
            },
            base_credit_amount: match self.base_credit_amount {
                Some(v) => v,
                None => Amount::zero(),
            },
            description: self.description,
            cost_center_id: self.cost_center_id,
            project_id: self.project_id,
            department_id: self.department_id,
            dimensions: self.dimensions,
            source_type: self.source_type,
            source_id: self.source_id,
            source_reference: self.source_reference,
            is_tax_line: match self.is_tax_line {
                Some(v) => v,
                None => false,
            },
            tax_rate: self.tax_rate,
            tax_base_amount: self.tax_base_amount,
            related_line_id: self.related_line_id,
            has_quantity: match self.has_quantity {
                Some(v) => v,
                None => false,
            },
            quantity: self.quantity,
            unit: self.unit,
            unit_price: self.unit_price,
            is_reconciled: match self.is_reconciled {
                Some(v) => v,
                None => false,
            },
            reconciliation_id: self.reconciliation_id,
            reconciled_at: self.reconciled_at,
            is_posted: match self.is_posted {
                Some(v) => v,
                None => false,
            },
            ledger_id: self.ledger_id,
            posted_at: self.posted_at,
            tags: match self.tags {
                Some(v) => v,
                None => string_from("[]"),
            },
            data: match self.data {
                Some(v) => v,
                None => string_from("{}"),
            },
        })
    }
}

} // verus!
