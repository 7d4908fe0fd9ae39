//! The partial reconcile record and its builder.
//!
//! Ids are the 128-bit values of uuids; decimals are [`Amount`]s; dates are
//! day numbers (day 1 is 0001-01-01); instants are microseconds since
//! 1970-01-01 UTC; JSON values are held as their JSON text.

use crate::amount::Amount;
use crate::entity::reconcile_origin::ReconcileOrigin;
use crate::text::string_from;
use vstd::prelude::*;

verus! {

/// A partial reconcile record.
#[derive(Debug, Clone)]
pub struct PartialReconcile {
    pub id: u128,
    pub company_id: u128,
    pub debit_move_id: u128,
    pub credit_move_id: u128,
    pub full_reconcile_id: Option<u128>,
    pub exchange_move_id: Option<u128>,
    pub amount: Amount,
    pub debit_amount_currency: Option<Amount>,
    pub credit_amount_currency: Option<Amount>,
    pub currency: String,
    pub max_date: i32,
    pub origin: ReconcileOrigin,
    pub source_type: Option<String>,
    pub source_id: Option<u128>,
    pub created_at: i64,
    pub updated_at: i64,
    pub metadata: Option<String>,
}

/// Collects the fields of a partial reconcile; `build` checks the required ones and
/// fills in the defaults.
#[derive(Debug, Clone)]
pub struct PartialReconcileBuilder {
    pub company_id: Option<u128>,
    pub debit_move_id: Option<u128>,
    pub credit_move_id: Option<u128>,
    pub full_reconcile_id: Option<u128>,
    pub exchange_move_id: Option<u128>,
    pub amount: Option<Amount>,
    pub debit_amount_currency: Option<Amount>,
    pub credit_amount_currency: Option<Amount>,
    pub currency: Option<String>,
    pub max_date: Option<i32>,
    pub origin: Option<ReconcileOrigin>,
    pub source_type: Option<String>,
    pub source_id: Option<u128>,
    pub metadata: Option<String>,
}

impl PartialReconcile {
    /// A builder with no field set.
    pub fn builder() -> (r: PartialReconcileBuilder)
        ensures
            r.company_id is None,
            r.debit_move_id is None,
            r.credit_move_id is None,
            r.full_reconcile_id is None,
            r.exchange_move_id is None,
            r.amount is None,
            r.debit_amount_currency is None,
            r.credit_amount_currency is None,
            r.currency is None,
            r.max_date is None,
            r.origin is None,
            r.source_type is None,
            r.source_id is None,
            r.metadata is None,
    {
        PartialReconcileBuilder {
            company_id: None,
            debit_move_id: None,
            credit_move_id: None,
            full_reconcile_id: None,
            exchange_move_id: None,
            amount: None,
            debit_amount_currency: None,
            credit_amount_currency: None,
            currency: None,
            max_date: None,
            origin: None,
            source_type: None,
            source_id: None,
            metadata: None,
        }
    }

    /// A partial reconcile from its required fields; every optional field is unset.
    pub fn new(id: u128, company_id: u128, debit_move_id: u128, credit_move_id: u128, amount: Amount, currency: String, max_date: i32, origin: ReconcileOrigin, now: i64) -> (r: PartialReconcile)
        ensures
            r.id == id,
            r.company_id == company_id,
            r.debit_move_id == debit_move_id,
            r.credit_move_id == credit_move_id,
            r.full_reconcile_id is None,
            r.exchange_move_id is None,
            r.amount == amount,
            r.debit_amount_currency is None,
            r.credit_amount_currency is None,
            r.currency == currency,
            r.max_date == max_date,
            r.origin == origin,
            r.source_type is None,
            r.source_id is None,
            r.created_at == now,
            r.updated_at == now,
            r.metadata is None,
    {
        PartialReconcile {
            id,
            company_id,
            debit_move_id,
            credit_move_id,
            full_reconcile_id: None,
            exchange_move_id: None,
            amount,
            debit_amount_currency: None,
            credit_amount_currency: None,
            currency,
            max_date,
            origin,
            source_type: None,
            source_id: None,
            created_at: now,
            updated_at: now,
            metadata: None,
        }
    }
}

impl PartialReconcileBuilder {
    /// The refusal of the first required field left unset, in order.
    pub open spec fn first_missing(self) -> Option<Seq<char>> {
        if self.company_id is None {
            Some("company_id is required"@)
        } else if self.debit_move_id is None {
            Some("debit_move_id is required"@)
        } else if self.credit_move_id is None {
            Some("credit_move_id is required"@)
        } else if self.amount is None {
            Some("amount is required"@)
        } else if self.max_date is None {
            Some("max_date is required"@)
        } else {
            None
        }
    }

    /// Set `company_id`.
    pub fn company_id(self, value: u128) -> (r: PartialReconcileBuilder)
        ensures
            r == (PartialReconcileBuilder { company_id: Some(value), ..self }),
    {
        PartialReconcileBuilder { company_id: Some(value), ..self }
    }

    /// Set `debit_move_id`.
    pub fn debit_move_id(self, value: u128) -> (r: PartialReconcileBuilder)
        ensures
            r == (PartialReconcileBuilder { debit_move_id: Some(value), ..self }),
    {
        PartialReconcileBuilder { debit_move_id: Some(value), ..self }
    }

    /// Set `credit_move_id`.
    pub fn credit_move_id(self, value: u128) -> (r: PartialReconcileBuilder)
        ensures
            r == (PartialReconcileBuilder { credit_move_id: Some(value), ..self }),
    {
        PartialReconcileBuilder { credit_move_id: Some(value), ..self }
    }

    /// Set `full_reconcile_id`.
    pub fn full_reconcile_id(self, value: u128) -> (r: PartialReconcileBuilder)
        ensures
            r == (PartialReconcileBuilder { full_reconcile_id: Some(value), ..self }),
    {
        PartialReconcileBuilder { full_reconcile_id: Some(value), ..self }
    }

    /// Set `exchange_move_id`.
    pub fn exchange_move_id(self, value: u128) -> (r: PartialReconcileBuilder)
        ensures
            r == (PartialReconcileBuilder { exchange_move_id: Some(value), ..self }),
    {
        PartialReconcileBuilder { exchange_move_id: Some(value), ..self }
    }

    /// Set `amount`.
    pub fn amount(self, value: Amount) -> (r: PartialReconcileBuilder)
        ensures
            r == (PartialReconcileBuilder { amount: Some(value), ..self }),
    {
        PartialReconcileBuilder { amount: Some(value), ..self }
    }

    /// Set `debit_amount_currency`.
    pub fn debit_amount_currency(self, value: Amount) -> (r: PartialReconcileBuilder)
        ensures
            r == (PartialReconcileBuilder { debit_amount_currency: Some(value), ..self }),
    {
        PartialReconcileBuilder { debit_amount_currency: Some(value), ..self }
    }

    /// Set `credit_amount_currency`.
    pub fn credit_amount_currency(self, value: Amount) -> (r: PartialReconcileBuilder)
        ensures
            r == (PartialReconcileBuilder { credit_amount_currency: Some(value), ..self }),
    {
        PartialReconcileBuilder { credit_amount_currency: Some(value), ..self }
    }

    /// Set `currency`.
    pub fn currency(self, value: String) -> (r: PartialReconcileBuilder)
        ensures
            r == (PartialReconcileBuilder { currency: Some(value), ..self }),
    {
        PartialReconcileBuilder { currency: Some(value), ..self }
    }

    /// Set `max_date`.
    pub fn max_date(self, value: i32) -> (r: PartialReconcileBuilder)
        ensures
            r == (PartialReconcileBuilder { max_date: Some(value), ..self }),
    {
        PartialReconcileBuilder { max_date: Some(value), ..self }
    }

    /// Set `origin`.
    pub fn origin(self, value: ReconcileOrigin) -> (r: PartialReconcileBuilder)
        ensures
            r == (PartialReconcileBuilder { origin: Some(value), ..self }),
    {
        PartialReconcileBuilder { origin: Some(value), ..self }
    }

    /// Set `source_type`.
    pub fn source_type(self, value: String) -> (r: PartialReconcileBuilder)
        ensures
            r == (PartialReconcileBuilder { source_type: Some(value), ..self }),
    {
        PartialReconcileBuilder { source_type: Some(value), ..self }
    }

    /// Set `source_id`.
    pub fn source_id(self, value: u128) -> (r: PartialReconcileBuilder)
        ensures
            r == (PartialReconcileBuilder { source_id: Some(value), ..self }),
    {
        PartialReconcileBuilder { source_id: Some(value), ..self }
    }

    /// Set `metadata`.
    pub fn metadata(self, value: String) -> (r: PartialReconcileBuilder)
        ensures
            r == (PartialReconcileBuilder { metadata: Some(value), ..self }),
    {
        PartialReconcileBuilder { metadata: Some(value), ..self }
    }

    /// The partial reconcile, with `id` as its id and `now` as the current instant.
    /// Refused as [`Self::first_missing`] says when a required field is
    /// unset; otherwise every unset field takes its default.
    pub fn build(self, id: u128, now: i64) -> (r: Result<PartialReconcile, String>)
        ensures
            self.first_missing() matches Some(msg) ==> (r matches Err(m) && m@ == msg),
            self.first_missing() is None ==> (r matches Ok(e) && {
                &&& e.id == id
                &&& e.company_id == self.company_id.unwrap()
                &&& e.debit_move_id == self.debit_move_id.unwrap()
                &&& e.credit_move_id == self.credit_move_id.unwrap()
                &&& e.full_reconcile_id == self.full_reconcile_id
                &&& e.exchange_move_id == self.exchange_move_id
                &&& e.amount == self.amount.unwrap()
                &&& e.debit_amount_currency == self.debit_amount_currency
                &&& e.credit_amount_currency == self.credit_amount_currency
                &&& match self.currency { Some(v) => e.currency == v, None => e.currency@ == "IDR"@ }
                &&& e.max_date == self.max_date.unwrap()
                &&& e.origin == (match self.origin { Some(v) => v, None => ReconcileOrigin::Manual })
                &&& e.source_type == self.source_type
                &&& e.source_id == self.source_id
                &&& e.created_at == now
                &&& e.updated_at == now
                &&& e.metadata == self.metadata
            }),
    {
        let company_id: u128 = match self.company_id {
            Some(v) => v,
            None => {
                return Err(string_from("company_id is required"));
            },
        };
        let debit_move_id: u128 = match self.debit_move_id {
            Some(v) => v,
            None => {
                return Err(string_from("debit_move_id is required"));
            },
        };
        let credit_move_id: u128 = match self.credit_move_id {
            Some(v) => v,
            None => {
                return Err(string_from("credit_move_id is required"));
            },
        };
        let amount: Amount = match self.amount {
            Some(v) => v,
            None => {
                return Err(string_from("amount is required"));
            },
        };
        let max_date: i32 = match self.max_date {
            Some(v) => v,
            None => {
                return Err(string_from("max_date is required"));
            },
        };
        Ok(PartialReconcile {
            id,
            company_id,
            debit_move_id,
            credit_move_id,
            full_reconcile_id: self.full_reconcile_id,
            exchange_move_id: self.exchange_move_id,
            amount,
            debit_amount_currency: self.debit_amount_currency,
            credit_amount_currency: self.credit_amount_currency,
            currency: match self.currency {
                Some(v) => v,
                None => string_from("IDR"),
            },
            max_date,
            origin: match self.origin {
                Some(v) => v,
                None => ReconcileOrigin::default(),
            },
            source_type: self.source_type,
            source_id: self.source_id,
            created_at: now,
            updated_at: now,
            metadata: self.metadata,
        })
    }
}

} // verus!
