//! The printed check record and its builder.
//!
//! Ids are the 128-bit values of uuids; decimals are [`Amount`]s; dates are
//! day numbers (day 1 is 0001-01-01); instants are microseconds since
//! 1970-01-01 UTC; JSON values are held as their JSON text.

use crate::amount::Amount;
use crate::text::string_from;
use vstd::prelude::*;

verus! {

/// A printed check record.
#[derive(Debug, Clone)]
pub struct PrintedCheck {
    pub id: u128,
    pub bank_account_id: u128,
    pub payment_id: u128,
    pub payment_number: Option<String>,
    pub check_number: String,
    pub amount: Amount,
    pub payee_name: Option<String>,
    pub status: String,
    pub printed_at: i64,
    pub printed_by: Option<u128>,
    pub created_at: i64,
    pub updated_at: i64,
    pub metadata: String,
}

/// Collects the fields of a printed check; `build` checks the required ones and
/// fills in the defaults.
#[derive(Debug, Clone)]
pub struct PrintedCheckBuilder {
    pub bank_account_id: Option<u128>,
    pub payment_id: Option<u128>,
    pub payment_number: Option<String>,
    pub check_number: Option<String>,
    pub amount: Option<Amount>,
    pub payee_name: Option<String>,
    pub status: Option<String>,
    pub printed_at: Option<i64>,
    pub printed_by: Option<u128>,
    pub metadata: Option<String>,
}

impl PrintedCheck {
    /// A builder with no field set.
    pub fn builder() -> (r: PrintedCheckBuilder)
        ensures
            r.bank_account_id is None,
            r.payment_id is None,
            r.payment_number is None,
            r.check_number is None,
            r.amount is None,
            r.payee_name is None,
            r.status is None,
            r.printed_at is None,
            r.printed_by is None,
            r.metadata is None,
    {
        PrintedCheckBuilder {
            bank_account_id: None,
            payment_id: None,
            payment_number: None,
            check_number: None,
            amount: None,
            payee_name: None,
            status: None,
            printed_at: None,
            printed_by: None,
            metadata: None,
        }
    }

    /// A printed check from its required fields; every optional field is unset.
    pub fn new(id: u128, bank_account_id: u128, payment_id: u128, check_number: String, amount: Amount, status: String, printed_at: i64, metadata: String, now: i64) -> (r: PrintedCheck)
        ensures
            r.id == id,
            r.bank_account_id == bank_account_id,
            r.payment_id == payment_id,
            r.payment_number is None,
            r.check_number == check_number,
            r.amount == amount,
            r.payee_name is None,
            r.status == status,
            r.printed_at == printed_at,
            r.printed_by is None,
            r.created_at == now,
            r.updated_at == now,
            r.metadata == metadata,
    {
        PrintedCheck {
            id,
            bank_account_id,
            payment_id,
            payment_number: None,
            check_number,
            amount,
            payee_name: None,
            status,
            printed_at,
            printed_by: None,
            created_at: now,
            updated_at: now,
            metadata,
        }
    }
}

impl PrintedCheckBuilder {
    /// The refusal of the first required field left unset, in order.
    pub open spec fn first_missing(self) -> Option<Seq<char>> {
        if self.bank_account_id is None {
            Some("bank_account_id is required"@)
        } else if self.payment_id is None {
            Some("payment_id is required"@)
        } else if self.check_number is None {
            Some("check_number is required"@)
        } else if self.amount is None {
            Some("amount is required"@)
        } else {
            None
        }
    }

    /// Set `bank_account_id`.
    pub fn bank_account_id(self, value: u128) -> (r: PrintedCheckBuilder)
        ensures
            r == (PrintedCheckBuilder { bank_account_id: Some(value), ..self }),
    {
        PrintedCheckBuilder { bank_account_id: Some(value), ..self }
    }

    /// Set `payment_id`.
    pub fn payment_id(self, value: u128) -> (r: PrintedCheckBuilder)
        ensures
            r == (PrintedCheckBuilder { payment_id: Some(value), ..self }),
    {
        PrintedCheckBuilder { payment_id: Some(value), ..self }
    }

    /// Set `payment_number`.
    pub fn payment_number(self, value: String) -> (r: PrintedCheckBuilder)
        ensures
            r == (PrintedCheckBuilder { payment_number: Some(value), ..self }),
    {
        PrintedCheckBuilder { payment_number: Some(value), ..self }
    }

    /// Set `check_number`.
    pub fn check_number(self, value: String) -> (r: PrintedCheckBuilder)
        ensures
            r == (PrintedCheckBuilder { check_number: Some(value), ..self }),
    {
        PrintedCheckBuilder { check_number: Some(value), ..self }
    }

    /// Set `amount`.
    pub fn amount(self, value: Amount) -> (r: PrintedCheckBuilder)
        ensures
            r == (PrintedCheckBuilder { amount: Some(value), ..self }),
    {
        PrintedCheckBuilder { amount: Some(value), ..self }
    }

    /// Set `payee_name`.
    pub fn payee_name(self, value: String) -> (r: PrintedCheckBuilder)
        ensures
            r == (PrintedCheckBuilder { payee_name: Some(value), ..self }),
    {
        PrintedCheckBuilder { payee_name: Some(value), ..self }
    }

    /// Set `status`.
    pub fn status(self, value: String) -> (r: PrintedCheckBuilder)
        ensures
            r == (PrintedCheckBuilder { status: Some(value), ..self }),
    {
        PrintedCheckBuilder { status: Some(value), ..self }
    }

    /// Set `printed_at`.
    pub fn printed_at(self, value: i64) -> (r: PrintedCheckBuilder)
        ensures
            r == (PrintedCheckBuilder { printed_at: Some(value), ..self }),
    {
        PrintedCheckBuilder { printed_at: Some(value), ..self }
    }

    /// Set `printed_by`.
    pub fn printed_by(self, value: u128) -> (r: PrintedCheckBuilder)
        ensures
            r == (PrintedCheckBuilder { printed_by: Some(value), ..self }),
    {
        PrintedCheckBuilder { printed_by: Some(value), ..self }
    }

    /// Set `metadata`.
    pub fn metadata(self, value: String) -> (r: PrintedCheckBuilder)
        ensures
            r == (PrintedCheckBuilder { metadata: Some(value), ..self }),
    {
        PrintedCheckBuilder { metadata: Some(value), ..self }
    }

    /// The printed check, with `id` as its id and `now` as the current instant.
    /// Refused as [`Self::first_missing`] says when a required field is
    /// unset; otherwise every unset field takes its default.
    pub fn build(self, id: u128, now: i64) -> (r: Result<PrintedCheck, String>)
        ensures
            self.first_missing() matches Some(msg) ==> (r matches Err(m) && m@ == msg),
            self.first_missing() is None ==> (r matches Ok(e) && {
                &&& e.id == id
                &&& e.bank_account_id == self.bank_account_id.unwrap()
                &&& e.payment_id == self.payment_id.unwrap()
                &&& e.payment_number == self.payment_number
                &&& e.check_number == self.check_number.unwrap()
                &&& e.amount == self.amount.unwrap()
                &&& e.payee_name == self.payee_name
                &&& match self.status { Some(v) => e.status == v, None => e.status@ == Seq::<char>::empty() }
                &&& match self.printed_at { Some(v) => e.printed_at == v, None => e.printed_at == now }
                &&& e.printed_by == self.printed_by
                &&& e.created_at == now
                &&& e.updated_at == now
                &&& match self.metadata { Some(v) => e.metadata == v, None => e.metadata@ == "{}"@ }
            }),
    {
        let bank_account_id: u128 = match self.bank_account_id {
            Some(v) => v,
            None => {
                return Err(string_from("bank_account_id is required"));
            },
        };
        let payment_id: u128 = match self.payment_id {
            Some(v) => v,
            None => {
                return Err(string_from("payment_id is required"));
            },
        };
        let check_number: String = match self.check_number {
            Some(v) => v,
            None => {
                return Err(string_from("check_number is required"));
            },
        };
        let amount: Amount = match self.amount {
            Some(v) => v,
            None => {
                return Err(string_from("amount is required"));
            },
        };
        Ok(PrintedCheck {
            id,
            bank_account_id,
            payment_id,
            payment_number: self.payment_number,
            check_number,
            amount,
            payee_name: self.payee_name,
            status: match self.status {
                Some(v) => v,
                None => String::new(),
            },
            printed_at: match self.printed_at {
                Some(v) => v,
                None => now,
            },
            printed_by: self.printed_by,
            created_at: now,
            updated_at: now,
            metadata: match self.metadata {
                Some(v) => v,
                None => string_from("{}"),
            },
        })
    }
}

} // verus!
