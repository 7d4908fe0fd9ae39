//! The full reconcile record and its builder.
//!
//! Ids are the 128-bit values of uuids; decimals are [`Amount`]s; dates are
//! day numbers (day 1 is 0001-01-01); instants are microseconds since
//! 1970-01-01 UTC; JSON values are held as their JSON text.

use crate::amount::Amount;
use crate::text::string_from;
use vstd::prelude::*;

verus! {

/// A full reconcile record.
#[derive(Debug, Clone)]
pub struct FullReconcile {
    pub id: u128,
    pub company_id: u128,
    pub exchange_total: Amount,
    pub reconciled_at: i64,
    pub created_at: i64,
    pub updated_at: i64,
    pub metadata: Option<String>,
}

/// Collects the fields of a full reconcile; `build` checks the required ones and
/// fills in the defaults.
#[derive(Debug, Clone)]
pub struct FullReconcileBuilder {
    pub company_id: Option<u128>,
    pub exchange_total: Option<Amount>,
    pub reconciled_at: Option<i64>,
    pub metadata: Option<String>,
}

impl FullReconcile {
    /// A builder with no field set.
    pub fn builder() -> (r: FullReconcileBuilder)
        ensures
            r.company_id is None,
            r.exchange_total is None,
            r.reconciled_at is None,
            r.metadata is None,
    {
        FullReconcileBuilder {
            company_id: None,
            exchange_total: None,
            reconciled_at: None,
            metadata: None,
        }
    }

    /// A full reconcile from its required fields; every optional field is unset.
    pub fn new(id: u128, company_id: u128, exchange_total: Amount, reconciled_at: i64, now: i64) -> (r: FullReconcile)
        ensures
            r.id == id,
            r.company_id == company_id,
            r.exchange_total == exchange_total,
            r.reconciled_at == reconciled_at,
            r.created_at == now,
            r.updated_at == now,
            r.metadata is None,
    {
        FullReconcile {
            id,
            company_id,
            exchange_total,
            reconciled_at,
            created_at: now,
            updated_at: now,
            metadata: None,
        }
    }
}

impl FullReconcileBuilder {
    /// The refusal of the first required field left unset, in order.
    pub open spec fn first_missing(self) -> Option<Seq<char>> {
        if self.company_id is None {
            Some("company_id is required"@)
        } else {
            None
        }
    }

    /// Set `company_id`.
    pub fn company_id(self, value: u128) -> (r: FullReconcileBuilder)
        ensures
            r == (FullReconcileBuilder { company_id: Some(value), ..self }),
    {
        FullReconcileBuilder { company_id: Some(value), ..self }
    }

    /// Set `exchange_total`.
    pub fn exchange_total(self, value: Amount) -> (r: FullReconcileBuilder)
        ensures
            r == (FullReconcileBuilder { exchange_total: Some(value), ..self }),
    {
        FullReconcileBuilder { exchange_total: Some(value), ..self }
    }

    /// Set `reconciled_at`.
    pub fn reconciled_at(self, value: i64) -> (r: FullReconcileBuilder)
        ensures
            r == (FullReconcileBuilder { reconciled_at: Some(value), ..self }),
    {
        FullReconcileBuilder { reconciled_at: Some(value), ..self }
    }

    /// Set `metadata`.
    pub fn metadata(self, value: String) -> (r: FullReconcileBuilder)
        ensures
            r == (FullReconcileBuilder { metadata: Some(value), ..self }),
    {
        FullReconcileBuilder { metadata: Some(value), ..self }
    }

    /// The full reconcile, with `id` as its id and `now` as the current instant.
    /// Refused as [`Self::first_missing`] says when a required field is
    /// unset; otherwise every unset field takes its default.
    pub fn build(self, id: u128, now: i64) -> (r: Result<FullReconcile, String>)
        ensures
            self.first_missing() matches Some(msg) ==> (r matches Err(m) && m@ == msg),
            self.first_missing() is None ==> (r matches Ok(e) && {
                &&& e.id == id
                &&& e.company_id == self.company_id.unwrap()
                &&& match self.exchange_total { Some(v) => e.exchange_total == v, None => e.exchange_total == Amount { mantissa: 0, scale: 0 } }
                &&& match self.reconciled_at { Some(v) => e.reconciled_at == v, None => e.reconciled_at == now }
                &&& e.created_at == now
                &&& e.updated_at == now
                &&& e.metadata == self.metadata
            }),
    {
        let company_id: u128 = match self.company_id {
            Some(v) => v,
            None => {
                return Err(string_from("company_id is required"));
            },
        };
        Ok(FullReconcile {
            id,
            company_id,
            exchange_total: match self.exchange_total {
                Some(v) => v,
                None => Amount::zero(),
            },
            reconciled_at: match self.reconciled_at {
                Some(v) => v,
                None => now,
            },
            created_at: now,
            updated_at: now,
            metadata: self.metadata,
        })
    }
}

} // verus!
