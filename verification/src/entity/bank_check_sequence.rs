//! The bank check sequence record and its builder.
//!
//! Ids are the 128-bit values of uuids; decimals are [`Amount`]s; dates are
//! day numbers (day 1 is 0001-01-01); instants are microseconds since
//! 1970-01-01 UTC; JSON values are held as their JSON text.

use crate::amount::Amount;
use crate::text::string_from;
use vstd::prelude::*;

verus! {

/// A bank check sequence record.
#[derive(Debug, Clone)]
pub struct BankCheckSequence {
    pub id: u128,
    pub bank_account_id: u128,
    pub numbering_mode: String,
    pub next_number: i64,
    pub created_at: i64,
    pub updated_at: i64,
    pub metadata: String,
}

/// Collects the fields of a bank check sequence; `build` checks the required ones and
/// fills in the defaults.
#[derive(Debug, Clone)]
pub struct BankCheckSequenceBuilder {
    pub bank_account_id: Option<u128>,
    pub numbering_mode: Option<String>,
    pub next_number: Option<i64>,
    pub metadata: Option<String>,
}

impl BankCheckSequence {
    /// A builder with no field set.
    pub fn builder() -> (r: BankCheckSequenceBuilder)
        ensures
            r.bank_account_id is None,
            r.numbering_mode is None,
            r.next_number is None,
            r.metadata is None,
    {
        BankCheckSequenceBuilder {
            bank_account_id: None,
            numbering_mode: None,
            next_number: None,
            metadata: None,
        }
    }

    /// A bank check sequence from its required fields; every optional field is unset.
    pub fn new(id: u128, bank_account_id: u128, numbering_mode: String, next_number: i64, metadata: String, now: i64) -> (r: BankCheckSequence)
        ensures
            r.id == id,
            r.bank_account_id == bank_account_id,
            r.numbering_mode == numbering_mode,
            r.next_number == next_number,
            r.created_at == now,
            r.updated_at == now,
            r.metadata == metadata,
    {
        BankCheckSequence {
            id,
            bank_account_id,
            numbering_mode,
            next_number,
            created_at: now,
            updated_at: now,
            metadata,
        }
    }
}

impl BankCheckSequenceBuilder {
    /// The refusal of the first required field left unset, in order.
    pub open spec fn first_missing(self) -> Option<Seq<char>> {
        if self.bank_account_id is None {
            Some("bank_account_id is required"@)
        } else {
            None
        }
    }

    /// Set `bank_account_id`.
    pub fn bank_account_id(self, value: u128) -> (r: BankCheckSequenceBuilder)
        ensures
            r == (BankCheckSequenceBuilder { bank_account_id: Some(value), ..self }),
    {
        BankCheckSequenceBuilder { bank_account_id: Some(value), ..self }
    }

    /// Set `numbering_mode`.
    pub fn numbering_mode(self, value: String) -> (r: BankCheckSequenceBuilder)
        ensures
            r == (BankCheckSequenceBuilder { numbering_mode: Some(value), ..self }),
    {
        BankCheckSequenceBuilder { numbering_mode: Some(value), ..self }
    }

    /// Set `next_number`.
    pub fn next_number(self, value: i64) -> (r: BankCheckSequenceBuilder)
        ensures
            r == (BankCheckSequenceBuilder { next_number: Some(value), ..self }),
    {
        BankCheckSequenceBuilder { next_number: Some(value), ..self }
    }

    /// Set `metadata`.
    pub fn metadata(self, value: String) -> (r: BankCheckSequenceBuilder)
        ensures
            r == (BankCheckSequenceBuilder { metadata: Some(value), ..self }),
    {
        BankCheckSequenceBuilder { metadata: Some(value), ..self }
    }

    /// The bank check sequence, with `id` as its id and `now` as the current instant.
    /// Refused as [`Self::first_missing`] says when a required field is
    /// unset; otherwise every unset field takes its default.
    pub fn build(self, id: u128, now: i64) -> (r: Result<BankCheckSequence, String>)
        ensures
            self.first_missing() matches Some(msg) ==> (r matches Err(m) && m@ == msg),
            self.first_missing() is None ==> (r matches Ok(e) && {
                &&& e.id == id
                &&& e.bank_account_id == self.bank_account_id.unwrap()
                &&& match self.numbering_mode { Some(v) => e.numbering_mode == v, None => e.numbering_mode@ == Seq::<char>::empty() }
                &&& match self.next_number { Some(v) => e.next_number == v, None => e.next_number == 1 }
                &&& e.created_at == now
                &&& e.updated_at == now
                &&& match self.metadata { Some(v) => e.metadata == v, None => e.metadata@ == "{}"@ }
            }),
    {
        let bank_account_id: u128 = match self.bank_account_id {
            Some(v) => v,
            None => {
                return Err(string_from("bank_account_id is required"));
            },
        };
        Ok(BankCheckSequence {
            id,
            bank_account_id,
            numbering_mode: match self.numbering_mode {
                Some(v) => v,
                None => String::new(),
            },
            next_number: match self.next_number {
                Some(v) => v,
                None => 1,
            },
            created_at: now,
            updated_at: now,
            metadata: match self.metadata {
                Some(v) => v,
                None => string_from("{}"),
            },
        })
    }
}

} // verus!
