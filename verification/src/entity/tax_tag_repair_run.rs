//! The tax tag repair run record and its builder.
//!
//! Ids are the 128-bit values of uuids; decimals are [`Amount`]s; dates are
//! day numbers (day 1 is 0001-01-01); instants are microseconds since
//! 1970-01-01 UTC; JSON values are held as their JSON text.

use crate::amount::Amount;
use crate::text::string_from;
use vstd::prelude::*;

verus! {

/// A tax tag repair run record.
#[derive(Debug, Clone)]
pub struct TaxTagRepairRun {
    pub id: u128,
    pub date_from: i32,
    pub date_to: i32,
    pub rules: String,
    pub lines_examined: i64,
    pub lines_retagged: i64,
    pub dry_run: bool,
    pub closed_periods_overridden: String,
    pub actor: Option<u128>,
    pub reason: String,
    pub ran_at: i64,
    pub created_at: i64,
    pub updated_at: i64,
    pub metadata: String,
}

/// Collects the fields of a tax tag repair run; `build` checks the required ones and
/// fills in the defaults.
#[derive(Debug, Clone)]
pub struct TaxTagRepairRunBuilder {
    pub date_from: Option<i32>,
    pub date_to: Option<i32>,
    pub rules: Option<String>,
    pub lines_examined: Option<i64>,
    pub lines_retagged: Option<i64>,
    pub dry_run: Option<bool>,
    pub closed_periods_overridden: Option<String>,
    pub actor: Option<u128>,
    pub reason: Option<String>,
    pub ran_at: Option<i64>,
    pub metadata: Option<String>,
}

impl TaxTagRepairRun {
    /// A builder with no field set.
    pub fn builder() -> (r: TaxTagRepairRunBuilder)
        ensures
            r.date_from is None,
            r.date_to is None,
            r.rules is None,
            r.lines_examined is None,
            r.lines_retagged is None,
            r.dry_run is None,
            r.closed_periods_overridden is None,
            r.actor is None,
            r.reason is None,
            r.ran_at is None,
            r.metadata is None,
    {
        TaxTagRepairRunBuilder {
            date_from: None,
            date_to: None,
            rules: None,
            lines_examined: None,
            lines_retagged: None,
            dry_run: None,
            closed_periods_overridden: None,
            actor: None,
            reason: None,
            ran_at: None,
            metadata: None,
        }
    }

    /// A tax tag repair run from its required fields; every optional field is unset.
    pub fn new(id: u128, date_from: i32, date_to: i32, rules: String, lines_examined: i64, lines_retagged: i64, dry_run: bool, closed_periods_overridden: String, reason: String, ran_at: i64, metadata: String, now: i64) -> (r: TaxTagRepairRun)
        ensures
            r.id == id,
            r.date_from == date_from,
            r.date_to == date_to,
            r.rules == rules,
            r.lines_examined == lines_examined,
            r.lines_retagged == lines_retagged,
            r.dry_run == dry_run,
            r.closed_periods_overridden == closed_periods_overridden,
            r.actor is None,
            r.reason == reason,
            r.ran_at == ran_at,
            r.created_at == now,
            r.updated_at == now,
            r.metadata == metadata,
    {
        TaxTagRepairRun {
            id,
            date_from,
            date_to,
            rules,
            lines_examined,
            lines_retagged,
            dry_run,
            closed_periods_overridden,
            actor: None,
            reason,
            ran_at,
            created_at: now,
            updated_at: now,
            metadata,
        }
    }
}

impl TaxTagRepairRunBuilder {
    /// The refusal of the first required field left unset, in order.
    pub open spec fn first_missing(self) -> Option<Seq<char>> {
        if self.date_from is None {
            Some("date_from is required"@)
        } else if self.date_to is None {
            Some("date_to is required"@)
        } else if self.rules is None {
            Some("rules is required"@)
        } else if self.lines_examined is None {
            Some("lines_examined is required"@)
        } else if self.lines_retagged is None {
            Some("lines_retagged is required"@)
        } else if self.reason is None {
            Some("reason is required"@)
        } else {
            None
        }
    }

    /// Set `date_from`.
    pub fn date_from(self, value: i32) -> (r: TaxTagRepairRunBuilder)
        ensures
            r == (TaxTagRepairRunBuilder { date_from: Some(value), ..self }),
    {
        TaxTagRepairRunBuilder { date_from: Some(value), ..self }
    }

    /// Set `date_to`.
    pub fn date_to(self, value: i32) -> (r: TaxTagRepairRunBuilder)
        ensures
            r == (TaxTagRepairRunBuilder { date_to: Some(value), ..self }),
    {
        TaxTagRepairRunBuilder { date_to: Some(value), ..self }
    }

    /// Set `rules`.
    pub fn rules(self, value: String) -> (r: TaxTagRepairRunBuilder)
        ensures
            r == (TaxTagRepairRunBuilder { rules: Some(value), ..self }),
    {
        TaxTagRepairRunBuilder { rules: Some(value), ..self }
    }

    /// Set `lines_examined`.
    pub fn lines_examined(self, value: i64) -> (r: TaxTagRepairRunBuilder)
        ensures
            r == (TaxTagRepairRunBuilder { lines_examined: Some(value), ..self }),
    {
        TaxTagRepairRunBuilder { lines_examined: Some(value), ..self }
    }

    /// Set `lines_retagged`.
    pub fn lines_retagged(self, value: i64) -> (r: TaxTagRepairRunBuilder)
        ensures
            r == (TaxTagRepairRunBuilder { lines_retagged: Some(value), ..self }),
    {
        TaxTagRepairRunBuilder { lines_retagged: Some(value), ..self }
    }

    /// Set `dry_run`.
    pub fn dry_run(self, value: bool) -> (r: TaxTagRepairRunBuilder)
        ensures
            r == (TaxTagRepairRunBuilder { dry_run: Some(value), ..self }),
    {
        TaxTagRepairRunBuilder { dry_run: Some(value), ..self }
    }

    /// Set `closed_periods_overridden`.
    pub fn closed_periods_overridden(self, value: String) -> (r: TaxTagRepairRunBuilder)
        ensures
            r == (TaxTagRepairRunBuilder { closed_periods_overridden: Some(value), ..self }),
    {
        TaxTagRepairRunBuilder { closed_periods_overridden: Some(value), ..self }
    }

    /// Set `actor`.
    pub fn actor(self, value: u128) -> (r: TaxTagRepairRunBuilder)
        ensures
            r == (TaxTagRepairRunBuilder { actor: Some(value), ..self }),
    {
        TaxTagRepairRunBuilder { actor: Some(value), ..self }
    }

    /// Set `reason`.
    pub fn reason(self, value: String) -> (r: TaxTagRepairRunBuilder)
        ensures
            r == (TaxTagRepairRunBuilder { reason: Some(value), ..self }),
    {
        TaxTagRepairRunBuilder { reason: Some(value), ..self }
    }

    /// Set `ran_at`.
    pub fn ran_at(self, value: i64) -> (r: TaxTagRepairRunBuilder)
        ensures
            r == (TaxTagRepairRunBuilder { ran_at: Some(value), ..self }),
    {
        TaxTagRepairRunBuilder { ran_at: Some(value), ..self }
    }

    /// Set `metadata`.
    pub fn metadata(self, value: String) -> (r: TaxTagRepairRunBuilder)
        ensures
            r == (TaxTagRepairRunBuilder { metadata: Some(value), ..self }),
    {
        TaxTagRepairRunBuilder { metadata: Some(value), ..self }
    }

    /// The tax tag repair run, with `id` as its id and `now` as the current instant.
    /// Refused as [`Self::first_missing`] says when a required field is
    /// unset; otherwise every unset field takes its default.
    pub fn build(self, id: u128, now: i64) -> (r: Result<TaxTagRepairRun, String>)
        ensures
            self.first_missing() matches Some(msg) ==> (r matches Err(m) && m@ == msg),
            self.first_missing() is None ==> (r matches Ok(e) && {
                &&& e.id == id
                &&& e.date_from == self.date_from.unwrap()
                &&& e.date_to == self.date_to.unwrap()
                &&& e.rules == self.rules.unwrap()
                &&& e.lines_examined == self.lines_examined.unwrap()
                &&& e.lines_retagged == self.lines_retagged.unwrap()
                &&& match self.dry_run { Some(v) => e.dry_run == v, None => e.dry_run == false }
                &&& match self.closed_periods_overridden { Some(v) => e.closed_periods_overridden == v, None => e.closed_periods_overridden@ == "[]"@ }
                &&& e.actor == self.actor
                &&& e.reason == self.reason.unwrap()
                &&& match self.ran_at { Some(v) => e.ran_at == v, None => e.ran_at == now }
                &&& e.created_at == now
                &&& e.updated_at == now
                &&& match self.metadata { Some(v) => e.metadata == v, None => e.metadata@ == "{}"@ }
            }),
    {
        let date_from: i32 = match self.date_from {
            Some(v) => v,
            None => {
                return Err(string_from("date_from is required"));
            },
        };
        let date_to: i32 = match self.date_to {
            Some(v) => v,
            None => {
                return Err(string_from("date_to is required"));
            },
        };
        let rules: String = match self.rules {
            Some(v) => v,
            None => {
                return Err(string_from("rules is required"));
            },
        };
        let lines_examined: i64 = match self.lines_examined {
            Some(v) => v,
            None => {
                return Err(string_from("lines_examined is required"));
            },
        };
        let lines_retagged: i64 = match self.lines_retagged {
            Some(v) => v,
            None => {
                return Err(string_from("lines_retagged is required"));
            },
        };
        let reason: String = match self.reason {
            Some(v) => v,
            None => {
                return Err(string_from("reason is required"));
            },
        };
        Ok(TaxTagRepairRun {
            id,
            date_from,
            date_to,
            rules,
            lines_examined,
            lines_retagged,
            dry_run: match self.dry_run {
                Some(v) => v,
                None => false,
            },
            closed_periods_overridden: match self.closed_periods_overridden {
                Some(v) => v,
                None => string_from("[]"),
            },
            actor: self.actor,
            reason,
            ran_at: match self.ran_at {
                Some(v) => v,
                None => now,
            },
            created_at: now,
            updated_at: now,
            metadata: match self.metadata {
                Some(v) => v,
                None => string_from("{}"),
            },
        })
    }
}

} // verus!
