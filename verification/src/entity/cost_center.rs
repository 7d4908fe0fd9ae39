//! The cost center record and its builder.
//!
//! Ids are the 128-bit values of uuids; decimals are [`Amount`]s; dates are
//! day numbers (day 1 is 0001-01-01); instants are microseconds since
//! 1970-01-01 UTC; JSON values are held as their JSON text.

use crate::amount::Amount;
use crate::text::string_from;
use vstd::prelude::*;

verus! {

/// A cost center record.
#[derive(Debug, Clone)]
pub struct CostCenter {
    pub id: u128,
    pub company_id: u128,
    pub code: String,
    pub name: String,
    pub name_en: Option<String>,
    pub description: Option<String>,
    pub parent_id: Option<u128>,
    pub level: i32,
    pub is_group: bool,
    pub branch_id: Option<u128>,
    pub is_active: bool,
    pub sort_order: i32,
    /// The audit metadata (creation, update and deletion stamps), as JSON text.
    pub metadata: String,
}

/// Collects the fields of a cost center; `build` checks the required ones and
/// fills in the defaults.
#[derive(Debug, Clone)]
pub struct CostCenterBuilder {
    pub company_id: Option<u128>,
    pub code: Option<String>,
    pub name: Option<String>,
    pub name_en: Option<String>,
    pub description: Option<String>,
    pub parent_id: Option<u128>,
    pub level: Option<i32>,
    pub is_group: Option<bool>,
    pub branch_id: Option<u128>,
    pub is_active: Option<bool>,
    pub sort_order: Option<i32>,
}

impl CostCenter {
    /// A builder with no field set.
    pub fn builder() -> (r: CostCenterBuilder)
        ensures
            r.company_id is None,
            r.code is None,
            r.name is None,
            r.name_en is None,
            r.description is None,
            r.parent_id is None,
            r.level is None,
            r.is_group is None,
            r.branch_id is None,
            r.is_active is None,
            r.sort_order is None,
    {
        CostCenterBuilder {
            company_id: None,
            code: None,
            name: None,
            name_en: None,
            description: None,
            parent_id: None,
            level: None,
            is_group: None,
            branch_id: None,
            is_active: None,
            sort_order: None,
        }
    }

    /// A cost center from its required fields; every optional field is unset.
    pub fn new(id: u128, company_id: u128, code: String, name: String, level: i32, is_group: bool, is_active: bool, sort_order: i32, metadata: String) -> (r: CostCenter)
        ensures
            r.id == id,
            r.company_id == company_id,
            r.code == code,
            r.name == name,
            r.name_en is None,
            r.description is None,
            r.parent_id is None,
            r.level == level,
            r.is_group == is_group,
            r.branch_id is None,
            r.is_active == is_active,
            r.sort_order == sort_order,
            r.metadata == metadata,
    {
        CostCenter {
            id,
            company_id,
            code,
            name,
            name_en: None,
            description: None,
            parent_id: None,
            level,
            is_group,
            branch_id: None,
            is_active,
            sort_order,
            metadata,
        }
    }
}

impl CostCenterBuilder {
    /// The refusal of the first required field left unset, in order.
    pub open spec fn first_missing(self) -> Option<Seq<char>> {
        if self.company_id is None {
            Some("company_id is required"@)
        } else if self.code is None {
            Some("code is required"@)
        } else if self.name is None {
            Some("name is required"@)
        } else {
            None
        }
    }

    /// Set `company_id`.
    pub fn company_id(self, value: u128) -> (r: CostCenterBuilder)
        ensures
            r == (CostCenterBuilder { company_id: Some(value), ..self }),
    {
        CostCenterBuilder { company_id: Some(value), ..self }
    }

    /// Set `code`.
    pub fn code(self, value: String) -> (r: CostCenterBuilder)
        ensures
            r == (CostCenterBuilder { code: Some(value), ..self }),
    {
        CostCenterBuilder { code: Some(value), ..self }
    }

    /// Set `name`.
    pub fn name(self, value: String) -> (r: CostCenterBuilder)
        ensures
            r == (CostCenterBuilder { name: Some(value), ..self }),
    {
        CostCenterBuilder { name: Some(value), ..self }
    }

    /// Set `name_en`.
    pub fn name_en(self, value: String) -> (r: CostCenterBuilder)
        ensures
            r == (CostCenterBuilder { name_en: Some(value), ..self }),
    {
        CostCenterBuilder { name_en: Some(value), ..self }
    }

    /// Set `description`.
    pub fn description(self, value: String) -> (r: CostCenterBuilder)
        ensures
            r == (CostCenterBuilder { description: Some(value), ..self }),
    {
        CostCenterBuilder { description: Some(value), ..self }
    }

    /// Set `parent_id`.
    pub fn parent_id(self, value: u128) -> (r: CostCenterBuilder)
        ensures
            r == (CostCenterBuilder { parent_id: Some(value), ..self }),
    {
        CostCenterBuilder { parent_id: Some(value), ..self }
    }

    /// Set `level`.
    pub fn level(self, value: i32) -> (r: CostCenterBuilder)
        ensures
            r == (CostCenterBuilder { level: Some(value), ..self }),
    {
        CostCenterBuilder { level: Some(value), ..self }
    }

    /// Set `is_group`.
    pub fn is_group(self, value: bool) -> (r: CostCenterBuilder)
        ensures
            r == (CostCenterBuilder { is_group: Some(value), ..self }),
    {
        CostCenterBuilder { is_group: Some(value), ..self }
    }

    /// Set `branch_id`.
    pub fn branch_id(self, value: u128) -> (r: CostCenterBuilder)
        ensures
            r == (CostCenterBuilder { branch_id: Some(value), ..self }),
    {
        CostCenterBuilder { branch_id: Some(value), ..self }
    }

    /// Set `is_active`.
    pub fn is_active(self, value: bool) -> (r: CostCenterBuilder)
        ensures
            r == (CostCenterBuilder { is_active: Some(value), ..self }),
    {
        CostCenterBuilder { is_active: Some(value), ..self }
    }

    /// Set `sort_order`.
    pub fn sort_order(self, value: i32) -> (r: CostCenterBuilder)
        ensures
            r == (CostCenterBuilder { sort_order: Some(value), ..self }),
    {
        CostCenterBuilder { sort_order: Some(value), ..self }
    }

    /// The cost center, with `id` as its id, `metadata` as its starting audit metadata.
    /// Refused as [`Self::first_missing`] says when a required field is
    /// unset; otherwise every unset field takes its default.
    pub fn build(self, id: u128, metadata: String) -> (r: Result<CostCenter, String>)
        ensures
            self.first_missing() matches Some(msg) ==> (r matches Err(m) && m@ == msg),
            self.first_missing() is None ==> (r matches Ok(e) && {
                &&& e.id == id
                &&& e.company_id == self.company_id.unwrap()
                &&& e.code == self.code.unwrap()
                &&& e.name == self.name.unwrap()
                &&& e.name_en == self.name_en
                &&& e.description == self.description
                &&& e.parent_id == self.parent_id
                &&& match self.level { Some(v) => e.level == v, None => e.level == 0 }
                &&& match self.is_group { Some(v) => e.is_group == v, None => e.is_group == false }
                &&& e.branch_id == self.branch_id
                &&& match self.is_active { Some(v) => e.is_active == v, None => e.is_active == true }
                &&& match self.sort_order { Some(v) => e.sort_order == v, None => e.sort_order == 0 }
                &&& e.metadata == metadata
            }),
    {
        let company_id: u128 = match self.company_id {
            Some(v) => v,
            None => {
                return Err(string_from("company_id is required"));
            },
        };
        let code: String = match self.code {
            Some(v) => v,
            None => {
                return Err(string_from("code is required"));
            },
        };
        let name: String = match self.name {
            Some(v) => v,
            None => {
                return Err(string_from("name is required"));
            },
        };
        Ok(CostCenter {
            id,
            company_id,
            code,
            name,
            name_en: self.name_en,
            description: self.description,
            parent_id: self.parent_id,
            level: match self.level {
                Some(v) => v,
                None => 0,
            },
            is_group: match self.is_group {
                Some(v) => v,
                None => false,
            },
            branch_id: self.branch_id,
            is_active: match self.is_active {
                Some(v) => v,
                None => true,
            },
            sort_order: match self.sort_order {
                Some(v) => v,
                None => 0,
            },
            metadata,
        })
    }
}

} // verus!
