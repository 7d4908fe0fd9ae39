//! The emv qr config record and its builder.
//!
//! Ids are the 128-bit values of uuids; decimals are [`Amount`]s; dates are
//! day numbers (day 1 is 0001-01-01); instants are microseconds since
//! 1970-01-01 UTC; JSON values are held as their JSON text.

use crate::amount::Amount;
use crate::text::string_from;
use vstd::prelude::*;

verus! {

/// A emv qr config record.
#[derive(Debug, Clone)]
pub struct EmvQrConfig {
    pub id: u128,
    pub merchant_name: String,
    pub merchant_city: String,
    pub country_code: String,
    pub mcc: String,
    pub gui: String,
    pub merchant_identifier: String,
    pub currency: String,
    pub initiation_method: String,
    pub bank_account_id: Option<u128>,
    pub created_at: i64,
    pub updated_at: i64,
    pub metadata: String,
}

/// Collects the fields of a emv qr config; `build` checks the required ones and
/// fills in the defaults.
#[derive(Debug, Clone)]
pub struct EmvQrConfigBuilder {
    pub merchant_name: Option<String>,
    pub merchant_city: Option<String>,
    pub country_code: Option<String>,
    pub mcc: Option<String>,
    pub gui: Option<String>,
    pub merchant_identifier: Option<String>,
    pub currency: Option<String>,
    pub initiation_method: Option<String>,
    pub bank_account_id: Option<u128>,
    pub metadata: Option<String>,
}

impl EmvQrConfig {
    /// A builder with no field set.
    pub fn builder() -> (r: EmvQrConfigBuilder)
        ensures
            r.merchant_name is None,
            r.merchant_city is None,
            r.country_code is None,
            r.mcc is None,
            r.gui is None,
            r.merchant_identifier is None,
            r.currency is None,
            r.initiation_method is None,
            r.bank_account_id is None,
            r.metadata is None,
    {
        EmvQrConfigBuilder {
            merchant_name: None,
            merchant_city: None,
            country_code: None,
            mcc: None,
            gui: None,
            merchant_identifier: None,
            currency: None,
            initiation_method: None,
            bank_account_id: None,
            metadata: None,
        }
    }

    /// A emv qr config from its required fields; every optional field is unset.
    pub fn new(id: u128, merchant_name: String, merchant_city: String, country_code: String, mcc: String, gui: String, merchant_identifier: String, currency: String, initiation_method: String, metadata: String, now: i64) -> (r: EmvQrConfig)
        ensures
            r.id == id,
            r.merchant_name == merchant_name,
            r.merchant_city == merchant_city,
            r.country_code == country_code,
            r.mcc == mcc,
            r.gui == gui,
            r.merchant_identifier == merchant_identifier,
            r.currency == currency,
            r.initiation_method == initiation_method,
            r.bank_account_id is None,
            r.created_at == now,
            r.updated_at == now,
            r.metadata == metadata,
    {
        EmvQrConfig {
            id,
            merchant_name,
            merchant_city,
            country_code,
            mcc,
            gui,
            merchant_identifier,
            currency,
            initiation_method,
            bank_account_id: None,
            created_at: now,
            updated_at: now,
            metadata,
        }
    }
}

impl EmvQrConfigBuilder {
    /// The refusal of the first required field left unset, in order.
    pub open spec fn first_missing(self) -> Option<Seq<char>> {
        if self.merchant_name is None {
            Some("merchant_name is required"@)
        } else if self.merchant_city is None {
            Some("merchant_city is required"@)
        } else if self.mcc is None {
            Some("mcc is required"@)
        } else if self.merchant_identifier is None {
            Some("merchant_identifier is required"@)
        } else {
            None
        }
    }

    /// Set `merchant_name`.
    pub fn merchant_name(self, value: String) -> (r: EmvQrConfigBuilder)
        ensures
            r == (EmvQrConfigBuilder { merchant_name: Some(value), ..self }),
    {
        EmvQrConfigBuilder { merchant_name: Some(value), ..self }
    }

    /// Set `merchant_city`.
    pub fn merchant_city(self, value: String) -> (r: EmvQrConfigBuilder)
        ensures
            r == (EmvQrConfigBuilder { merchant_city: Some(value), ..self }),
    {
        EmvQrConfigBuilder { merchant_city: Some(value), ..self }
    }

    /// Set `country_code`.
    pub fn country_code(self, value: String) -> (r: EmvQrConfigBuilder)
        ensures
            r == (EmvQrConfigBuilder { country_code: Some(value), ..self }),
    {
        EmvQrConfigBuilder { country_code: Some(value), ..self }
    }

    /// Set `mcc`.
    pub fn mcc(self, value: String) -> (r: EmvQrConfigBuilder)
        ensures
            r == (EmvQrConfigBuilder { mcc: Some(value), ..self }),
    {
        EmvQrConfigBuilder { mcc: Some(value), ..self }
    }

    /// Set `gui`.
    pub fn gui(self, value: String) -> (r: EmvQrConfigBuilder)
        ensures
            r == (EmvQrConfigBuilder { gui: Some(value), ..self }),
    {
        EmvQrConfigBuilder { gui: Some(value), ..self }
    }

    /// Set `merchant_identifier`.
    pub fn merchant_identifier(self, value: String) -> (r: EmvQrConfigBuilder)
        ensures
            r == (EmvQrConfigBuilder { merchant_identifier: Some(value), ..self }),
    {
        EmvQrConfigBuilder { merchant_identifier: Some(value), ..self }
    }

    /// Set `currency`.
    pub fn currency(self, value: String) -> (r: EmvQrConfigBuilder)
        ensures
            r == (EmvQrConfigBuilder { currency: Some(value), ..self }),
    {
        EmvQrConfigBuilder { currency: Some(value), ..self }
    }

    /// Set `initiation_method`.
    pub fn initiation_method(self, value: String) -> (r: EmvQrConfigBuilder)
        ensures
            r == (EmvQrConfigBuilder { initiation_method: Some(value), ..self }),
    {
        EmvQrConfigBuilder { initiation_method: Some(value), ..self }
    }

    /// Set `bank_account_id`.
    pub fn bank_account_id(self, value: u128) -> (r: EmvQrConfigBuilder)
        ensures
            r == (EmvQrConfigBuilder { bank_account_id: Some(value), ..self }),
    {
        EmvQrConfigBuilder { bank_account_id: Some(value), ..self }
    }

    /// Set `metadata`.
    pub fn metadata(self, value: String) -> (r: EmvQrConfigBuilder)
        ensures
            r == (EmvQrConfigBuilder { metadata: Some(value), ..self }),
    {
        EmvQrConfigBuilder { metadata: Some(value), ..self }
    }

    /// The emv qr config, with `id` as its id and `now` as the current instant.
    /// Refused as [`Self::first_missing`] says when a required field is
    /// unset; otherwise every unset field takes its default.
    pub fn build(self, id: u128, now: i64) -> (r: Result<EmvQrConfig, String>)
        ensures
            self.first_missing() matches Some(msg) ==> (r matches Err(m) && m@ == msg),
            self.first_missing() is None ==> (r matches Ok(e) && {
                &&& e.id == id
                &&& e.merchant_name == self.merchant_name.unwrap()
                &&& e.merchant_city == self.merchant_city.unwrap()
                &&& match self.country_code { Some(v) => e.country_code == v, None => e.country_code@ == "ID"@ }
                &&& e.mcc == self.mcc.unwrap()
                &&& match self.gui { Some(v) => e.gui == v, None => e.gui@ == "ID.CO.QRIS.WWW"@ }
                &&& e.merchant_identifier == self.merchant_identifier.unwrap()
                &&& match self.currency { Some(v) => e.currency == v, None => e.currency@ == "IDR"@ }
                &&& match self.initiation_method { Some(v) => e.initiation_method == v, None => e.initiation_method@ == "11"@ }
                &&& e.bank_account_id == self.bank_account_id
                &&& e.created_at == now
                &&& e.updated_at == now
                &&& match self.metadata { Some(v) => e.metadata == v, None => e.metadata@ == "{}"@ }
            }),
    {
        let merchant_name: String = match self.merchant_name {
            Some(v) => v,
            None => {
                return Err(string_from("merchant_name is required"));
            },
        };
        let merchant_city: String = match self.merchant_city {
            Some(v) => v,
            None => {
                return Err(string_from("merchant_city is required"));
            },
        };
        let mcc: String = match self.mcc {
            Some(v) => v,
            None => {
                return Err(string_from("mcc is required"));
            },
        };
        let merchant_identifier: String = match self.merchant_identifier {
            Some(v) => v,
            None => {
                return Err(string_from("merchant_identifier is required"));
            },
        };
        Ok(EmvQrConfig {
            id,
            merchant_name,
            merchant_city,
            country_code: match self.country_code {
                Some(v) => v,
                None => string_from("ID"),
            },
            mcc,
            gui: match self.gui {
                Some(v) => v,
                None => string_from("ID.CO.QRIS.WWW"),
            },
            merchant_identifier,
            currency: match self.currency {
                Some(v) => v,
                None => string_from("IDR"),
            },
            initiation_method: match self.initiation_method {
                Some(v) => v,
                None => string_from("11"),
            },
            bank_account_id: self.bank_account_id,
            created_at: now,
            updated_at: now,
            metadata: match self.metadata {
                Some(v) => v,
                None => string_from("{}"),
            },
        })
    }
}

} // verus!
