//! The QR display configuration of a company (its default slot, or one bank
//! account's) and the rendering of an invoice's merchant-presented payload
//! from it.
//!
//! A configuration is checked by a dry build of the payload before it is
//! stored, so a stored configuration always renders. Payloads are never
//! stored; a missing configuration refuses the render, with no fallback.

use crate::amount::Amount;
use crate::emv_qr::{build_emv_merchant_payload, emv_body, emv_refusal, opt_view, with_crc, EmvMerchantProfile, EmvQrError};
use crate::text::{chars_of, string_of, to_ascii_uppercase, trim, trim_chars, ascii_upper};
use vstd::prelude::*;

verus! {

/// The configuration written to a slot: the company-wide default
/// (`bank_account_id` absent) or one bank account's override.
#[derive(Debug, Clone)]
pub struct EmvQrConfigInput {
    pub company_id: u128,
    pub bank_account_id: Option<u128>,
    pub merchant_name: String,
    pub merchant_city: String,
    pub country: String,
    pub mcc: String,
    pub gui: String,
    pub merchant_identifier: String,
    pub currency: String,
    pub initiation: String,
}

#[derive(Debug, Clone)]
pub struct EmvQrConfigAck {
    pub config_id: u128,
    pub company_id: u128,
    pub bank_account_id: Option<u128>,
}

/// A rendered payload.
#[derive(Debug, Clone)]
pub struct EmvPayloadAck {
    /// The full TLV payload (CRC included) a renderer encodes into the QR.
    pub payload: String,
    /// The currency actually rendered (the request's, or the configured one).
    pub currency: String,
    pub initiation_method: String,
}

/// A stored configuration, as read back.
#[derive(Debug, Clone)]
pub struct StoredConfig {
    pub merchant_name: String,
    pub merchant_city: String,
    pub country_code: String,
    pub mcc: String,
    pub gui: String,
    pub merchant_identifier: String,
    pub currency: String,
    pub initiation_method: String,
}

#[derive(Debug, Clone)]
pub enum EmvQrServiceError {
    /// The payload builder refused; carries its cause.
    Build(EmvQrError),
    /// No configuration for the requested slot nor the default.
    ConfigMissing(u128),
    /// Storage failure.
    Internal(String),
}

impl EmvQrServiceError {
    pub open spec fn code_text(&self) -> Seq<char> {
        match self {
            EmvQrServiceError::Build(e) => e.code_text(),
            EmvQrServiceError::ConfigMissing(_) => "qr_config_missing"@,
            EmvQrServiceError::Internal(_) => "internal_error"@,
        }
    }

    /// The stable error string (the builder's own code for a build refusal).
    pub fn code(&self) -> (r: &'static str)
        ensures
            r@ == self.code_text(),
    {
        match self {
            EmvQrServiceError::Build(e) => e.code(),
            EmvQrServiceError::ConfigMissing(_) => "qr_config_missing",
            EmvQrServiceError::Internal(_) => "internal_error",
        }
    }

    /// 422 for a build refusal, 404 for a missing configuration, 500 for
    /// storage.
    pub fn http_status(&self) -> (r: u16)
        ensures
            r == match self {
                EmvQrServiceError::Build(_) => 422u16,
                EmvQrServiceError::ConfigMissing(_) => 404u16,
                EmvQrServiceError::Internal(_) => 500u16,
            },
    {
        match self {
            EmvQrServiceError::Build(_) => 422,
            EmvQrServiceError::ConfigMissing(_) => 404,
            EmvQrServiceError::Internal(_) => 500,
        }
    }
}

/// The merchant profile of a configuration input.
pub fn profile_of(c: &EmvQrConfigInput) -> (r: EmvMerchantProfile)
    ensures
        r == profile_of_spec(*c),
{
    EmvMerchantProfile {
        merchant_name: c.merchant_name.clone(),
        merchant_city: c.merchant_city.clone(),
        country: c.country.clone(),
        mcc: c.mcc.clone(),
        gui: c.gui.clone(),
        merchant_identifier: c.merchant_identifier.clone(),
        initiation: c.initiation.clone(),
    }
}

/// A configuration is accepted exactly when a static payload (no amount, no
/// reference) builds from it; otherwise the builder's refusal.
pub fn validate_config(input: &EmvQrConfigInput) -> (r: Result<(), EmvQrServiceError>)
    ensures
        ({
            let p = profile_of_spec(*input);
            &&& (emv_refusal(p, input.currency@, None, None) == 0) == (r is Ok)
            &&& r matches Err(e) ==> e is Build
        }),
{
    let p = profile_of(input);
    let built = build_emv_merchant_payload(&p, input.currency.as_str(), None, None);
    match built {
        Ok(_) => Ok(()),
        Err(e) => Err(EmvQrServiceError::Build(e)),
    }
}

/// The profile of an input, as a value.
pub open spec fn profile_of_spec(c: EmvQrConfigInput) -> EmvMerchantProfile {
    EmvMerchantProfile {
        merchant_name: c.merchant_name,
        merchant_city: c.merchant_city,
        country: c.country,
        mcc: c.mcc,
        gui: c.gui,
        merchant_identifier: c.merchant_identifier,
        initiation: c.initiation,
    }
}

/// The country code as stored: trimmed and ASCII-uppercased.
pub fn stored_country(input: &EmvQrConfigInput) -> (r: String)
    ensures
        r@ == trim(input.country@).map_values(|c: char| ascii_upper(c)),
{
    let cs = chars_of(input.country.as_str());
    let t = trim_chars(&cs);
    let u = to_ascii_uppercase(&t);
    string_of(&u)
}

/// The profile of a stored configuration.
pub open spec fn stored_profile(cfg: StoredConfig) -> EmvMerchantProfile {
    EmvMerchantProfile {
        merchant_name: cfg.merchant_name,
        merchant_city: cfg.merchant_city,
        country: cfg.country_code,
        mcc: cfg.mcc,
        gui: cfg.gui,
        merchant_identifier: cfg.merchant_identifier,
        initiation: cfg.initiation_method,
    }
}

/// Renders an invoice's payload from the slot's configuration (`None` when
/// neither the slot nor the default has one: `ConfigMissing`). The request's
/// currency overrides the configured one; no amount renders a static QR.
pub fn render_payload(
    company_id: u128,
    cfg: Option<StoredConfig>,
    amount: Option<Amount>,
    currency: Option<String>,
    reference: Option<&str>,
) -> (r: Result<EmvPayloadAck, EmvQrServiceError>)
    requires
        amount matches Some(a) ==> a.wf(),
    ensures
        cfg is None ==> (r matches Err(EmvQrServiceError::ConfigMissing(id)) && id == company_id),
        cfg matches Some(c) ==> {
            let cur = match currency {
                Some(x) => x@,
                None => c.currency@,
            };
            let p = stored_profile(c);
            let stage = emv_refusal(p, cur, amount, opt_view(reference));
            &&& (stage == 0) == (r is Ok)
            &&& r matches Err(e) ==> e is Build
            &&& r matches Ok(ack) ==> ack.payload@ == with_crc(emv_body(p, cur, amount, opt_view(reference)))
                && ack.currency@ == cur && ack.initiation_method@ == c.initiation_method@
        },
{
    let c = match cfg {
        Some(c) => c,
        None => return Err(EmvQrServiceError::ConfigMissing(company_id)),
    };
    let initiation = c.initiation_method.clone();
    let cur = match currency {
        Some(x) => x,
        None => c.currency.clone(),
    };
    let ghost gc = c;
    let profile = EmvMerchantProfile {
        merchant_name: c.merchant_name,
        merchant_city: c.merchant_city,
        country: c.country_code,
        mcc: c.mcc,
        gui: c.gui,
        merchant_identifier: c.merchant_identifier,
        initiation: c.initiation_method,
    };
    assert(profile == stored_profile(gc));
    match build_emv_merchant_payload(&profile, cur.as_str(), amount, reference) {
        Ok(payload) => Ok(EmvPayloadAck { payload, currency: cur, initiation_method: initiation }),
        Err(e) => Err(EmvQrServiceError::Build(e)),
    }
}

} // verus!
