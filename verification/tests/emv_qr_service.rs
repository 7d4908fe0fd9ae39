use accounting_core::amount::Amount;
use accounting_core::emv_qr_service::{
    profile_of, render_payload, stored_country, validate_config, EmvQrConfigInput, EmvQrServiceError, StoredConfig,
};

fn input() -> EmvQrConfigInput {
    EmvQrConfigInput {
        company_id: 1,
        bank_account_id: None,
        merchant_name: "LAOPAY STORE".into(),
        merchant_city: "JAKARTA".into(),
        country: " id ".into(),
        mcc: "6012".into(),
        gui: "ID.CO.QRIS.WWW".into(),
        merchant_identifier: "9360012345678901".into(),
        currency: "IDR".into(),
        initiation: "11".into(),
    }
}

fn stored() -> StoredConfig {
    StoredConfig {
        merchant_name: "LAOPAY STORE".into(),
        merchant_city: "JAKARTA".into(),
        country_code: "ID".into(),
        mcc: "6012".into(),
        gui: "ID.CO.QRIS.WWW".into(),
        merchant_identifier: "9360012345678901".into(),
        currency: "IDR".into(),
        initiation_method: "11".into(),
    }
}

#[test]
fn config_validation_uses_the_builder() {
    let mut i = input();
    i.country = "ID".into();
    assert!(validate_config(&i).is_ok());
    i.mcc = "60".into();
    let e = validate_config(&i).unwrap_err();
    assert_eq!(e.code(), "invalid_mcc");
    assert_eq!(e.http_status(), 422);
    assert_eq!(profile_of(&input()).merchant_name, "LAOPAY STORE");
}

#[test]
fn stored_country_is_normalized() {
    assert_eq!(stored_country(&input()), "ID");
}

#[test]
fn render_uses_config_and_overrides() {
    let r = render_payload(1, Some(stored()), None, None, Some("INV/2026/0001")).unwrap();
    assert_eq!(
        r.payload,
        "00020101021126380014ID.CO.QRIS.WWW011693600123456789015204601253033605802\
         ID5912LAOPAY STORE6007JAKARTA62170113INV/2026/00016304F7D4"
    );
    assert_eq!(r.currency, "IDR");
    assert_eq!(r.initiation_method, "11");
    let e = render_payload(1, Some(stored()), Some(Amount::new(100, 2)), Some("XYZ".into()), None).unwrap_err();
    assert_eq!(e.code(), "currency_not_supported");
}

#[test]
fn missing_config_refuses() {
    let e = render_payload(4, None, None, None, None).unwrap_err();
    assert!(matches!(e, EmvQrServiceError::ConfigMissing(4)));
    assert_eq!(e.code(), "qr_config_missing");
    assert_eq!(e.http_status(), 404);
}
