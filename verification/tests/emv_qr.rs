use accounting_core::amount::Amount;
use accounting_core::emv_qr::{build_emv_merchant_payload, crc16, currency_numeric, fold_alphanum, format_amount, EmvMerchantProfile};

fn profile() -> EmvMerchantProfile {
    EmvMerchantProfile {
        merchant_name: "LAOPAY STORE".into(),
        merchant_city: "JAKARTA".into(),
        country: "ID".into(),
        mcc: "6012".into(),
        gui: "ID.CO.QRIS.WWW".into(),
        merchant_identifier: "9360012345678901".into(),
        initiation: "11".into(),
    }
}

fn with(f: impl FnOnce(&mut EmvMerchantProfile)) -> EmvMerchantProfile {
    let mut p = profile();
    f(&mut p);
    p
}

#[test]
fn crc16_catalog_check() {
    assert_eq!(crc16(b"123456789"), 0x29B1);
}

#[test]
fn payload_vectors() {
    let v1 = build_emv_merchant_payload(&profile(), "IDR", None, Some("INV/2026/0001")).unwrap();
    assert_eq!(
        v1,
        "00020101021126380014ID.CO.QRIS.WWW011693600123456789015204601253033605802\
         ID5912LAOPAY STORE6007JAKARTA62170113INV/2026/00016304F7D4"
    );

    let p2 = with(|p| {
        p.merchant_name = "TOKO MAJU".into();
        p.merchant_city = "BANDUNG".into();
        p.mcc = "5999".into();
        p.merchant_identifier = "UME".into();
    });
    let v2 = build_emv_merchant_payload(&p2, "IDR", Some(Amount::new(15000000, 2)), None).unwrap();
    assert_eq!(
        v2,
        "00020101021126250014ID.CO.QRIS.WWW0103UME5204599953033605409150000.005802\
         ID5909TOKO MAJU6007BANDUNG630472EC"
    );

    let p3 = with(|p| {
        p.merchant_name = "CV Séntosa Åbadi".into();
        p.merchant_city = "SÜRABAYA".into();
        p.mcc = "6010".into();
        p.merchant_identifier = "1234567890123456".into();
        p.initiation = "12".into();
    });
    let v3 = build_emv_merchant_payload(&p3, "IDR", Some(Amount::new(987654321, 2)), Some("REF-99881")).unwrap();
    assert_eq!(
        v3,
        "00020101021226380014ID.CO.QRIS.WWW011612345678901234565204601053033605410\
         9876543.215802ID5916CV Sentosa Abadi6008SURABAYA62130109REF-99881630455E8"
    );
}

#[test]
fn typed_refusals() {
    let code = |p: &EmvMerchantProfile, cur: &str, amt: Option<Amount>, r: Option<&str>| {
        build_emv_merchant_payload(p, cur, amt, r).unwrap_err().code()
    };
    assert_eq!(code(&with(|p| p.merchant_name = "A".repeat(26)), "IDR", None, None), "merchant_name_too_long");
    assert_eq!(code(&with(|p| p.merchant_city = "A".repeat(16)), "IDR", None, None), "merchant_city_too_long");
    assert_eq!(code(&with(|p| p.country = "IDN".into()), "IDR", None, None), "invalid_country_code");
    assert_eq!(code(&with(|p| p.mcc = "601".into()), "IDR", None, None), "invalid_mcc");
    assert_eq!(code(&with(|p| p.initiation = "13".into()), "IDR", None, None), "invalid_initiation_method");
    assert_eq!(
        code(&with(|p| p.merchant_identifier = "9360012345٦78901".into()), "IDR", None, None),
        "invalid_merchant_account"
    );
    assert_eq!(code(&with(|p| p.gui = "ID.CO.QRIS.WWWÜ".into()), "IDR", None, None), "invalid_merchant_account");
    assert_eq!(code(&profile(), "XYZ", None, None), "currency_not_supported");
    assert_eq!(code(&profile(), "IDR", Some(Amount::new(0, 0)), None), "invalid_amount");
    assert_eq!(code(&profile(), "IDR", Some(Amount::new(12345678901200, 2)), None), "amount_too_long");
    assert_eq!(code(&profile(), "IDR", None, Some(&"R".repeat(26))), "reference_too_long");
}

#[test]
fn folds_accents_and_trims() {
    assert_eq!(fold_alphanum("  SÜRABAYA "), "SURABAYA");
    assert_eq!(fold_alphanum("Jôgyakarta"), "Jogyakarta");
}

#[test]
fn fold_is_idempotent_on_example() {
    let once = fold_alphanum("  Séntosa Åbadi ");
    assert_eq!(fold_alphanum(&once), once);
}

#[test]
fn currency_numeric_known_and_unknown() {
    assert_eq!(currency_numeric("IDR"), Some("360"));
    assert_eq!(currency_numeric(" usd "), Some("840"));
    assert_eq!(currency_numeric("XYZ"), None);
}

#[test]
fn crc16_of_empty_is_initial_value() {
    assert_eq!(crc16(b""), 0xFFFF);
}

#[test]
fn negative_amount_is_invalid() {
    let e = build_emv_merchant_payload(&profile(), "IDR", Some(Amount::new(-100, 2)), None).unwrap_err();
    assert_eq!(e.code(), "invalid_amount");
}

#[test]
fn blank_reference_is_no_reference() {
    for r in ["", "   ", "\u{0301}"] {
        assert_eq!(
            build_emv_merchant_payload(&profile(), "IDR", None, Some(r)),
            build_emv_merchant_payload(&profile(), "IDR", None, None)
        );
    }
    let bad = with(|p| p.gui = "".into());
    assert_eq!(
        build_emv_merchant_payload(&bad, "IDR", None, Some(" ")),
        build_emv_merchant_payload(&bad, "IDR", None, None)
    );
}

#[test]
fn crc16_with_its_own_crc_appended_is_zero() {
    for data in [&b"123456789"[..], b"", b"000201010211", b"\xff\x00\x10"] {
        let c = crc16(data);
        let mut m = data.to_vec();
        m.push((c >> 8) as u8);
        m.push((c & 0xFF) as u8);
        assert_eq!(crc16(&m), 0);
    }
}

#[test]
fn accepted_payloads_have_the_payload_shape() {
    let p = with(|p| {
        p.merchant_name = "Café Ñandú".into();
        p.merchant_city = "  Bogotá ".into();
    });
    for (amount, reference) in [
        (None, None),
        (Some(Amount::new(1, 0)), Some("Factura Nº 7")),
        (Some(Amount::new(123456789, 3)), Some("  ")),
    ] {
        let s = build_emv_merchant_payload(&p, "usd", amount, reference).unwrap();
        assert!(s.starts_with("000201"));
        assert!(s.chars().all(|c| (' '..='~').contains(&c)));
        let n = s.len();
        assert_eq!(&s[n - 8..n - 4], "6304");
        assert_eq!(&s[n - 4..], format!("{:04X}", crc16(s[..n - 4].as_bytes())));
    }
}

#[test]
fn currency_map_is_three_digit_and_injective() {
    let codes = ["AUD", "BGN", "BHD", "BND", "BRL", "CAD", "CHF", "CLP", "CNY", "CZK", "DKK", "EUR", "GBP", "HKD", "HRK", "HUF", "IDR", "ILS", "INR", "ISK", "JPY", "KRW", "KWD", "KZT", "LAK", "LKR", "MAD", "MDL", "MMK", "MOP", "MXN", "MYR", "NOK", "NPR", "NZD", "OMR", "PHP", "PLN", "QAR", "RON", "RUB", "SAR", "SEK", "SGD", "THB", "TND", "TRY", "TWD", "UAH", "USD", "VND", "ZAR"];
    let mut seen: Vec<&str> = Vec::new();
    for c in codes {
        let n = currency_numeric(c).unwrap();
        assert_eq!(n.len(), 3);
        assert!(n.chars().all(|d| d.is_ascii_digit()));
        assert!(!seen.contains(&n));
        seen.push(n);
        let messy = format!("  {} ", c.to_ascii_lowercase());
        assert_eq!(currency_numeric(&messy), Some(n));
    }
    assert_eq!(currency_numeric("XYZ"), None);
    assert_eq!(currency_numeric("US"), None);
}

#[test]
fn amount_text_cuts_to_two_decimals() {
    assert_eq!(format_amount(Amount::new(123456789, 3)).unwrap(), "123456.78");
    assert_eq!(format_amount(Amount::new(5, 0)).unwrap(), "5.00");
    assert_eq!(format_amount(Amount::new(1, 3)).unwrap(), "0.00");
    assert_eq!(format_amount(Amount::new(15000000, 2)).unwrap(), "150000.00");
    assert_eq!(format_amount(Amount::new(75, 1)).unwrap(), "7.50");
}
