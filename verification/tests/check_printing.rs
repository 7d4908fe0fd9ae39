use accounting_core::amount::Amount;
use accounting_core::check_printing::{
    allocation_from_cursor, allocation_refusal, i64_text, plan_check_number, printed_ack, validate_check_amount,
    validate_count, validate_manual_number, validate_registration, void_refusal, CheckPrintingError, NumberPlan,
    RecordCheck, RegisterSequence, MAX_CHECK_NUMBER,
};

fn reg(mode: &str, next: i64) -> RegisterSequence {
    RegisterSequence { company_id: 1, bank_account_id: 2, numbering_mode: mode.into(), next_number: next }
}

#[test]
fn manual_numbers_trimmed_and_capped() {
    assert_eq!(validate_manual_number(" 000123 ").unwrap(), "000123");
    assert_eq!(validate_manual_number("2147483647").unwrap(), "2147483647");
    assert!(matches!(validate_manual_number("2147483648"), Err(CheckPrintingError::InvalidCheckNumber(ref s)) if s == "2147483648"));
    assert!(matches!(validate_manual_number("12345678901"), Err(CheckPrintingError::InvalidCheckNumber(_))));
    assert!(matches!(validate_manual_number("12a4"), Err(CheckPrintingError::InvalidCheckNumber(ref s)) if s == "12a4"));
    assert!(matches!(validate_manual_number("   "), Err(CheckPrintingError::InvalidCheckNumber(ref s)) if s == "   "));
}

#[test]
fn registration_checks_mode_then_range() {
    assert!(validate_registration(&reg("auto", 1)).is_ok());
    assert!(validate_registration(&reg("manual", MAX_CHECK_NUMBER)).is_ok());
    match validate_registration(&reg("semi", 1)) {
        Err(CheckPrintingError::NumberingModeConflict { mode, detail }) => {
            assert_eq!(mode, "semi");
            assert_eq!(detail, "numbering_mode must be \"auto\" or \"manual\"");
        }
        _ => panic!("expected a mode conflict"),
    }
    assert!(matches!(validate_registration(&reg("auto", 0)), Err(CheckPrintingError::InvalidCheckNumber(ref s)) if s == "0"));
    assert!(matches!(validate_registration(&reg("auto", -5)), Err(CheckPrintingError::InvalidCheckNumber(ref s)) if s == "-5"));
}

#[test]
fn allocation_is_consecutive() {
    let a = allocation_from_cursor(105, 5).unwrap();
    assert_eq!(a.first, 100);
    assert_eq!(a.last, 104);
    assert_eq!(a.numbers, vec![100, 101, 102, 103, 104]);
}

#[test]
fn allocation_overflow_refused() {
    assert!(matches!(allocation_from_cursor(MAX_CHECK_NUMBER + 2, 1), Err(CheckPrintingError::CheckNumberOverflow)));
    let a = allocation_from_cursor(MAX_CHECK_NUMBER + 1, 1).unwrap();
    assert_eq!(a.last, MAX_CHECK_NUMBER);
}

#[test]
fn count_must_be_positive() {
    assert!(matches!(validate_count(0), Err(CheckPrintingError::InvalidCheckNumber(ref s)) if s == "count must be >= 1"));
    assert!(validate_count(1).is_ok());
}

#[test]
fn numbering_plans() {
    assert!(matches!(plan_check_number("auto", None), Ok(NumberPlan::Allocate)));
    assert!(matches!(plan_check_number("auto", Some("12")), Err(CheckPrintingError::NumberingModeConflict { .. })));
    assert!(matches!(plan_check_number("manual", Some(" 77 ")), Ok(NumberPlan::Manual(ref n)) if n == "77"));
    assert!(matches!(plan_check_number("manual", None), Err(CheckPrintingError::NumberingModeConflict { ref mode, .. }) if mode == "manual"));
    match plan_check_number("legacy", None) {
        Err(CheckPrintingError::NumberingModeConflict { mode, detail }) => {
            assert_eq!(mode, "legacy");
            assert_eq!(detail, "unknown numbering mode");
        }
        _ => panic!("expected a refusal"),
    }
}

#[test]
fn refusals_and_codes() {
    let e = allocation_refusal(None, 9);
    assert!(matches!(e, CheckPrintingError::SequenceNotRegistered(9)));
    assert_eq!(e.http_status(), 404);
    let e = allocation_refusal(Some("manual".into()), 9);
    assert_eq!(e.code(), "numbering_mode_conflict");
    assert_eq!(e.http_status(), 422);
    assert!(matches!(void_refusal(Some("voided"), 3), CheckPrintingError::AlreadyVoided(3)));
    assert!(matches!(void_refusal(Some("printed"), 3), CheckPrintingError::CheckNotFound(3)));
    assert!(matches!(void_refusal(None, 3), CheckPrintingError::CheckNotFound(3)));
    assert_eq!(CheckPrintingError::AlreadyVoided(3).code(), "check_already_voided");
    assert_eq!(CheckPrintingError::Internal("x".into()).http_status(), 500);
}

#[test]
fn amounts_must_be_positive() {
    assert!(matches!(validate_check_amount(Amount::new(0, 2)), Err(CheckPrintingError::InvalidAmount)));
    assert!(matches!(validate_check_amount(Amount::new(-1, 2)), Err(CheckPrintingError::InvalidAmount)));
    assert!(validate_check_amount(Amount::new(1, 2)).is_ok());
}

#[test]
fn number_text_and_ack() {
    assert_eq!(i64_text(0), "0");
    assert_eq!(i64_text(-42), "-42");
    assert_eq!(i64_text(i64::MIN), "-9223372036854775808");
    let req = RecordCheck {
        company_id: 1,
        bank_account_id: 2,
        payment_id: 3,
        payment_number: None,
        amount: Amount::new(100, 2),
        payee_name: None,
        check_number: None,
        actor: None,
    };
    let ack = printed_ack(7, &req, "000123".into());
    assert_eq!(ack.status, "printed");
    assert_eq!(ack.payment_id, 3);
}

#[test]
fn successive_allocations_do_not_overlap() {
    let first = allocation_from_cursor(11, 3).unwrap();
    let second = allocation_from_cursor(13, 2).unwrap();
    assert_eq!(first.numbers, vec![8, 9, 10]);
    assert_eq!(second.numbers, vec![11, 12]);
    assert_eq!(second.first, first.last + 1);
    assert!(first.numbers.iter().all(|n| !second.numbers.contains(n)));
}
