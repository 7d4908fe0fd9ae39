use accounting_core::amount::{running_total, sum_amounts, Amount};
use accounting_core::ids::{dated_number, with_uuid};

#[test]
fn amount_basics() {
    let a = Amount::new(-1234, 2);
    assert!(a.is_negative());
    assert_eq!(a.abs().mantissa, 1234);
    assert_eq!(a.neg().mantissa, 1234);
    assert!(Amount::zero().is_zero());
    assert!(Amount::new(1, 0).is_positive());
}

#[test]
fn sums_are_exact_at_one_scale() {
    let xs = vec![Amount::new(150, 2), Amount::new(-50, 2), Amount::new(1, 2)];
    let s = sum_amounts(&xs).unwrap();
    assert_eq!((s.mantissa, s.scale), (101, 2));
    assert!(sum_amounts(&vec![]).unwrap().is_zero());
}

#[test]
fn sums_across_scales_use_the_decimal_crate() {
    let xs = vec![Amount::new(15, 1), Amount::new(25, 2)];
    let s = sum_amounts(&xs).unwrap();
    assert_eq!((s.mantissa, s.scale), (175, 2));
}

#[test]
fn running_totals_add_and_subtract() {
    let xs = vec![(false, Amount::new(100, 2)), (true, Amount::new(30, 2)), (false, Amount::new(5, 1))];
    let t = running_total(&xs).unwrap();
    assert_eq!((t.mantissa, t.scale), (120, 2));
}

#[test]
fn overflow_is_reported() {
    let big = Amount::new(79228162514264337593543950335, 0);
    assert!(sum_amounts(&vec![big, big]).is_none());
}

#[test]
fn numbers_and_uuid_text() {
    let n = dated_number("JV-", 1, 0x0123456789abcdef0123456789abcdef).unwrap();
    assert_eq!(n, "JV-00010101-01234567");
    assert_eq!(with_uuid("exch:", 1), "exch:00000000-0000-0000-0000-000000000001");
}

#[test]
fn dates_follow_the_proleptic_gregorian_calendar() {
    assert_eq!(dated_number("X", 739631, 0).unwrap(), "X20260115-00000000");
    assert_eq!(dated_number("X", 730179, 0).unwrap(), "X20000229-00000000");
    assert_eq!(dated_number("X", 0, 0).unwrap(), "X00001231-00000000");
    assert_eq!(dated_number("X", -366, 0).unwrap(), "X-00011231-00000000");
    assert_eq!(dated_number("X", 3652060, 0).unwrap(), "X+100000101-00000000");
    assert_eq!(dated_number("X", i32::MAX, 0), None);
    assert_eq!(dated_number("X", i32::MIN, 0), None);
    assert_eq!(
        with_uuid("", 0xf81d4fae7dec11d0a76500a0c91e6bf6),
        "f81d4fae-7dec-11d0-a765-00a0c91e6bf6"
    );
}
