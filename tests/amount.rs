use toy_payments::Amount;

/// Scales a decimal value to an amount, dropping digits past the fourth.
fn decimal(value: f64) -> Amount {
    Amount::from_scaled((value * 10000.0) as i64)
}

#[test]
fn test_repeated_addition_no_drift() {
    let mut total = decimal(0.0);
    let increment = decimal(0.1);

    for _ in 0..10 {
        total = total + increment;
    }

    assert_eq!(total, decimal(1.0));
}

#[test]
fn test_subtraction_then_addition_identity() {
    let start = decimal(100.0);
    let subtract = decimal(0.1);
    let result = start - subtract + subtract;

    assert_eq!(result, start);
}

#[test]
fn test_precise_decimal_representation() {
    let a = decimal(0.1);
    let b = decimal(0.2);
    let sum = a + b;

    assert_eq!(sum, decimal(0.3));
}

#[test]
fn test_large_number_small_increment() {
    let large = decimal(1000000.0);
    let small = decimal(0.01);
    let result = large + small;

    assert_eq!(result, decimal(1000000.01));
}

#[test]
fn test_many_small_additions() {
    let mut total = decimal(0.0);

    for _ in 0..100 {
        total = total + decimal(0.01);
    }

    assert_eq!(total, decimal(1.0));
}

#[test]
fn test_subtraction_precision() {
    let a = decimal(1.0);
    let b = decimal(0.9999);
    let result = a - b;

    assert_eq!(result, decimal(0.0001));
}

#[test]
fn test_negation_and_addition() {
    let amount = decimal(42.5);
    let result = amount + (-amount);

    assert_eq!(result, decimal(0.0));
}

#[test]
fn test_comparison_with_close_values() {
    let a = decimal(0.0001);
    let b = decimal(0.0002);

    assert!(a < b);
    assert!(b > a);
    assert_ne!(a, b);
}

#[test]
fn test_four_decimal_precision() {
    let a = decimal(1.2345);
    let b = decimal(1.2346);

    assert_ne!(a, b);
}

#[test]
fn test_decimal_truncation() {
    let a = decimal(1.99999);
    let b = decimal(0.00001);

    assert_eq!(a + b, a);
}

#[test]
fn whole_units_scale_by_ten_thousand() {
    assert_eq!(Amount::new(7).scaled(), 70000);
    assert_eq!(Amount::from(3).scaled(), 30000);
    assert_eq!(Amount::new(0), Amount::zero());
}

#[test]
fn scaled_round_trip_and_comparison() {
    let a = Amount::from_scaled(-12345);
    assert_eq!(a.scaled(), -12345);
    assert!(Amount::from(1).at_least(&Amount::from(1)));
    assert!(!Amount::from_scaled(9999).at_least(&Amount::from(1)));
    assert_eq!((-a).scaled(), 12345);
}

#[test]
fn checked_arithmetic_reports_overflow() {
    let max = Amount::from_scaled(i64::MAX);
    let min = Amount::from_scaled(i64::MIN);
    assert_eq!(max.checked_add(&Amount::from_scaled(1)), None);
    assert_eq!(min.checked_sub(&Amount::from_scaled(1)), None);
    assert_eq!(
        Amount::from(2).checked_add(&Amount::from(3)),
        Some(Amount::from(5))
    );
    assert_eq!(
        Amount::from(2).checked_sub(&Amount::from(3)),
        Some(-Amount::from(1))
    );
}
