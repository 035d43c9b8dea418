use monopoly::money::Money;
use std::ops::Neg;

#[test]
fn new_and_value_round_trip() {
    assert_eq!(Money::new(1500).value(), 1500);
    assert_eq!(Money::new(-7).value(), -7);
    assert_eq!(Money::new(0), Money(0));
}

#[test]
fn default_is_zero() {
    assert_eq!(Money::default(), Money::new(0));
}

#[test]
fn from_i64_holds_the_value() {
    let amount: Money = 2000.into();
    assert_eq!(amount, Money::new(2000));
    assert_eq!(Money::from(-3), Money::new(-3));
}

#[test]
fn sign_tests() {
    assert!(Money::new(-1).is_negative());
    assert!(!Money::new(0).is_negative());
    assert!(!Money::new(1).is_negative());
    assert!(Money::new(1).is_positive());
    assert!(!Money::new(0).is_positive());
    assert!(!Money::new(-1).is_positive());
}

#[test]
fn addition_and_subtraction() {
    assert_eq!(Money::new(15_000) + Money::new(2000), Money::new(17_000));
    assert_eq!(Money::new(50) - Money::new(200), Money::new(-150));
    assert_eq!(Money::new(-5) + Money::new(5), Money::new(0));
}

#[test]
fn negation() {
    assert_eq!(-Money::new(2000), Money::new(-2000));
    assert_eq!(Money::new(-500).neg(), Money::new(500));
    assert_eq!(-Money::new(0), Money::new(0));
}

#[test]
fn multiplication_by_a_number() {
    assert_eq!(Money::new(200) * 2, Money::new(400));
    assert_eq!(Money::new(250) * 12, Money::new(3000));
    assert_eq!(Money::new(-3) * 4, Money::new(-12));
}

#[test]
fn division_rounds_toward_zero() {
    assert_eq!(Money::new(1001) / 2, Money::new(500));
    assert_eq!(Money::new(-1001) / 2, Money::new(-500));
    assert_eq!(Money::new(7) / -2, Money::new(-3));
    assert_eq!(Money::new(-7) / -2, Money::new(3));
    assert_eq!(Money::new(600) * 6 / 10, Money::new(360));
}

#[test]
fn remainder_has_the_sign_of_the_amount() {
    assert_eq!(Money::new(1500) % 1000, Money::new(500));
    assert_eq!(Money::new(-1500) % 1000, Money::new(-500));
    assert_eq!(Money::new(7) % -2, Money::new(1));
    assert_eq!(Money::new(-7) % -2, Money::new(-1));
}

#[test]
fn comparison_goes_by_the_value() {
    assert!(Money::new(50) < Money::new(200));
    assert!(Money::new(200) >= Money::new(200));
    assert!(Money::new(-1) < Money::new(0));
    assert!(Money::new(3) > Money::new(-3));
    assert!(Money::new(3) != Money::new(4));
    assert_eq!(Money::new(5).max(Money::new(9)), Money::new(9));
}

#[test]
fn small_amounts_are_written_plainly() {
    assert_eq!(Money::new(0).to_string(), "0");
    assert_eq!(Money::new(7).to_string(), "7");
    assert_eq!(Money::new(50).to_string(), "50");
    assert_eq!(Money::new(999).to_string(), "999");
    assert_eq!(Money::new(-5).to_string(), "-5");
    assert_eq!(Money::new(-999).to_string(), "-999");
}

#[test]
fn thousands_are_set_apart() {
    assert_eq!(Money::new(1000).to_string(), "1,000");
    assert_eq!(Money::new(1005).to_string(), "1,005");
    assert_eq!(Money::new(2050).to_string(), "2,050");
    assert_eq!(Money::new(15_000).to_string(), "15,000");
    assert_eq!(Money::new(14_800).to_string(), "14,800");
    assert_eq!(Money::new(999_999).to_string(), "999,999");
}

#[test]
fn only_the_last_three_digits_are_set_apart() {
    assert_eq!(Money::new(1_234_567).to_string(), "1234,567");
    assert_eq!(Money::new(1_000_000).to_string(), "1000,000");
}

#[test]
fn negative_thousands_carry_the_sign_in_front() {
    assert_eq!(Money::new(-1000).to_string(), "-1,000");
    assert_eq!(Money::new(-1500).to_string(), "-1,500");
    assert_eq!(Money::new(-2005).to_string(), "-2,005");
    assert_eq!(Money::new(-1_234_567).to_string(), "-1234,567");
}

#[test]
fn the_largest_and_the_smallest_amount_are_written() {
    assert_eq!(Money::new(i64::MAX).to_string(), "9223372036854775,807");
    assert_eq!(Money::new(i64::MIN).to_string(), "-9223372036854775,808");
}
