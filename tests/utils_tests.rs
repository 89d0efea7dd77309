use option_pricing::utils::{NonNegativeFloat, INFINITY_BITS};
use option_pricing::PricingError;

fn nnf(x: f64) -> NonNegativeFloat {
    NonNegativeFloat::from_bits(x.to_bits()).unwrap()
}

fn value(x: NonNegativeFloat) -> f64 {
    f64::from_bits(x.to_bits())
}

#[test]
fn non_negative_float_test1() {
    let x = nnf(6.4);
    assert_eq!(6.4, value(x));
    assert_eq!(6.4, value(x));
}

#[test]
fn non_negative_float_test2() {
    assert_eq!(
        NonNegativeFloat::from_bits((-6.4f64).to_bits()),
        Err(PricingError::InvalidParameter)
    );
}

#[test]
fn non_negative_float_test3() {
    let x = nnf(0.0);
    assert_eq!(0.0, value(x));
}

#[test]
fn non_negative_float_test4() {
    assert_eq!(
        NonNegativeFloat::from_bits(f64::NAN.to_bits()),
        Err(PricingError::InvalidParameter)
    );
}

#[test]
fn negative_zero_is_zero() {
    let x = nnf(-0.0);
    assert_eq!(x.to_bits(), 0);
    assert_eq!(x, NonNegativeFloat::zero());
}

#[test]
fn infinity_is_accepted_and_negative_infinity_is_not() {
    assert_eq!(nnf(f64::INFINITY).to_bits(), INFINITY_BITS);
    assert!(NonNegativeFloat::from_bits(f64::NEG_INFINITY.to_bits()).is_err());
    assert!(NonNegativeFloat::from_bits((-f64::NAN).to_bits()).is_err());
    assert!(NonNegativeFloat::from_bits((-1e-300f64).to_bits()).is_err());
}

#[test]
fn order_follows_the_values() {
    let small = nnf(1e-300);
    let half = nnf(0.5);
    let two = nnf(2.0);
    let big = nnf(1e300);
    assert!(small.lt(&half) && half.lt(&two) && two.lt(&big));
    assert!(!two.lt(&half));
    assert!(half.le(&half) && !half.lt(&half));
    assert!(nnf(0.0).lt(&small));
    assert!(big.lt(&nnf(f64::INFINITY)));
    assert!(nnf(3.2).same(&nnf(3.2)));
    assert!(!nnf(3.2).same(&nnf(3.2000000001)));
}
