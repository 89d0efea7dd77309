use option_pricing::stock::{check_grid, is_strictly_increasing, GeometricBrownianMotionStock, StockState};
use option_pricing::utils::{NonNegativeFloat, TimeStamp};
use option_pricing::PricingError;

fn nnf(x: f64) -> NonNegativeFloat {
    NonNegativeFloat::from_bits(x.to_bits()).unwrap()
}

fn times(xs: &[f64]) -> Vec<TimeStamp> {
    xs.iter().map(|x| nnf(*x)).collect()
}

fn stock_at(time: f64) -> GeometricBrownianMotionStock {
    GeometricBrownianMotionStock::new(nnf(5.0), nnf(time), 1.0f64.to_bits(), nnf(0.25), nnf(0.0))
}

#[test]
fn stock_keeps_its_parameters() {
    let s = GeometricBrownianMotionStock::new(nnf(5.0), nnf(1.5), (-0.3f64).to_bits(), nnf(0.25), nnf(0.04));
    assert_eq!(s.get_volatility(), nnf(0.25));
    assert_eq!(s.get_divident_rate(), nnf(0.04));
    assert_eq!(f64::from_bits(s.get_drift_bits()), -0.3);
    assert_eq!(s.get_current_state(), StockState::new(nnf(5.0), nnf(1.5)));
    assert_eq!(s.get_current_state().get_value(), nnf(5.0));
    assert_eq!(s.get_current_state().get_time(), nnf(1.5));
}

#[test]
fn advance_moves_price_and_time() {
    let mut s = stock_at(0.0);
    s.advance(nnf(7.5), nnf(2.0));
    assert_eq!(s.get_current_state(), StockState::new(nnf(7.5), nnf(2.0)));
    assert_eq!(s.get_volatility(), nnf(0.25));
}

#[test]
fn valid_time_stamps_pass() {
    let s = stock_at(1.0);
    assert_eq!(s.check_time_stamps(3, &times(&[1.0, 1.5, 3.2])), Ok(()));
    assert_eq!(s.check_time_stamps(5, &times(&[2.0])), Ok(()));
}

#[test]
fn too_few_samples_is_an_invalid_path_request() {
    let s = stock_at(0.0);
    assert_eq!(
        s.check_time_stamps(2, &times(&[1.0, 2.0, 3.0])),
        Err(PricingError::InvalidPathRequest)
    );
}

#[test]
fn empty_or_early_or_unordered_time_stamps_are_refused() {
    let s = stock_at(1.0);
    assert_eq!(s.check_time_stamps(4, &Vec::new()), Err(PricingError::InvalidPathRequest));
    assert_eq!(s.check_time_stamps(4, &times(&[0.5, 2.0])), Err(PricingError::InvalidPathRequest));
    assert_eq!(s.check_time_stamps(4, &times(&[2.0, 2.0])), Err(PricingError::InvalidPathRequest));
    assert_eq!(s.check_time_stamps(4, &times(&[2.0, 3.0, 2.5])), Err(PricingError::InvalidPathRequest));
}

#[test]
fn strictly_increasing_check() {
    assert!(is_strictly_increasing(&Vec::new()));
    assert!(is_strictly_increasing(&times(&[0.0])));
    assert!(is_strictly_increasing(&times(&[0.0, 1.0, 2.0, 3.0, 4.0, 5.0])));
    assert!(!is_strictly_increasing(&times(&[0.0, 1.0, 1.0])));
    assert!(!is_strictly_increasing(&times(&[3.0, 1.0])));
}

#[test]
fn step_requests() {
    let s = stock_at(1.0);
    assert_eq!(s.check_step_request(nnf(1.0), nnf(0.5), nnf(3.2)), Ok(()));
    assert_eq!(
        s.check_step_request(nnf(0.5), nnf(0.5), nnf(3.2)),
        Err(PricingError::InvalidPathRequest)
    );
    assert_eq!(
        s.check_step_request(nnf(2.0), nnf(0.5), nnf(2.0)),
        Err(PricingError::InvalidPathRequest)
    );
    assert_eq!(
        s.check_step_request(nnf(2.0), nnf(0.0), nnf(3.0)),
        Err(PricingError::InvalidParameter)
    );
    assert_eq!(check_grid(nnf(0.0), nnf(1.0), nnf(5.0)), Ok(()));
    assert_eq!(check_grid(nnf(5.0), nnf(1.0), nnf(4.0)), Err(PricingError::InvalidPathRequest));
}
