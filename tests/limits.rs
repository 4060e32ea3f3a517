use option_chain_orderbook::{Dec, Greeks, LimitBreach, PositionLimits};

fn d(mantissa: i64, scale: u32) -> Dec {
    Dec::new(mantissa, scale)
}

fn n(value: i64) -> Dec {
    Dec::from_int(value)
}

#[test]
fn test_limits_creation() {
    let limits = PositionLimits::new(n(100), n(200), n(500), n(1000));
    assert_eq!(limits.per_option(), n(100));
    assert_eq!(limits.per_strike(), n(200));
    assert_eq!(limits.per_expiration(), n(500));
    assert_eq!(limits.per_underlying(), n(1000));
    assert_eq!(limits.max_delta(), Dec::max_value());
}

#[test]
fn test_preset_limits() {
    let small = PositionLimits::small();
    let medium = PositionLimits::medium();
    let large = PositionLimits::large();
    assert!(small.per_option() < medium.per_option());
    assert!(medium.per_option() < large.per_option());
    assert_eq!(PositionLimits::default(), medium);
}

#[test]
fn limits_test_builder_methods() {
    let limits = PositionLimits::small().with_per_option(n(150)).with_max_delta(n(75000));
    assert_eq!(limits.per_option(), n(150));
    assert_eq!(limits.max_delta(), n(75000));
}

#[test]
fn test_exceeds_checks() {
    let limits = PositionLimits::new(n(100), n(200), n(500), n(1000));
    assert!(!limits.exceeds_per_option(n(50)));
    assert!(!limits.exceeds_per_option(n(100)));
    assert!(limits.exceeds_per_option(n(101)));
    assert!(limits.exceeds_per_option(n(-101)));
    assert!(limits.exceeds_per_strike(n(201)));
    assert!(!limits.exceeds_per_expiration(n(-500)));
    assert!(limits.exceeds_per_underlying(n(1001)));
}

#[test]
fn limits_test_greek_limits() {
    let limits = PositionLimits::small();
    let greeks = Greeks::new(n(100), n(10), n(-50), n(200), n(5));
    let breaches = limits.check_greek_limits(&greeks, n(100), n(100));
    assert!(!breaches.is_empty());
    assert!(breaches.iter().any(|b| matches!(b, LimitBreach::Delta { .. })));
}

#[test]
fn test_no_greek_breaches() {
    let limits = PositionLimits::large();
    let greeks = Greeks::new(d(5, 1), d(2, 2), d(-5, 2), d(15, 2), d(1, 2));
    let breaches = limits.check_greek_limits(&greeks, n(100), n(100));
    assert!(breaches.is_empty());
}

#[test]
fn test_utilization() {
    let limits = PositionLimits::new(n(100), n(200), n(500), n(1000));
    assert_eq!(limits.option_utilization(n(50)), d(5, 1));
    assert_eq!(limits.option_utilization(n(100)), n(1));
    assert_eq!(limits.option_utilization(n(-75)), d(75, 2));
    let unlimited = limits.with_per_option(Dec::zero());
    assert_eq!(unlimited.option_utilization(n(75)), Dec::zero());
}

#[test]
fn limits_test_scale() {
    let scaled = PositionLimits::small().scale(n(2));
    assert_eq!(scaled.per_option(), n(200));
    assert_eq!(scaled.per_strike(), n(400));
    assert_eq!(scaled.per_expiration(), n(1000));
    assert_eq!(scaled.per_underlying(), n(2000));
    assert_eq!(scaled.max_delta(), n(100000));
}

#[test]
fn every_greek_breach_is_reported_in_order() {
    let limits = PositionLimits::small();
    // spot 100, multiplier 100: delta 1,000,000; gamma 10*1*100/2 = 500;
    // vega 20,000; theta 5,000 (not above 5,000)
    let greeks = Greeks::new(n(100), n(10), n(-50), n(200), n(5));
    let breaches = limits.check_greek_limits(&greeks, n(100), n(100));
    assert_eq!(
        breaches,
        vec![
            LimitBreach::Delta { current: n(1000000), limit: n(50000) },
            LimitBreach::Vega { current: n(20000), limit: n(10000) },
        ]
    );
    let heavy = Greeks::new(Dec::zero(), n(20), n(-60), Dec::zero(), Dec::zero());
    let breaches = limits.check_greek_limits(&heavy, n(1000), n(100));
    // gamma 20 * 10^2 * 100 / 2 = 100,000; theta 6,000
    assert_eq!(
        breaches,
        vec![
            LimitBreach::Gamma { current: n(100000), limit: n(5000) },
            LimitBreach::Theta { current: n(6000), limit: n(5000) },
        ]
    );
}
