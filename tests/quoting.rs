use option_chain_orderbook::{Dec, GeneratedQuote, QuoteParams, QuoteParamsError, SpreadCalculator};

fn d(mantissa: i64, scale: u32) -> Dec {
    Dec::new(mantissa, scale)
}

fn n(value: i64) -> Dec {
    Dec::from_int(value)
}

fn create_test_params() -> QuoteParams {
    QuoteParams::new(d(550, 2), n(0), d(20, 2), d(25, 2))
        .with_risk_aversion(d(1, 1))
        .with_arrival_intensity(d(10, 1))
        .with_max_inventory(n(100))
        .with_size_limits(n(1), n(10))
}

#[test]
fn test_quote_params_creation() {
    let params = QuoteParams::new(d(550, 2), n(10), d(20, 2), d(25, 2));
    assert_eq!(params.theo_price(), d(550, 2));
    assert_eq!(params.inventory(), n(10));
    assert_eq!(params.volatility(), d(20, 2));
    assert_eq!(params.time_to_expiry(), d(25, 2));
    assert_eq!(params.risk_aversion(), d(1, 1));
    assert_eq!(params.arrival_intensity(), n(1));
    assert_eq!(params.base_spread_vol(), d(2, 2));
    assert_eq!(params.max_inventory(), n(100));
    assert_eq!(params.min_size(), n(1));
    assert_eq!(params.max_size(), n(10));
}

#[test]
fn params_test_builder_methods() {
    let params = QuoteParams::new(d(550, 2), n(10), d(20, 2), d(25, 2))
        .with_risk_aversion(d(5, 1))
        .with_arrival_intensity(d(20, 1))
        .with_base_spread_vol(d(3, 2))
        .with_max_inventory(n(50))
        .with_size_limits(n(1), n(5));
    assert_eq!(params.risk_aversion(), d(5, 1));
    assert_eq!(params.arrival_intensity(), d(20, 1));
    assert_eq!(params.base_spread_vol(), d(3, 2));
    assert_eq!(params.max_inventory(), n(50));
    assert_eq!(params.min_size(), n(1));
    assert_eq!(params.max_size(), n(5));
}

#[test]
fn test_inventory_ratio() {
    let params = QuoteParams::new(d(550, 2), n(50), d(20, 2), d(25, 2)).with_max_inventory(n(100));
    assert_eq!(params.inventory_ratio(), d(5, 1));
    let full_long =
        QuoteParams::new(d(550, 2), n(150), d(20, 2), d(25, 2)).with_max_inventory(n(100));
    assert_eq!(full_long.inventory_ratio(), Dec::one());
    let full_short =
        QuoteParams::new(d(550, 2), n(-150), d(20, 2), d(25, 2)).with_max_inventory(n(100));
    assert_eq!(full_short.inventory_ratio(), Dec::one().neg());
    let no_ceiling = params.with_max_inventory(Dec::zero());
    assert_eq!(no_ceiling.inventory_ratio(), Dec::zero());
}

#[test]
fn test_inventory_limits() {
    let long = QuoteParams::new(d(550, 2), n(100), d(20, 2), d(25, 2)).with_max_inventory(n(100));
    assert!(long.is_inventory_full_long());
    assert!(!long.is_inventory_full_short());
    let short = QuoteParams::new(d(550, 2), n(-100), d(20, 2), d(25, 2)).with_max_inventory(n(100));
    assert!(!short.is_inventory_full_long());
    assert!(short.is_inventory_full_short());
}

#[test]
fn params_test_validation() {
    let valid = QuoteParams::new(d(550, 2), n(10), d(20, 2), d(25, 2));
    assert!(valid.validate().is_ok());
    let invalid_vol = QuoteParams::new(d(550, 2), n(10), d(-20, 2), d(25, 2));
    assert!(invalid_vol.validate().is_err());
    let invalid_size =
        QuoteParams::new(d(550, 2), n(10), d(20, 2), d(25, 2)).with_size_limits(n(10), n(5));
    assert!(invalid_size.validate().is_err());
}

#[test]
fn each_validation_rule_has_its_error() {
    let base = QuoteParams::new(d(550, 2), n(10), d(20, 2), d(25, 2));
    let cases = vec![
        (QuoteParams::new(n(-1), n(10), d(20, 2), d(25, 2)), QuoteParamsError::NegativeTheoPrice),
        (QuoteParams::new(d(550, 2), n(10), d(-1, 2), d(25, 2)), QuoteParamsError::NegativeVolatility),
        (QuoteParams::new(d(550, 2), n(10), d(20, 2), d(-1, 2)), QuoteParamsError::NegativeTimeToExpiry),
        (base.with_risk_aversion(Dec::zero()), QuoteParamsError::NonPositiveRiskAversion),
        (base.with_arrival_intensity(n(-1)), QuoteParamsError::NonPositiveArrivalIntensity),
        (base.with_max_inventory(Dec::zero()), QuoteParamsError::NonPositiveMaxInventory),
        (base.with_size_limits(Dec::zero(), n(5)), QuoteParamsError::NonPositiveMinSize),
        (base.with_size_limits(n(6), n(5)), QuoteParamsError::MaxSizeBelowMinSize),
    ];
    for (params, expected) in cases {
        assert_eq!(params.validate(), Err(expected));
    }
    assert_eq!(QuoteParamsError::NegativeVolatility.message(), "volatility cannot be negative");
    // zero volatility and zero time are allowed
    let edge = QuoteParams::new(Dec::zero(), n(0), Dec::zero(), Dec::zero());
    assert_eq!(edge.validate(), Ok(()));
}

#[test]
fn test_spread_calculator_creation() {
    let calc = SpreadCalculator::new();
    assert!(calc.min_spread() > Dec::zero());
    assert!(calc.max_spread() > calc.min_spread());
    assert_eq!(SpreadCalculator::default(), calc);
}

#[test]
fn test_optimal_spread() {
    let calc = SpreadCalculator::new();
    let spread = calc.optimal_spread(&create_test_params());
    assert!(spread >= calc.min_spread());
    assert!(spread <= calc.max_spread());
}

#[test]
fn test_inventory_skew_neutral() {
    let calc = SpreadCalculator::new();
    assert_eq!(calc.inventory_skew(&create_test_params()), Dec::zero());
}

#[test]
fn test_inventory_skew_long() {
    let calc = SpreadCalculator::new();
    let params = QuoteParams::new(d(550, 2), n(50), d(20, 2), d(25, 2))
        .with_risk_aversion(d(1, 1))
        .with_max_inventory(n(100));
    assert!(calc.inventory_skew(&params) > Dec::zero());
}

#[test]
fn test_inventory_skew_short() {
    let calc = SpreadCalculator::new();
    let params = QuoteParams::new(d(550, 2), n(-50), d(20, 2), d(25, 2))
        .with_risk_aversion(d(1, 1))
        .with_max_inventory(n(100));
    assert!(calc.inventory_skew(&params) < Dec::zero());
}

#[test]
fn test_generate_quote_neutral() {
    let calc = SpreadCalculator::new();
    let quote = calc.generate_quote(&create_test_params(), 1000);
    assert!(quote.is_valid());
    assert!(quote.bid_price() < quote.theo_price());
    assert!(quote.ask_price() > quote.theo_price());
    assert_eq!(quote.skew(), Dec::zero());
}

#[test]
fn test_generate_quote_long_inventory() {
    let calc = SpreadCalculator::new();
    let params = QuoteParams::new(d(550, 2), n(50), d(20, 2), d(25, 2))
        .with_risk_aversion(d(1, 1))
        .with_max_inventory(n(100))
        .with_size_limits(n(1), n(10));
    let quote = calc.generate_quote(&params, 1000);
    assert!(quote.skew() > Dec::zero());
    assert!(quote.ask_size() >= quote.bid_size());
}

#[test]
fn test_generate_quote_at_inventory_limit() {
    let calc = SpreadCalculator::new();
    let params = QuoteParams::new(d(550, 2), n(100), d(20, 2), d(25, 2))
        .with_risk_aversion(d(1, 1))
        .with_max_inventory(n(100))
        .with_size_limits(n(1), n(10));
    let quote = calc.generate_quote(&params, 1000);
    assert_eq!(quote.bid_size(), Dec::zero());
    assert!(quote.ask_size() > Dec::zero());
}

#[test]
fn test_spread_increases_with_volatility() {
    let calc = SpreadCalculator::new().with_max_spread(d(100, 1));
    let low_vol = QuoteParams::new(d(550, 2), n(0), d(20, 2), d(10, 1))
        .with_risk_aversion(d(10, 1))
        .with_arrival_intensity(d(100, 1));
    let high_vol = QuoteParams::new(d(550, 2), n(0), d(80, 2), d(10, 1))
        .with_risk_aversion(d(10, 1))
        .with_arrival_intensity(d(100, 1));
    let low_spread = calc.optimal_spread(&low_vol);
    let high_spread = calc.optimal_spread(&high_vol);
    assert!(high_spread > low_spread);
}

#[test]
fn spread_test_builder_methods() {
    let calc = SpreadCalculator::new()
        .with_min_spread(d(1, 2))
        .with_max_spread(d(50, 2))
        .with_inventory_skew_factor(d(2, 3))
        .with_volatility_factor(d(15, 1));
    assert_eq!(calc.min_spread(), d(1, 2));
    assert_eq!(calc.max_spread(), d(50, 2));
    assert_eq!(calc.inventory_skew_factor(), d(2, 3));
    assert_eq!(calc.volatility_factor(), d(15, 1));
}

#[test]
fn spread_formula_exact_values() {
    // gamma 1, sigma 0.2, tau 1, k 10: 0.04 + 2 * (0.1 - 0.005 + 0.00033333)
    let calc = SpreadCalculator::new().with_max_spread(n(10));
    let low_vol = QuoteParams::new(d(550, 2), n(0), d(20, 2), n(1))
        .with_risk_aversion(n(1))
        .with_arrival_intensity(n(10));
    assert_eq!(calc.optimal_spread(&low_vol), d(23066666, 8));
    // gamma / k = 1 takes the rational branch: 1 / 1.5 = 0.66666666; times 2
    let wide = low_vol.with_arrival_intensity(n(1));
    assert_eq!(calc.optimal_spread(&wide), d(137333332, 8));
    // clamped to the bounds
    assert_eq!(SpreadCalculator::new().optimal_spread(&low_vol), d(10, 2));
    let floor = SpreadCalculator::new().with_min_spread(n(5)).with_max_spread(n(6));
    assert_eq!(floor.optimal_spread(&low_vol), n(5));
    // skew: 50 * 0.1 * 0.2 * 0.2 * 0.25 * 0.001
    let skewed = QuoteParams::new(d(550, 2), n(50), d(20, 2), d(25, 2));
    assert_eq!(SpreadCalculator::new().inventory_skew(&skewed), d(5, 5));
}

#[test]
fn generated_quote_sizes_follow_inventory() {
    let calc = SpreadCalculator::new();
    let params = QuoteParams::new(d(550, 2), n(50), d(20, 2), d(25, 2));
    let quote = calc.generate_quote(&params, 77);
    // base 5.5, ratio 0.5, adjustment 1.375
    assert_eq!(quote.bid_size(), d(4125, 3));
    assert_eq!(quote.ask_size(), d(6875, 3));
    // half spread 0.05 around 5.5 - 0.00005
    assert_eq!(quote.bid_price(), d(544995, 5));
    assert_eq!(quote.ask_price(), d(554995, 5));
    assert_eq!(quote.spread(), d(10, 2));
    assert_eq!(quote.timestamp_ms(), 77);
    let short = QuoteParams::new(d(550, 2), n(-100), d(20, 2), d(25, 2));
    let quote = calc.generate_quote(&short, 78);
    assert_eq!(quote.ask_size(), Dec::zero());
    assert_eq!(quote.bid_size(), d(825, 2));
    // a cheap option: the bid stops at zero
    let cheap = QuoteParams::new(d(1, 2), n(0), d(20, 2), d(25, 2));
    let quote = calc.generate_quote(&cheap, 79);
    assert_eq!(quote.bid_price(), Dec::zero());
    assert_eq!(quote.ask_price(), d(6, 2));
}

#[test]
fn quote_validity_for_valid_params() {
    let calc = SpreadCalculator::new();
    for inventory in [-150i64, -100, -40, 0, 30, 99, 100, 200] {
        let params = QuoteParams::new(d(550, 2), n(inventory), d(20, 2), d(25, 2));
        assert!(params.validate().is_ok());
        let q = calc.generate_quote(&params, 1);
        assert!(q.ask_price() > q.bid_price());
        assert!(q.bid_price() >= Dec::zero());
        for (size, full) in [
            (q.bid_size(), params.is_inventory_full_long()),
            (q.ask_size(), params.is_inventory_full_short()),
        ] {
            if full {
                assert_eq!(size, Dec::zero());
            } else {
                assert!(size >= params.min_size() && size <= params.max_size());
            }
        }
    }
}

#[test]
fn spread_is_monotone_in_volatility() {
    let calc = SpreadCalculator::new().with_max_spread(n(1000));
    let mut last = Dec::zero();
    for sigma in [0i64, 5, 10, 20, 40, 80, 160] {
        let params = QuoteParams::new(n(5), n(0), d(sigma, 2), n(1))
            .with_risk_aversion(n(1))
            .with_arrival_intensity(n(10));
        let s = calc.optimal_spread(&params);
        assert!(s >= last);
        last = s;
    }
}

#[test]
fn test_generated_quote_creation() {
    let quote = GeneratedQuote::new(d(545, 2), n(10), d(555, 2), n(10), d(550, 2), n(0), 1000);
    assert_eq!(quote.bid_price(), d(545, 2));
    assert_eq!(quote.bid_size(), n(10));
    assert_eq!(quote.ask_price(), d(555, 2));
    assert_eq!(quote.ask_size(), n(10));
    assert_eq!(quote.theo_price(), d(550, 2));
    assert_eq!(quote.spread(), d(10, 2));
    assert_eq!(quote.skew(), n(0));
}

#[test]
fn test_symmetric_quote() {
    let quote = GeneratedQuote::symmetric(d(550, 2), d(5, 2), n(10), 1000);
    assert_eq!(quote.bid_price(), d(545, 2));
    assert_eq!(quote.ask_price(), d(555, 2));
    assert_eq!(quote.bid_size(), n(10));
    assert_eq!(quote.ask_size(), n(10));
    assert_eq!(quote.skew(), Dec::zero());
}

#[test]
fn generated_test_mid_price() {
    let quote = GeneratedQuote::new(d(540, 2), n(10), d(560, 2), n(10), d(550, 2), n(0), 1000);
    assert_eq!(quote.mid_price(), d(550, 2));
}

#[test]
fn generated_test_spread_bps() {
    let quote = GeneratedQuote::symmetric(n(100), d(50, 2), n(10), 1000);
    assert_eq!(quote.spread_bps(), Some(n(100)));
    let free = GeneratedQuote::symmetric(Dec::zero(), d(50, 2), n(10), 1000);
    assert_eq!(free.spread_bps(), None);
}

#[test]
fn test_is_valid() {
    let valid = GeneratedQuote::symmetric(d(550, 2), d(5, 2), n(10), 1000);
    assert!(valid.is_valid());
    let invalid_spread =
        GeneratedQuote::new(d(555, 2), n(10), d(545, 2), n(10), d(550, 2), n(0), 1000);
    assert!(!invalid_spread.is_valid());
    let invalid_size = GeneratedQuote::new(d(545, 2), n(0), d(555, 2), n(10), d(550, 2), n(0), 1000);
    assert!(!invalid_size.is_valid());
}

#[test]
fn test_edges() {
    let quote = GeneratedQuote::new(d(545, 2), n(10), d(558, 2), n(10), d(550, 2), d(3, 2), 1000);
    assert_eq!(quote.bid_edge(), d(5, 2));
    assert_eq!(quote.ask_edge(), d(8, 2));
}

#[test]
fn generated_test_round_to_tick() {
    let quote = GeneratedQuote::new(d(5453, 3), n(10), d(5557, 3), n(10), d(550, 2), n(0), 1000);
    let rounded = quote.round_to_tick(d(1, 2));
    assert_eq!(rounded.bid_price(), d(545, 2));
    assert_eq!(rounded.ask_price(), d(556, 2));
    assert_eq!(rounded.spread(), d(11, 2));
    assert_eq!(quote.round_to_tick(Dec::zero()), quote);
}

#[test]
fn test_with_adjustments() {
    let quote = GeneratedQuote::symmetric(d(550, 2), d(5, 2), n(10), 1000);
    let adjusted = quote.with_price_adjustment(d(10, 2));
    assert_eq!(adjusted.bid_price(), d(555, 2));
    assert_eq!(adjusted.ask_price(), d(565, 2));
    let sized = quote.with_size_multiplier(n(2));
    assert_eq!(sized.bid_size(), n(20));
    assert_eq!(sized.ask_size(), n(20));
}

#[test]
fn default_generated_quote_is_empty() {
    let q = GeneratedQuote::default();
    assert_eq!(q.bid_price(), Dec::zero());
    assert_eq!(q.ask_size(), Dec::zero());
    assert!(!q.is_valid());
}
