use option_chain_orderbook::{Dec, DeltaHedger, Greeks, HedgeOrder, HedgeParams, HedgeReason};

fn n(value: i64) -> Dec {
    Dec::from_int(value)
}

fn delta_only(delta: Dec) -> Greeks {
    Greeks::new(delta, Dec::zero(), Dec::zero(), Dec::zero(), Dec::zero())
}

#[test]
fn test_hedger_creation() {
    let hedger = DeltaHedger::default();
    assert_eq!(hedger.current_delta(), Dec::zero());
    assert!(!hedger.needs_hedge());
}

#[test]
fn test_needs_hedge() {
    let mut hedger = DeltaHedger::default();
    hedger.update_delta(&delta_only(n(15)));
    assert!(hedger.needs_hedge());
}

#[test]
fn test_calculate_hedge() {
    let mut hedger = DeltaHedger::default();
    hedger.update_delta(&delta_only(n(50)));
    let order = hedger.calculate_hedge("BTC", n(50000), 1000);
    assert!(order.is_some());
    let order = order.unwrap();
    assert!(order.is_sell());
    assert_eq!(order.quantity, n(-50));
}

#[test]
fn hedge_threshold_scenario() {
    let params = HedgeParams { use_limit_orders: false, ..HedgeParams::default() };
    let mut hedger = DeltaHedger::new(params);
    hedger.update_delta(&delta_only(n(15)));
    assert!(hedger.needs_hedge());
    let order = hedger.calculate_hedge("BTC", n(100), 1000).unwrap();
    assert_eq!(order, HedgeOrder::new("BTC", n(-15), None, HedgeReason::DeltaThreshold, 1000));
    hedger.update_delta(&delta_only(n(5)));
    assert!(!hedger.needs_hedge());
    assert!(hedger.calculate_hedge("BTC", n(100), 1000).is_none());
}

#[test]
fn hedge_is_clamped_and_priced_for_edge() {
    let mut hedger = DeltaHedger::default();
    hedger.update_delta(&delta_only(n(-250)));
    let order = hedger.calculate_hedge("ETH", n(2000), 5).unwrap();
    // buy, cut to the maximum of 100, limit 5 bps below spot
    assert!(order.is_buy());
    assert_eq!(order.quantity, n(100));
    assert_eq!(order.abs_quantity(), n(100));
    assert_eq!(order.limit_price, Some(n(1999)));
    assert_eq!(order.symbol, "ETH");
    hedger.update_delta(&delta_only(n(250)));
    let order = hedger.calculate_hedge("ETH", n(2000), 5).unwrap();
    assert_eq!(order.quantity, n(-100));
    assert_eq!(order.limit_price, Some(n(2001)));
}

#[test]
fn hedge_below_minimum_size_is_dropped() {
    let params = HedgeParams {
        hedge_threshold: n(1),
        min_hedge_size: n(5),
        ..HedgeParams::default()
    };
    let mut hedger = DeltaHedger::new(params);
    hedger.update_delta(&delta_only(n(3)));
    assert!(hedger.needs_hedge());
    assert!(hedger.calculate_hedge("BTC", n(100), 1).is_none());
}

#[test]
fn recorded_hedge_moves_delta() {
    let mut hedger = DeltaHedger::default();
    hedger.update_delta(&delta_only(n(15)));
    hedger.record_hedge(n(-15), 4242);
    assert_eq!(hedger.current_delta(), Dec::zero());
    assert_eq!(hedger.last_hedge_ms(), 4242);
    assert!(!hedger.needs_hedge());
    // update overwrites rather than accumulates
    hedger.update_delta(&delta_only(n(7)));
    hedger.update_delta(&delta_only(n(8)));
    assert_eq!(hedger.current_delta(), n(8));
    assert_eq!(hedger.delta_deviation(), n(8));
}
