use option_chain_orderbook::{Dec, Greeks, Position};

fn d(mantissa: i64, scale: u32) -> Dec {
    Dec::new(mantissa, scale)
}

#[test]
fn test_position_creation() {
    let pos = Position::new(d(100, 0));
    assert!(pos.is_flat());
    assert_eq!(pos.quantity(), Dec::zero());
    assert_eq!(pos.multiplier(), d(100, 0));
}

#[test]
fn test_position_with_entry() {
    let pos = Position::with_entry(d(10, 0), d(550, 2), d(100, 0), 1000);
    assert!(pos.is_long());
    assert_eq!(pos.quantity(), d(10, 0));
    assert_eq!(pos.average_price(), d(550, 2));
    assert_eq!(pos.cost_basis(), d(5500, 0));
}

#[test]
fn test_add_to_long() {
    let mut pos = Position::with_entry(d(10, 0), d(500, 2), d(100, 0), 1000);
    pos.add(d(10, 0), d(600, 2), 2000);
    assert_eq!(pos.quantity(), d(20, 0));
    assert_eq!(pos.average_price(), d(550, 2));
    assert_eq!(pos.cost_basis(), d(11000, 0));
}

#[test]
fn test_reduce_long() {
    let mut pos = Position::with_entry(d(10, 0), d(500, 2), d(100, 0), 1000);
    pos.add(d(-5, 0), d(600, 2), 2000);
    assert_eq!(pos.quantity(), d(5, 0));
    assert_eq!(pos.realized_pnl(), d(500, 0));
}

#[test]
fn test_close_position() {
    let mut pos = Position::with_entry(d(10, 0), d(500, 2), d(100, 0), 1000);
    let pnl = pos.close(d(600, 2), 2000);
    assert!(pos.is_flat());
    assert_eq!(pnl, d(1000, 0));
    assert_eq!(pos.realized_pnl(), d(1000, 0));
}

#[test]
fn test_short_position() {
    let mut pos = Position::new(d(100, 0));
    pos.add(d(-10, 0), d(500, 2), 1000);
    assert!(pos.is_short());
    assert_eq!(pos.quantity(), d(-10, 0));
    assert_eq!(pos.cost_basis(), d(-5000, 0));
}

#[test]
fn test_unrealized_pnl_long() {
    let pos = Position::with_entry(d(10, 0), d(500, 2), d(100, 0), 1000);
    assert_eq!(pos.unrealized_pnl(d(600, 2)), d(1000, 0));
    assert_eq!(pos.unrealized_pnl(d(400, 2)), d(-1000, 0));
}

#[test]
fn test_unrealized_pnl_short() {
    let mut pos = Position::new(d(100, 0));
    pos.add(d(-10, 0), d(500, 2), 1000);
    assert_eq!(pos.unrealized_pnl(d(400, 2)), d(1000, 0));
    assert_eq!(pos.unrealized_pnl(d(600, 2)), d(-1000, 0));
}

#[test]
fn test_flip_position() {
    let mut pos = Position::with_entry(d(10, 0), d(500, 2), d(100, 0), 1000);
    pos.add(d(-15, 0), d(600, 2), 2000);
    assert!(pos.is_short());
    assert_eq!(pos.quantity(), d(-5, 0));
    assert_eq!(pos.realized_pnl(), d(1000, 0));
    assert_eq!(pos.average_price(), d(600, 2));
}

#[test]
fn test_update_greeks() {
    let mut pos = Position::with_entry(d(10, 0), d(500, 2), d(100, 0), 1000);
    let greeks = Greeks::new(d(5, 1), d(2, 2), d(-5, 2), d(15, 2), d(1, 2));
    pos.update_greeks(greeks, 2000);
    assert_eq!(pos.greeks().delta(), d(5, 1));
    assert_eq!(pos.last_update_ms(), 2000);
}

#[test]
fn test_total_pnl() {
    let mut pos = Position::with_entry(d(10, 0), d(500, 2), d(100, 0), 1000);
    pos.add(d(-5, 0), d(600, 2), 2000);
    assert_eq!(pos.total_pnl(d(650, 2)), d(1250, 0));
}

#[test]
fn test_reset() {
    let mut pos = Position::with_entry(d(10, 0), d(500, 2), d(100, 0), 1000);
    pos.close(d(600, 2), 2000);
    pos.reset();
    assert!(pos.is_flat());
    assert_eq!(pos.realized_pnl(), Dec::zero());
}

#[test]
fn flip_scenario_long_ten_sell_fifteen() {
    let mut pos = Position::with_entry(d(10, 0), d(500, 2), d(100, 0), 1000);
    pos.add(d(-15, 0), d(600, 2), 2000);
    assert_eq!(pos.realized_pnl(), d(1000, 0));
    assert_eq!(pos.quantity(), d(-5, 0));
    assert_eq!(pos.average_price(), d(600, 2));
    assert_eq!(pos.cost_basis(), d(-3000, 0));
    assert_eq!(pos.last_update_ms(), 2000);
}

#[test]
fn entry_then_close_round_trip() {
    let mut pos = Position::with_entry(d(7, 0), d(1234, 2), d(100, 0), 1000);
    assert_eq!(pos.close(d(1234, 2), 2000), Dec::zero());
    assert_eq!(pos.realized_pnl(), Dec::zero());
    assert!(pos.is_flat());
    assert_eq!(pos.average_price(), Dec::zero());
    assert_eq!(pos.cost_basis(), Dec::zero());

    // 7 * (13.00 - 12.34) * 100 = 462
    let mut pos = Position::with_entry(d(7, 0), d(1234, 2), d(100, 0), 1000);
    assert_eq!(pos.close(d(1300, 2), 2000), d(462, 0));
    let mut short = Position::with_entry(d(-3, 0), d(200, 2), d(10, 0), 1000);
    // -3 * (1.50 - 2.00) * 10 = 15
    assert_eq!(short.close(d(150, 2), 2000), d(15, 0));
}

#[test]
fn exact_close_of_a_short_and_zero_trade() {
    let mut pos = Position::new(d(100, 0));
    pos.add(d(-4, 0), d(300, 2), 1000);
    pos.add(d(4, 0), d(250, 2), 2000);
    // closing a short below cost earns 4 * 0.50 * 100
    assert!(pos.is_flat());
    assert_eq!(pos.realized_pnl(), d(200, 0));
    assert_eq!(pos.cost_basis(), Dec::zero());
    let before = pos;
    pos.add(Dec::zero(), d(999, 0), 5000);
    assert_eq!(pos, before);
    pos.reduce(d(-2, 0), d(100, 2), 6000);
    assert_eq!(pos.quantity(), d(2, 0));
}
