use option_chain_orderbook::{Dec, Error, Greeks, InventoryManager, LimitKind, PositionLimits};

fn d(mantissa: i64, scale: u32) -> Dec {
    Dec::new(mantissa, scale)
}

fn n(value: i64) -> Dec {
    Dec::from_int(value)
}

const CALL: &str = "BTC-20240329-50000-C";
const PUT: &str = "BTC-20240329-50000-P";

#[test]
fn test_inventory_manager_creation() {
    let manager = InventoryManager::new("BTC", PositionLimits::small(), n(1));
    assert_eq!(manager.underlying(), "BTC");
    assert!(manager.is_empty());
}

#[test]
fn test_record_trade() {
    let mut manager = InventoryManager::new("BTC", PositionLimits::small(), n(100));
    manager.record_trade(CALL, n(10), d(550, 2), 1000).unwrap();
    let position = manager.get_position(CALL).unwrap();
    assert_eq!(position.quantity(), n(10));
    assert_eq!(position.average_price(), d(550, 2));
}

#[test]
fn test_limit_exceeded() {
    let limits = PositionLimits::new(n(10), n(20), n(50), n(100));
    let mut manager = InventoryManager::new("BTC", limits, n(100));
    manager.record_trade(CALL, n(10), d(550, 2), 1000).unwrap();
    let result = manager.record_trade(CALL, n(5), d(550, 2), 2000);
    assert!(result.is_err());
}

#[test]
fn test_total_greeks() {
    let mut manager = InventoryManager::new("BTC", PositionLimits::small(), n(100));
    manager.record_trade(CALL, n(10), d(550, 2), 1000).unwrap();
    manager.record_trade(PUT, n(5), d(300, 2), 1000).unwrap();
    let greeks1 = Greeks::new(d(5, 1), d(2, 2), d(-5, 2), d(15, 2), d(1, 2));
    let greeks2 = Greeks::new(d(-3, 1), d(1, 2), d(-3, 2), d(10, 2), d(2, 2));
    manager.update_greeks(CALL, greeks1, 2000);
    manager.update_greeks(PUT, greeks2, 2000);
    let total = manager.total_greeks();
    assert_eq!(total.delta(), d(2, 1));
}

#[test]
fn refused_trade_changes_nothing() {
    let limits = PositionLimits::new(n(10), n(20), n(50), n(100));
    let mut manager = InventoryManager::new("BTC", limits, n(100));
    manager.record_trade(CALL, n(10), d(550, 2), 1000).unwrap();
    let result = manager.record_trade(CALL, n(5), d(550, 2), 2000);
    assert_eq!(
        result,
        Err(Error::InventoryLimitExceeded {
            limit_type: LimitKind::PerOption,
            limit: n(10),
            current: n(15),
        })
    );
    let position = manager.get_position(CALL).unwrap();
    assert_eq!(position.quantity(), n(10));
    assert_eq!(position.last_update_ms(), 1000);
    // a refused first trade creates no position
    assert!(manager.record_trade(PUT, n(-11), n(1), 3000).is_err());
    assert!(manager.get_position(PUT).is_none());
    assert_eq!(manager.position_count(), 1);
    assert_eq!(LimitKind::PerOption.name(), "per_option");
}

#[test]
fn positions_are_created_once_and_removed() {
    let mut manager = InventoryManager::new("BTC", PositionLimits::small(), n(100));
    let fresh = manager.get_or_create_position(CALL);
    assert!(fresh.is_flat());
    assert_eq!(fresh.multiplier(), n(100));
    assert_eq!(manager.position_count(), 1);
    manager.get_or_create_position(CALL);
    assert_eq!(manager.position_count(), 1);
    manager.record_trade(CALL, n(3), n(2), 1000).unwrap();
    manager.record_trade(CALL, n(-3), n(3), 2000).unwrap();
    manager.record_trade(PUT, n(2), n(1), 2000).unwrap();
    manager.record_trade(PUT, n(-2), n(2), 2500).unwrap();
    // 3 * (3 - 2) * 100 + 2 * (2 - 1) * 100
    assert_eq!(manager.total_realized_pnl(), n(500));
    let listed = manager.positions();
    assert_eq!(listed.len(), 2);
    assert_eq!(listed[0].0, CALL);
    assert_eq!(listed[1].0, PUT);
    let removed = manager.remove_position(CALL).unwrap();
    assert_eq!(removed.realized_pnl(), n(300));
    assert!(manager.remove_position(CALL).is_none());
    assert_eq!(manager.position_count(), 1);
    manager.clear();
    assert!(manager.is_empty());
}

#[test]
fn manager_greek_limits_use_summed_greeks() {
    let mut manager = InventoryManager::new("BTC", PositionLimits::small(), n(100));
    manager.record_trade(CALL, n(1), n(1), 1000).unwrap();
    manager.record_trade(PUT, n(1), n(1), 1000).unwrap();
    let half = Greeks::new(n(3), Dec::zero(), Dec::zero(), Dec::zero(), Dec::zero());
    manager.update_greeks(CALL, half, 2000);
    manager.update_greeks(PUT, half, 2000);
    // each alone is 3 * 100 * 100 = 30,000 (under 50,000); together 60,000
    assert!(PositionLimits::small().check_greek_limits(&half, n(100), n(100)).is_empty());
    assert_eq!(manager.check_greek_limits(n(100), n(100)).len(), 1);
}
