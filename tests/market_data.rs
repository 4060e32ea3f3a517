use option_chain_orderbook::{MarketDataHandler, MarketDataUpdate, TickData, UpdateType};

fn tick(bid: u64, ask: u64, timestamp_ms: u64) -> TickData {
    TickData {
        bid_price: Some(bid),
        bid_size: 10,
        ask_price: Some(ask),
        ask_size: 5,
        last_price: None,
        last_size: 0,
        timestamp_ms,
    }
}

#[test]
fn test_process_update() {
    let mut handler = MarketDataHandler::new();
    let update = MarketDataUpdate {
        symbol: "BTC".to_string(),
        update_type: UpdateType::Snapshot,
        tick: tick(50000, 50010, 1000),
        sequence: 1,
    };
    assert!(handler.process_update(update));
    assert_eq!(handler.symbol_count(), 1);
    let tick = handler.get_tick("BTC").unwrap();
    assert_eq!(tick.bid_price, Some(50000));
}

#[test]
fn test_stale_update_rejected() {
    let mut handler = MarketDataHandler::new();
    let update1 = MarketDataUpdate {
        symbol: "BTC".to_string(),
        update_type: UpdateType::Snapshot,
        tick: tick(50000, 50010, 1000),
        sequence: 2,
    };
    let update2 = MarketDataUpdate {
        symbol: "BTC".to_string(),
        update_type: UpdateType::Delta,
        tick: tick(49990, 50000, 999),
        sequence: 1,
    };
    assert!(handler.process_update(update1));
    assert!(!handler.process_update(update2));
    let tick = handler.get_tick("BTC").unwrap();
    assert_eq!(tick.bid_price, Some(50000));
}

#[test]
fn newer_updates_replace_and_symbols_are_separate() {
    let mut handler = MarketDataHandler::default();
    let first = MarketDataUpdate {
        symbol: "BTC".to_string(),
        update_type: UpdateType::Snapshot,
        tick: tick(100, 101, 1),
        sequence: 5,
    };
    assert!(handler.process_update(first.clone()));
    // an equal sequence number is stale too
    assert!(!handler.process_update(first));
    let newer = MarketDataUpdate {
        symbol: "BTC".to_string(),
        update_type: UpdateType::Trade,
        tick: tick(102, 104, 2),
        sequence: 6,
    };
    assert!(handler.process_update(newer));
    assert_eq!(handler.get_tick("BTC").unwrap().spread(), Some(2));
    // sequence zero is never accepted for a new symbol
    let zero = MarketDataUpdate {
        symbol: "ETH".to_string(),
        update_type: UpdateType::Snapshot,
        tick: tick(1, 2, 3),
        sequence: 0,
    };
    assert!(!handler.process_update(zero));
    assert!(handler.get_tick("ETH").is_none());
    assert_eq!(handler.symbol_count(), 1);
    handler.clear();
    assert_eq!(handler.symbol_count(), 0);
}
