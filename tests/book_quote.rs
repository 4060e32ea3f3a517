use option_chain_orderbook::{Quote, QuoteUpdate};

#[test]
fn test_quote_creation() {
    let quote = Quote::new(Some(100), 10, Some(101), 5, 1000);
    assert_eq!(quote.bid_price(), Some(100));
    assert_eq!(quote.bid_size(), 10);
    assert_eq!(quote.ask_price(), Some(101));
    assert_eq!(quote.ask_size(), 5);
    assert_eq!(quote.timestamp_ms(), 1000);
}

#[test]
fn quote_test_empty_quote() {
    let quote = Quote::empty(1000);
    assert!(quote.bid_price().is_none());
    assert!(quote.ask_price().is_none());
    assert!(quote.is_empty());
    assert!(!quote.is_two_sided());
}

#[test]
fn test_spread() {
    let quote = Quote::new(Some(100), 10, Some(102), 5, 1000);
    assert_eq!(quote.spread(), Some(2));
}

#[test]
fn test_quote_validity() {
    let valid = Quote::new(Some(100), 10, Some(101), 5, 1000);
    assert!(valid.is_valid());
    let invalid = Quote::new(Some(101), 10, Some(100), 5, 1000);
    assert!(!invalid.is_valid());
    let one_sided = Quote::new(Some(100), 10, None, 0, 1000);
    assert!(one_sided.is_valid());
}

#[test]
fn test_quote_update() {
    let prev = Quote::new(Some(100), 10, Some(101), 5, 1000);
    let curr = Quote::new(Some(100), 15, Some(102), 5, 1001);
    let update = QuoteUpdate::new(12345, prev, curr);
    assert!(!update.bid_price_changed());
    assert!(update.ask_price_changed());
    assert!(update.bid_size_changed());
    assert!(!update.ask_size_changed());
    assert!(update.price_changed());
}

#[test]
fn crossed_and_one_sided_spreads() {
    let crossed = Quote::new(Some(101), 10, Some(100), 5, 1000);
    assert_eq!(crossed.spread(), Some(0));
    let one_sided = Quote::new(None, 0, Some(100), 5, 1000);
    assert_eq!(one_sided.spread(), None);
    assert!(!one_sided.is_empty());
    assert_eq!(Quote::default(), Quote::empty(0));
}

#[test]
fn spread_change_between_quotes() {
    let prev = Quote::new(Some(100), 10, Some(102), 5, 1000);
    let curr = Quote::new(Some(101), 10, Some(106), 5, 1001);
    let update = QuoteUpdate::new(7, prev, curr);
    assert_eq!(update.spread_change(), Some(3));
    assert_eq!(update.symbol_hash(), 7);
    assert_eq!(*update.previous(), prev);
    assert_eq!(*update.current(), curr);
    let narrowing = QuoteUpdate::new(7, curr, prev);
    assert_eq!(narrowing.spread_change(), Some(-3));
    let gone = QuoteUpdate::new(7, prev, Quote::empty(2));
    assert_eq!(gone.spread_change(), None);
    assert!(gone.price_changed());
}
