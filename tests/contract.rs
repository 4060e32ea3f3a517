use option_chain_orderbook::OptionType;

#[test]
fn test_option_type_display() {
    assert_eq!(OptionType::Call.to_string(), "C");
    assert_eq!(OptionType::Put.to_string(), "P");
}

#[test]
fn test_option_type_checks() {
    assert!(OptionType::Call.is_call());
    assert!(!OptionType::Call.is_put());
    assert!(OptionType::Put.is_put());
    assert!(!OptionType::Put.is_call());
}
