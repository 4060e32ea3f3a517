//! Option contract kinds and the order vocabulary shared with exchanges.
use vstd::prelude::*;

verus! {

/// Call or put.
#[derive(Clone, Copy, Debug, PartialEq, Eq, Hash, Structural)]
pub enum OptionType {
    /// Right to buy the underlying.
    Call,
    /// Right to sell the underlying.
    Put,
}

impl OptionType {
    pub fn is_call(&self) -> (r: bool)
        ensures
            r == (*self == OptionType::Call),
    {
        match self {
            OptionType::Call => true,
            OptionType::Put => false,
        }
    }

    pub fn is_put(&self) -> (r: bool)
        ensures
            r == (*self == OptionType::Put),
    {
        match self {
            OptionType::Call => false,
            OptionType::Put => true,
        }
    }

    /// The one-letter code used in contract symbols: "C" or "P".
    pub fn to_string(&self) -> (r: String)
        ensures
            r@ == (match self {
                OptionType::Call => "C"@,
                OptionType::Put => "P"@,
            }),
    {
        match self {
            OptionType::Call => "C".to_owned(),
            OptionType::Put => "P".to_owned(),
        }
    }
}

/// Direction of an exchange order.
#[derive(Clone, Copy, Debug, PartialEq, Eq, Structural)]
pub enum OrderSide {
    Buy,
    Sell,
}

/// How an exchange order executes.
#[derive(Clone, Copy, Debug, PartialEq, Eq, Structural)]
pub enum OrderType {
    Market,
    Limit,
    PostOnly,
}

/// Life-cycle state of an exchange order.
#[derive(Clone, Copy, Debug, PartialEq, Eq, Structural)]
pub enum OrderStatus {
    Pending,
    Open,
    PartiallyFilled,
    Filled,
    Cancelled,
    Rejected,
}

/// Why an exchange refused or failed a request.
#[derive(Clone, Debug, PartialEq, Eq)]
pub enum AdapterError {
    Connection(String),
    Authentication(String),
    OrderRejected(String),
    RateLimited,
    Unknown(String),
}

} // verus!
