//! Errors of the inventory layer.
use vstd::prelude::*;

use crate::decimal::Dec;

verus! {

/// Which size ceiling a trade would break.
#[derive(Clone, Copy, Debug, PartialEq, Eq, Structural)]
pub enum LimitKind {
    PerOption,
    PerStrike,
    PerExpiration,
    PerUnderlying,
}

/// An operation that was refused, with nothing changed.
#[derive(Clone, Copy, Debug, PartialEq, Eq, Structural)]
pub enum Error {
    /// A trade would take a position's size above a ceiling.
    InventoryLimitExceeded { limit_type: LimitKind, limit: Dec, current: Dec },
}

impl LimitKind {
    /// The ceiling's name, as configuration files spell it.
    pub fn name(&self) -> (r: &'static str)
        ensures
            r@ == (match self {
                LimitKind::PerOption => "per_option"@,
                LimitKind::PerStrike => "per_strike"@,
                LimitKind::PerExpiration => "per_expiration"@,
                LimitKind::PerUnderlying => "per_underlying"@,
            }),
    {
        match self {
            LimitKind::PerOption => "per_option",
            LimitKind::PerStrike => "per_strike",
            LimitKind::PerExpiration => "per_expiration",
            LimitKind::PerUnderlying => "per_underlying",
        }
    }
}

} // verus!
