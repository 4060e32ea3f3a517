//! Inputs of quote generation.
use vstd::prelude::*;

use crate::decimal::{clamp_int, div_units, fits, Dec, SCALE};

verus! {

/// The mathematical content of a [`QuoteParams`], in 10^-8 units.
pub struct QuoteParamsModel {
    pub theo_price: int,
    pub inventory: int,
    pub volatility: int,
    pub time_to_expiry: int,
    pub risk_aversion: int,
    pub arrival_intensity: int,
    pub base_spread_vol: int,
    pub max_inventory: int,
    pub min_size: int,
    pub max_size: int,
}

/// Why a [`QuoteParams`] cannot be quoted on.
#[derive(Clone, Copy, Debug, PartialEq, Eq, Structural)]
pub enum QuoteParamsError {
    NegativeTheoPrice,
    NegativeVolatility,
    NegativeTimeToExpiry,
    NonPositiveRiskAversion,
    NonPositiveArrivalIntensity,
    NonPositiveMaxInventory,
    NonPositiveMinSize,
    MaxSizeBelowMinSize,
}

impl QuoteParamsModel {
    /// The first rule the parameters break, in the order the rules are checked.
    pub open spec fn first_violation(self) -> Option<QuoteParamsError> {
        if self.theo_price < 0 {
            Some(QuoteParamsError::NegativeTheoPrice)
        } else if self.volatility < 0 {
            Some(QuoteParamsError::NegativeVolatility)
        } else if self.time_to_expiry < 0 {
            Some(QuoteParamsError::NegativeTimeToExpiry)
        } else if self.risk_aversion <= 0 {
            Some(QuoteParamsError::NonPositiveRiskAversion)
        } else if self.arrival_intensity <= 0 {
            Some(QuoteParamsError::NonPositiveArrivalIntensity)
        } else if self.max_inventory <= 0 {
            Some(QuoteParamsError::NonPositiveMaxInventory)
        } else if self.min_size <= 0 {
            Some(QuoteParamsError::NonPositiveMinSize)
        } else if self.max_size < self.min_size {
            Some(QuoteParamsError::MaxSizeBelowMinSize)
        } else {
            None
        }
    }

    pub open spec fn is_valid(self) -> bool {
        self.first_violation() is None
    }

    /// inventory / max_inventory held within [-1, 1]; zero without a ceiling.
    pub open spec fn inventory_ratio(self) -> int {
        if self.max_inventory == 0 {
            0
        } else {
            clamp_int(div_units(self.inventory, self.max_inventory), -SCALE, SCALE as int)
        }
    }

    pub open spec fn ratio_fits(self) -> bool {
        self.max_inventory != 0 ==> fits(div_units(self.inventory, self.max_inventory))
    }

    pub open spec fn is_inventory_full_long(self) -> bool {
        self.inventory >= self.max_inventory
    }

    pub open spec fn is_inventory_full_short(self) -> bool {
        self.inventory <= -self.max_inventory
    }
}

/// Everything the spread formula reads about one contract and the book.
#[derive(Clone, Copy, Debug, PartialEq, Eq, Structural)]
pub struct QuoteParams {
    theo_price: Dec,
    inventory: Dec,
    volatility: Dec,
    time_to_expiry: Dec,
    risk_aversion: Dec,
    arrival_intensity: Dec,
    base_spread_vol: Dec,
    max_inventory: Dec,
    min_size: Dec,
    max_size: Dec,
}

impl View for QuoteParams {
    type V = QuoteParamsModel;

    closed spec fn view(&self) -> QuoteParamsModel {
        QuoteParamsModel {
            theo_price: self.theo_price@,
            inventory: self.inventory@,
            volatility: self.volatility@,
            time_to_expiry: self.time_to_expiry@,
            risk_aversion: self.risk_aversion@,
            arrival_intensity: self.arrival_intensity@,
            base_spread_vol: self.base_spread_vol@,
            max_inventory: self.max_inventory@,
            min_size: self.min_size@,
            max_size: self.max_size@,
        }
    }
}

impl QuoteParams {
    /// Parameters with risk aversion 0.1, arrival intensity 1, base spread
    /// volatility 0.02, inventory ceiling 100 and sizes from 1 to 10.
    pub fn new(theo_price: Dec, inventory: Dec, volatility: Dec, time_to_expiry: Dec) -> (r:
        QuoteParams)
        ensures
            r@ == (QuoteParamsModel {
                theo_price: theo_price@,
                inventory: inventory@,
                volatility: volatility@,
                time_to_expiry: time_to_expiry@,
                risk_aversion: SCALE / 10,
                arrival_intensity: SCALE as int,
                base_spread_vol: SCALE / 50,
                max_inventory: 100 * SCALE,
                min_size: SCALE as int,
                max_size: 10 * SCALE,
            }),
    {
        QuoteParams {
            theo_price,
            inventory,
            volatility,
            time_to_expiry,
            risk_aversion: Dec::from_units(SCALE / 10),
            arrival_intensity: Dec::one(),
            base_spread_vol: Dec::from_units(SCALE / 50),
            max_inventory: Dec::from_int(100),
            min_size: Dec::one(),
            max_size: Dec::from_int(10),
        }
    }

    pub fn theo_price(&self) -> (r: Dec)
        ensures
            r@ == self@.theo_price,
    {
        self.theo_price
    }

    pub fn inventory(&self) -> (r: Dec)
        ensures
            r@ == self@.inventory,
    {
        self.inventory
    }

    pub fn volatility(&self) -> (r: Dec)
        ensures
            r@ == self@.volatility,
    {
        self.volatility
    }

    pub fn time_to_expiry(&self) -> (r: Dec)
        ensures
            r@ == self@.time_to_expiry,
    {
        self.time_to_expiry
    }

    pub fn risk_aversion(&self) -> (r: Dec)
        ensures
            r@ == self@.risk_aversion,
    {
        self.risk_aversion
    }

    pub fn arrival_intensity(&self) -> (r: Dec)
        ensures
            r@ == self@.arrival_intensity,
    {
        self.arrival_intensity
    }

    pub fn base_spread_vol(&self) -> (r: Dec)
        ensures
            r@ == self@.base_spread_vol,
    {
        self.base_spread_vol
    }

    pub fn max_inventory(&self) -> (r: Dec)
        ensures
            r@ == self@.max_inventory,
    {
        self.max_inventory
    }

    pub fn min_size(&self) -> (r: Dec)
        ensures
            r@ == self@.min_size,
    {
        self.min_size
    }

    pub fn max_size(&self) -> (r: Dec)
        ensures
            r@ == self@.max_size,
    {
        self.max_size
    }

    pub fn with_risk_aversion(self, risk_aversion: Dec) -> (r: QuoteParams)
        ensures
            r@ == (QuoteParamsModel { risk_aversion: risk_aversion@, ..self@ }),
    {
        QuoteParams { risk_aversion, ..self }
    }

    pub fn with_arrival_intensity(self, arrival_intensity: Dec) -> (r: QuoteParams)
        ensures
            r@ == (QuoteParamsModel { arrival_intensity: arrival_intensity@, ..self@ }),
    {
        QuoteParams { arrival_intensity, ..self }
    }

    pub fn with_base_spread_vol(self, base_spread_vol: Dec) -> (r: QuoteParams)
        ensures
            r@ == (QuoteParamsModel { base_spread_vol: base_spread_vol@, ..self@ }),
    {
        QuoteParams { base_spread_vol, ..self }
    }

    pub fn with_max_inventory(self, max_inventory: Dec) -> (r: QuoteParams)
        ensures
            r@ == (QuoteParamsModel { max_inventory: max_inventory@, ..self@ }),
    {
        QuoteParams { max_inventory, ..self }
    }

    pub fn with_size_limits(self, min_size: Dec, max_size: Dec) -> (r: QuoteParams)
        ensures
            r@ == (QuoteParamsModel { min_size: min_size@, max_size: max_size@, ..self@ }),
    {
        QuoteParams { min_size, max_size, ..self }
    }

    /// inventory / max_inventory held within [-1, 1]; zero when the ceiling is zero.
    pub fn inventory_ratio(&self) -> (r: Dec)
        requires
            self@.ratio_fits(),
        ensures
            r@ == self@.inventory_ratio(),
    {
        if self.max_inventory.is_zero() {
            return Dec::zero();
        }
        let ratio = self.inventory.div(self.max_inventory);
        ratio.max(Dec::one().neg()).min(Dec::one())
    }

    pub fn is_inventory_full_long(&self) -> (r: bool)
        ensures
            r == self@.is_inventory_full_long(),
    {
        self.inventory >= self.max_inventory
    }

    pub fn is_inventory_full_short(&self) -> (r: bool)
        requires
            fits(-self@.max_inventory),
        ensures
            r == self@.is_inventory_full_short(),
    {
        self.inventory <= self.max_inventory.neg()
    }

    /// Checks the rules in order and reports the first one broken.
    pub fn validate(&self) -> (r: Result<(), QuoteParamsError>)
        ensures
            r is Ok == self@.is_valid(),
            r matches Err(e) ==> self@.first_violation() == Some(e),
    {
        let zero = Dec::zero();
        if self.theo_price < zero {
            return Err(QuoteParamsError::NegativeTheoPrice);
        }
        if self.volatility < zero {
            return Err(QuoteParamsError::NegativeVolatility);
        }
        if self.time_to_expiry < zero {
            return Err(QuoteParamsError::NegativeTimeToExpiry);
        }
        if self.risk_aversion <= zero {
            return Err(QuoteParamsError::NonPositiveRiskAversion);
        }
        if self.arrival_intensity <= zero {
            return Err(QuoteParamsError::NonPositiveArrivalIntensity);
        }
        if self.max_inventory <= zero {
            return Err(QuoteParamsError::NonPositiveMaxInventory);
        }
        if self.min_size <= zero {
            return Err(QuoteParamsError::NonPositiveMinSize);
        }
        if self.max_size < self.min_size {
            return Err(QuoteParamsError::MaxSizeBelowMinSize);
        }
        Ok(())
    }
}

impl QuoteParamsError {
    /// A sentence saying which rule was broken.
    pub fn message(&self) -> (r: &'static str)
        ensures
            r@ == (match self {
                QuoteParamsError::NegativeTheoPrice => "theoretical price cannot be negative"@,
                QuoteParamsError::NegativeVolatility => "volatility cannot be negative"@,
                QuoteParamsError::NegativeTimeToExpiry => "time to expiry cannot be negative"@,
                QuoteParamsError::NonPositiveRiskAversion => "risk aversion must be positive"@,
                QuoteParamsError::NonPositiveArrivalIntensity =>
                    "arrival intensity must be positive"@,
                QuoteParamsError::NonPositiveMaxInventory => "max inventory must be positive"@,
                QuoteParamsError::NonPositiveMinSize => "min size must be positive"@,
                QuoteParamsError::MaxSizeBelowMinSize => "max size must be >= min size"@,
            }),
    {
        match self {
            QuoteParamsError::NegativeTheoPrice => "theoretical price cannot be negative",
            QuoteParamsError::NegativeVolatility => "volatility cannot be negative",
            QuoteParamsError::NegativeTimeToExpiry => "time to expiry cannot be negative",
            QuoteParamsError::NonPositiveRiskAversion => "risk aversion must be positive",
            QuoteParamsError::NonPositiveArrivalIntensity => "arrival intensity must be positive",
            QuoteParamsError::NonPositiveMaxInventory => "max inventory must be positive",
            QuoteParamsError::NonPositiveMinSize => "min size must be positive",
            QuoteParamsError::MaxSizeBelowMinSize => "max size must be >= min size",
        }
    }
}

} // verus!
