//! Size ceilings and dollar-Greek ceilings for inventory.
use vstd::prelude::*;

use crate::decimal::{abs_int, dec_of, div_units, fits, mul_units, Dec, SCALE};
use crate::greeks::{Greeks, GreeksModel};

verus! {

/// The mathematical content of a [`PositionLimits`], in 10^-8 units.
pub struct LimitsModel {
    pub per_option: int,
    pub per_strike: int,
    pub per_expiration: int,
    pub per_underlying: int,
    pub max_delta: int,
    pub max_gamma: int,
    pub max_vega: int,
    pub max_theta: int,
}

/// A dollar-Greek ceiling that a portfolio exceeds.
#[derive(Clone, Copy, Debug, PartialEq, Eq, Structural)]
pub enum LimitBreach {
    Delta { current: Dec, limit: Dec },
    Gamma { current: Dec, limit: Dec },
    Vega { current: Dec, limit: Dec },
    Theta { current: Dec, limit: Dec },
}

/// The four dollar Greeks of `g`, as absolute values.
pub open spec fn dollar_exposures(g: GreeksModel, spot: int, multiplier: int) -> (
    int,
    int,
    int,
    int,
) {
    (
        abs_int(g.dollar_delta(spot, multiplier)),
        abs_int(g.dollar_gamma(spot, multiplier)),
        abs_int(g.dollar_vega(multiplier)),
        abs_int(g.dollar_theta(multiplier)),
    )
}

/// Every intermediate value of the dollar-Greek check can be held by a [`Dec`].
pub open spec fn exposures_fit(g: GreeksModel, spot: int, multiplier: int) -> bool {
    let e = dollar_exposures(g, spot, multiplier);
    &&& g.dollar_delta_fits(spot, multiplier)
    &&& g.dollar_gamma_fits(spot, multiplier)
    &&& fits(g.dollar_vega(multiplier))
    &&& fits(g.dollar_theta(multiplier))
    &&& fits(e.0)
    &&& fits(e.1)
    &&& fits(e.2)
    &&& fits(e.3)
}

/// The breach of one ceiling, if `current` is above `limit`.
pub open spec fn breach_if(over: bool, b: LimitBreach) -> Seq<LimitBreach> {
    if over {
        seq![b]
    } else {
        Seq::empty()
    }
}

impl LimitsModel {
    pub open spec fn small() -> LimitsModel {
        LimitsModel {
            per_option: 100 * SCALE,
            per_strike: 200 * SCALE,
            per_expiration: 500 * SCALE,
            per_underlying: 1000 * SCALE,
            max_delta: 50000 * SCALE,
            max_gamma: 5000 * SCALE,
            max_vega: 10000 * SCALE,
            max_theta: 5000 * SCALE,
        }
    }

    pub open spec fn medium() -> LimitsModel {
        LimitsModel {
            per_option: 500 * SCALE,
            per_strike: 1000 * SCALE,
            per_expiration: 2500 * SCALE,
            per_underlying: 5000 * SCALE,
            max_delta: 250000 * SCALE,
            max_gamma: 25000 * SCALE,
            max_vega: 50000 * SCALE,
            max_theta: 25000 * SCALE,
        }
    }

    pub open spec fn large() -> LimitsModel {
        LimitsModel {
            per_option: 1000 * SCALE,
            per_strike: 2000 * SCALE,
            per_expiration: 5000 * SCALE,
            per_underlying: 10000 * SCALE,
            max_delta: 500000 * SCALE,
            max_gamma: 50000 * SCALE,
            max_vega: 100000 * SCALE,
            max_theta: 50000 * SCALE,
        }
    }

    /// Every breached dollar-Greek ceiling, in the order delta, gamma, vega, theta.
    pub open spec fn greek_breaches(self, g: GreeksModel, spot: int, multiplier: int) -> Seq<
        LimitBreach,
    > {
        let e = dollar_exposures(g, spot, multiplier);
        breach_if(
            e.0 > self.max_delta,
            LimitBreach::Delta { current: dec_of(e.0), limit: dec_of(self.max_delta) },
        ) + breach_if(
            e.1 > self.max_gamma,
            LimitBreach::Gamma { current: dec_of(e.1), limit: dec_of(self.max_gamma) },
        ) + breach_if(
            e.2 > self.max_vega,
            LimitBreach::Vega { current: dec_of(e.2), limit: dec_of(self.max_vega) },
        ) + breach_if(
            e.3 > self.max_theta,
            LimitBreach::Theta { current: dec_of(e.3), limit: dec_of(self.max_theta) },
        )
    }

    pub open spec fn scale(self, f: int) -> LimitsModel {
        LimitsModel {
            per_option: mul_units(self.per_option, f),
            per_strike: mul_units(self.per_strike, f),
            per_expiration: mul_units(self.per_expiration, f),
            per_underlying: mul_units(self.per_underlying, f),
            max_delta: mul_units(self.max_delta, f),
            max_gamma: mul_units(self.max_gamma, f),
            max_vega: mul_units(self.max_vega, f),
            max_theta: mul_units(self.max_theta, f),
        }
    }

    pub open spec fn fits(self) -> bool {
        &&& fits(self.per_option)
        &&& fits(self.per_strike)
        &&& fits(self.per_expiration)
        &&& fits(self.per_underlying)
        &&& fits(self.max_delta)
        &&& fits(self.max_gamma)
        &&& fits(self.max_vega)
        &&& fits(self.max_theta)
    }
}

/// Ceilings on position size (per contract, strike, expiration, underlying)
/// and on dollar Greek exposure.
#[derive(Clone, Copy, Debug, PartialEq, Eq, Structural)]
pub struct PositionLimits {
    per_option: Dec,
    per_strike: Dec,
    per_expiration: Dec,
    per_underlying: Dec,
    max_delta: Dec,
    max_gamma: Dec,
    max_vega: Dec,
    max_theta: Dec,
}

impl View for PositionLimits {
    type V = LimitsModel;

    closed spec fn view(&self) -> LimitsModel {
        LimitsModel {
            per_option: self.per_option@,
            per_strike: self.per_strike@,
            per_expiration: self.per_expiration@,
            per_underlying: self.per_underlying@,
            max_delta: self.max_delta@,
            max_gamma: self.max_gamma@,
            max_vega: self.max_vega@,
            max_theta: self.max_theta@,
        }
    }
}

impl PositionLimits {
    /// Size ceilings as given; no ceiling on Greeks.
    pub fn new(per_option: Dec, per_strike: Dec, per_expiration: Dec, per_underlying: Dec) -> (r:
        PositionLimits)
        ensures
            r@ == (LimitsModel {
                per_option: per_option@,
                per_strike: per_strike@,
                per_expiration: per_expiration@,
                per_underlying: per_underlying@,
                max_delta: i64::MAX as int,
                max_gamma: i64::MAX as int,
                max_vega: i64::MAX as int,
                max_theta: i64::MAX as int,
            }),
    {
        PositionLimits {
            per_option,
            per_strike,
            per_expiration,
            per_underlying,
            max_delta: Dec::max_value(),
            max_gamma: Dec::max_value(),
            max_vega: Dec::max_value(),
            max_theta: Dec::max_value(),
        }
    }

    fn whole(
        per_option: i64,
        per_strike: i64,
        per_expiration: i64,
        per_underlying: i64,
        max_delta: i64,
        max_gamma: i64,
        max_vega: i64,
        max_theta: i64,
    ) -> (r: PositionLimits)
        requires
            0 <= per_option <= 1_000_000,
            0 <= per_strike <= 1_000_000,
            0 <= per_expiration <= 1_000_000,
            0 <= per_underlying <= 1_000_000,
            0 <= max_delta <= 1_000_000,
            0 <= max_gamma <= 1_000_000,
            0 <= max_vega <= 1_000_000,
            0 <= max_theta <= 1_000_000,
        ensures
            r@ == (LimitsModel {
                per_option: per_option * SCALE,
                per_strike: per_strike * SCALE,
                per_expiration: per_expiration * SCALE,
                per_underlying: per_underlying * SCALE,
                max_delta: max_delta * SCALE,
                max_gamma: max_gamma * SCALE,
                max_vega: max_vega * SCALE,
                max_theta: max_theta * SCALE,
            }),
    {
        PositionLimits {
            per_option: Dec::from_int(per_option),
            per_strike: Dec::from_int(per_strike),
            per_expiration: Dec::from_int(per_expiration),
            per_underlying: Dec::from_int(per_underlying),
            max_delta: Dec::from_int(max_delta),
            max_gamma: Dec::from_int(max_gamma),
            max_vega: Dec::from_int(max_vega),
            max_theta: Dec::from_int(max_theta),
        }
    }

    /// 100 / 200 / 500 / 1,000 contracts; $50,000 delta, $5,000 gamma,
    /// $10,000 vega, $5,000 theta.
    pub fn small() -> (r: PositionLimits)
        ensures
            r@ == LimitsModel::small(),
    {
        PositionLimits::whole(100, 200, 500, 1000, 50000, 5000, 10000, 5000)
    }

    /// 500 / 1,000 / 2,500 / 5,000 contracts; $250,000 delta, $25,000 gamma,
    /// $50,000 vega, $25,000 theta.
    pub fn medium() -> (r: PositionLimits)
        ensures
            r@ == LimitsModel::medium(),
    {
        PositionLimits::whole(500, 1000, 2500, 5000, 250000, 25000, 50000, 25000)
    }

    /// 1,000 / 2,000 / 5,000 / 10,000 contracts; $500,000 delta, $50,000
    /// gamma, $100,000 vega, $50,000 theta.
    pub fn large() -> (r: PositionLimits)
        ensures
            r@ == LimitsModel::large(),
    {
        PositionLimits::whole(1000, 2000, 5000, 10000, 500000, 50000, 100000, 50000)
    }

    pub fn per_option(&self) -> (r: Dec)
        ensures
            r@ == self@.per_option,
    {
        self.per_option
    }

    pub fn per_strike(&self) -> (r: Dec)
        ensures
            r@ == self@.per_strike,
    {
        self.per_strike
    }

    pub fn per_expiration(&self) -> (r: Dec)
        ensures
            r@ == self@.per_expiration,
    {
        self.per_expiration
    }

    pub fn per_underlying(&self) -> (r: Dec)
        ensures
            r@ == self@.per_underlying,
    {
        self.per_underlying
    }

    pub fn max_delta(&self) -> (r: Dec)
        ensures
            r@ == self@.max_delta,
    {
        self.max_delta
    }

    pub fn max_gamma(&self) -> (r: Dec)
        ensures
            r@ == self@.max_gamma,
    {
        self.max_gamma
    }

    pub fn max_vega(&self) -> (r: Dec)
        ensures
            r@ == self@.max_vega,
    {
        self.max_vega
    }

    pub fn max_theta(&self) -> (r: Dec)
        ensures
            r@ == self@.max_theta,
    {
        self.max_theta
    }

    pub fn with_per_option(self, limit: Dec) -> (r: PositionLimits)
        ensures
            r@ == (LimitsModel { per_option: limit@, ..self@ }),
    {
        PositionLimits { per_option: limit, ..self }
    }

    pub fn with_per_strike(self, limit: Dec) -> (r: PositionLimits)
        ensures
            r@ == (LimitsModel { per_strike: limit@, ..self@ }),
    {
        PositionLimits { per_strike: limit, ..self }
    }

    pub fn with_per_expiration(self, limit: Dec) -> (r: PositionLimits)
        ensures
            r@ == (LimitsModel { per_expiration: limit@, ..self@ }),
    {
        PositionLimits { per_expiration: limit, ..self }
    }

    pub fn with_per_underlying(self, limit: Dec) -> (r: PositionLimits)
        ensures
            r@ == (LimitsModel { per_underlying: limit@, ..self@ }),
    {
        PositionLimits { per_underlying: limit, ..self }
    }

    pub fn with_max_delta(self, limit: Dec) -> (r: PositionLimits)
        ensures
            r@ == (LimitsModel { max_delta: limit@, ..self@ }),
    {
        PositionLimits { max_delta: limit, ..self }
    }

    pub fn with_max_gamma(self, limit: Dec) -> (r: PositionLimits)
        ensures
            r@ == (LimitsModel { max_gamma: limit@, ..self@ }),
    {
        PositionLimits { max_gamma: limit, ..self }
    }

    pub fn with_max_vega(self, limit: Dec) -> (r: PositionLimits)
        ensures
            r@ == (LimitsModel { max_vega: limit@, ..self@ }),
    {
        PositionLimits { max_vega: limit, ..self }
    }

    pub fn with_max_theta(self, limit: Dec) -> (r: PositionLimits)
        ensures
            r@ == (LimitsModel { max_theta: limit@, ..self@ }),
    {
        PositionLimits { max_theta: limit, ..self }
    }

    pub fn exceeds_per_option(&self, quantity: Dec) -> (r: bool)
        requires
            fits(abs_int(quantity@)),
        ensures
            r == (abs_int(quantity@) > self@.per_option),
    {
        quantity.abs() > self.per_option
    }

    pub fn exceeds_per_strike(&self, quantity: Dec) -> (r: bool)
        requires
            fits(abs_int(quantity@)),
        ensures
            r == (abs_int(quantity@) > self@.per_strike),
    {
        quantity.abs() > self.per_strike
    }

    pub fn exceeds_per_expiration(&self, quantity: Dec) -> (r: bool)
        requires
            fits(abs_int(quantity@)),
        ensures
            r == (abs_int(quantity@) > self@.per_expiration),
    {
        quantity.abs() > self.per_expiration
    }

    pub fn exceeds_per_underlying(&self, quantity: Dec) -> (r: bool)
        requires
            fits(abs_int(quantity@)),
        ensures
            r == (abs_int(quantity@) > self@.per_underlying),
    {
        quantity.abs() > self.per_underlying
    }

    /// Evaluates all four dollar-Greek ceilings and returns every breach.
    pub fn check_greek_limits(&self, greeks: &Greeks, spot: Dec, multiplier: Dec) -> (r: Vec<
        LimitBreach,
    >)
        requires
            exposures_fit(greeks@, spot@, multiplier@),
        ensures
            r@ == self@.greek_breaches(greeks@, spot@, multiplier@),
    {
        let mut breaches: Vec<LimitBreach> = Vec::new();
        let dollar_delta = greeks.dollar_delta(spot, multiplier).abs();
        if dollar_delta > self.max_delta {
            breaches.push(LimitBreach::Delta { current: dollar_delta, limit: self.max_delta });
        }
        let dollar_gamma = greeks.dollar_gamma(spot, multiplier).abs();
        if dollar_gamma > self.max_gamma {
            breaches.push(LimitBreach::Gamma { current: dollar_gamma, limit: self.max_gamma });
        }
        let dollar_vega = greeks.dollar_vega(multiplier).abs();
        if dollar_vega > self.max_vega {
            breaches.push(LimitBreach::Vega { current: dollar_vega, limit: self.max_vega });
        }
        let dollar_theta = greeks.dollar_theta(multiplier).abs();
        if dollar_theta > self.max_theta {
            breaches.push(LimitBreach::Theta { current: dollar_theta, limit: self.max_theta });
        }
        proof {
            let e = dollar_exposures(greeks@, spot@, multiplier@);
            let l = self@;
            let s1 = breach_if(
                e.0 > l.max_delta,
                LimitBreach::Delta { current: dec_of(e.0), limit: dec_of(l.max_delta) },
            );
            assert(dec_of(l.max_delta) == self.max_delta);
            assert(dec_of(l.max_gamma) == self.max_gamma);
            assert(dec_of(l.max_vega) == self.max_vega);
            assert(dec_of(l.max_theta) == self.max_theta);
            assert(dec_of(e.0) == dollar_delta);
            assert(dec_of(e.1) == dollar_gamma);
            assert(dec_of(e.2) == dollar_vega);
            assert(dec_of(e.3) == dollar_theta);
        }
        breaches
    }

    /// |quantity| as a fraction of the per-contract ceiling; zero when that
    /// ceiling is zero.
    pub fn option_utilization(&self, quantity: Dec) -> (r: Dec)
        requires
            fits(abs_int(quantity@)),
            self@.per_option != 0 ==> fits(div_units(abs_int(quantity@), self@.per_option)),
        ensures
            r@ == (if self@.per_option == 0 {
                0
            } else {
                div_units(abs_int(quantity@), self@.per_option)
            }),
    {
        if self.per_option.is_zero() {
            return Dec::zero();
        }
        quantity.abs().div(self.per_option)
    }

    /// Every ceiling multiplied by `factor`.
    pub fn scale(self, factor: Dec) -> (r: PositionLimits)
        requires
            self@.scale(factor@).fits(),
        ensures
            r@ == self@.scale(factor@),
    {
        PositionLimits {
            per_option: self.per_option.mul(factor),
            per_strike: self.per_strike.mul(factor),
            per_expiration: self.per_expiration.mul(factor),
            per_underlying: self.per_underlying.mul(factor),
            max_delta: self.max_delta.mul(factor),
            max_gamma: self.max_gamma.mul(factor),
            max_vega: self.max_vega.mul(factor),
            max_theta: self.max_theta.mul(factor),
        }
    }
}

impl Default for PositionLimits {
    fn default() -> (r: PositionLimits)
        ensures
            r@ == LimitsModel::medium(),
    {
        PositionLimits::medium()
    }
}

} // verus!
