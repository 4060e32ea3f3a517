//! Running P&L ledger and the attribution of observed P&L to Greeks.
use vstd::prelude::*;

use crate::decimal::{dec_of, fits, Dec};
use crate::greeks::{Greeks, GreeksModel};

verus! {

/// The mathematical content of a [`PnLCalculator`], in 10^-8 units.
pub struct LedgerModel {
    pub realized_pnl: int,
    pub unrealized_pnl: int,
    pub total_fees: int,
}

/// Realized P&L and fees accumulate; unrealized P&L is replaced.
#[derive(Clone, Copy, Debug)]
pub struct PnLCalculator {
    realized_pnl: Dec,
    unrealized_pnl: Dec,
    total_fees: Dec,
}

impl View for PnLCalculator {
    type V = LedgerModel;

    closed spec fn view(&self) -> LedgerModel {
        LedgerModel {
            realized_pnl: self.realized_pnl@,
            unrealized_pnl: self.unrealized_pnl@,
            total_fees: self.total_fees@,
        }
    }
}

impl PnLCalculator {
    pub fn new() -> (r: PnLCalculator)
        ensures
            r@ == (LedgerModel { realized_pnl: 0, unrealized_pnl: 0, total_fees: 0 }),
    {
        PnLCalculator {
            realized_pnl: Dec::zero(),
            unrealized_pnl: Dec::zero(),
            total_fees: Dec::zero(),
        }
    }

    pub fn realized_pnl(&self) -> (r: Dec)
        ensures
            r@ == self@.realized_pnl,
    {
        self.realized_pnl
    }

    pub fn unrealized_pnl(&self) -> (r: Dec)
        ensures
            r@ == self@.unrealized_pnl,
    {
        self.unrealized_pnl
    }

    pub fn total_fees(&self) -> (r: Dec)
        ensures
            r@ == self@.total_fees,
    {
        self.total_fees
    }

    /// realized + unrealized − fees
    pub fn total_pnl(&self) -> (r: Dec)
        requires
            fits(self@.realized_pnl + self@.unrealized_pnl),
            fits(self@.realized_pnl + self@.unrealized_pnl - self@.total_fees),
        ensures
            r@ == self@.realized_pnl + self@.unrealized_pnl - self@.total_fees,
    {
        self.realized_pnl.add(self.unrealized_pnl).sub(self.total_fees)
    }

    /// realized − fees
    pub fn net_realized_pnl(&self) -> (r: Dec)
        requires
            fits(self@.realized_pnl - self@.total_fees),
        ensures
            r@ == self@.realized_pnl - self@.total_fees,
    {
        self.realized_pnl.sub(self.total_fees)
    }

    pub fn add_realized(&mut self, amount: Dec)
        requires
            fits(old(self)@.realized_pnl + amount@),
        ensures
            final(self)@ == (LedgerModel {
                realized_pnl: old(self)@.realized_pnl + amount@,
                ..old(self)@
            }),
    {
        self.realized_pnl = self.realized_pnl.add(amount);
    }

    pub fn update_unrealized(&mut self, amount: Dec)
        ensures
            final(self)@ == (LedgerModel { unrealized_pnl: amount@, ..old(self)@ }),
    {
        self.unrealized_pnl = amount;
    }

    pub fn add_fees(&mut self, amount: Dec)
        requires
            fits(old(self)@.total_fees + amount@),
        ensures
            final(self)@ == (LedgerModel { total_fees: old(self)@.total_fees + amount@, ..old(self)@ }),
    {
        self.total_fees = self.total_fees.add(amount);
    }

    pub fn reset(&mut self)
        ensures
            final(self)@ == (LedgerModel { realized_pnl: 0, unrealized_pnl: 0, total_fees: 0 }),
    {
        self.realized_pnl = Dec::zero();
        self.unrealized_pnl = Dec::zero();
        self.total_fees = Dec::zero();
    }
}

impl Default for PnLCalculator {
    fn default() -> (r: PnLCalculator)
        ensures
            r@ == (LedgerModel { realized_pnl: 0, unrealized_pnl: 0, total_fees: 0 }),
    {
        PnLCalculator::new()
    }
}

/// A ledger reading at one moment.
#[derive(Clone, Copy, Debug, PartialEq, Eq, Structural)]
pub struct PnLSnapshot {
    pub realized: Dec,
    pub unrealized: Dec,
    pub fees: Dec,
    pub timestamp_ms: u64,
}

impl PnLSnapshot {
    /// realized + unrealized − fees
    pub fn total(&self) -> (r: Dec)
        requires
            fits(self.realized@ + self.unrealized@),
            fits(self.realized@ + self.unrealized@ - self.fees@),
        ensures
            r@ == self.realized@ + self.unrealized@ - self.fees@,
    {
        self.realized.add(self.unrealized).sub(self.fees)
    }
}

/// Observed P&L split into Greek buckets and what they leave unexplained.
#[derive(Clone, Copy, Debug, PartialEq, Eq, Structural)]
pub struct PnLAttribution {
    pub delta_pnl: Dec,
    pub gamma_pnl: Dec,
    pub theta_pnl: Dec,
    pub vega_pnl: Dec,
    pub rho_pnl: Dec,
    pub unexplained_pnl: Dec,
}

/// The sum of the five Greek buckets.
pub open spec fn explained_of(a: PnLAttribution) -> int {
    a.delta_pnl@ + a.gamma_pnl@ + a.theta_pnl@ + a.vega_pnl@ + a.rho_pnl@
}

/// Every intermediate value of [`PnLAttribution::calculate`] can be held by a [`Dec`].
pub open spec fn attribution_fits(
    g: GreeksModel,
    spot_change: int,
    vol_change: int,
    days: int,
    rate_change: int,
    actual: int,
) -> bool {
    let d = g.delta_term(spot_change);
    let gm = g.gamma_term(spot_change);
    let t = g.theta_term(days);
    let v = g.vega_term(vol_change);
    let r = g.rho_term(rate_change);
    &&& g.estimate_fits(spot_change, vol_change, days)
    &&& fits(r)
    &&& fits(d + gm + t + v + r)
    &&& fits(actual - (d + gm + t + v + r))
}

/// The attribution of `actual` to the Greek buckets of `g`.
pub open spec fn attribution_of(
    g: GreeksModel,
    spot_change: int,
    vol_change: int,
    days: int,
    rate_change: int,
    actual: int,
) -> PnLAttribution {
    let d = g.delta_term(spot_change);
    let gm = g.gamma_term(spot_change);
    let t = g.theta_term(days);
    let v = g.vega_term(vol_change);
    let r = g.rho_term(rate_change);
    PnLAttribution {
        delta_pnl: dec_of(d),
        gamma_pnl: dec_of(gm),
        theta_pnl: dec_of(t),
        vega_pnl: dec_of(v),
        rho_pnl: dec_of(r),
        unexplained_pnl: dec_of(actual - (d + gm + t + v + r)),
    }
}

impl PnLAttribution {
    pub fn zero() -> (r: PnLAttribution)
        ensures
            r.delta_pnl@ == 0 && r.gamma_pnl@ == 0 && r.theta_pnl@ == 0 && r.vega_pnl@ == 0
                && r.rho_pnl@ == 0 && r.unexplained_pnl@ == 0,
    {
        PnLAttribution {
            delta_pnl: Dec::zero(),
            gamma_pnl: Dec::zero(),
            theta_pnl: Dec::zero(),
            vega_pnl: Dec::zero(),
            rho_pnl: Dec::zero(),
            unexplained_pnl: Dec::zero(),
        }
    }

    /// Splits `actual_pnl` with the second-order expansion used by
    /// [`Greeks::estimate_pnl`] plus a rho term; the rest is unexplained.
    pub fn calculate(
        greeks: &Greeks,
        spot_change: Dec,
        vol_change: Dec,
        days_passed: Dec,
        rate_change: Dec,
        actual_pnl: Dec,
    ) -> (r: PnLAttribution)
        requires
            attribution_fits(
                greeks@,
                spot_change@,
                vol_change@,
                days_passed@,
                rate_change@,
                actual_pnl@,
            ),
        ensures
            r == attribution_of(
                greeks@,
                spot_change@,
                vol_change@,
                days_passed@,
                rate_change@,
                actual_pnl@,
            ),
    {
        let delta_pnl = greeks.delta().mul(spot_change);
        let gamma_pnl = greeks.gamma().mul(spot_change).mul(spot_change).div(Dec::from_int(2));
        let theta_pnl = greeks.theta().mul(days_passed);
        let vega_pnl = greeks.vega().mul(vol_change);
        let rho_pnl = greeks.rho().mul(rate_change);
        let explained = delta_pnl.add(gamma_pnl).add(theta_pnl).add(vega_pnl).add(rho_pnl);
        let unexplained_pnl = actual_pnl.sub(explained);
        PnLAttribution { delta_pnl, gamma_pnl, theta_pnl, vega_pnl, rho_pnl, unexplained_pnl }
    }

    /// Sum of the five Greek buckets.
    pub fn explained_pnl(&self) -> (r: Dec)
        requires
            fits(self.delta_pnl@ + self.gamma_pnl@),
            fits(self.delta_pnl@ + self.gamma_pnl@ + self.theta_pnl@),
            fits(self.delta_pnl@ + self.gamma_pnl@ + self.theta_pnl@ + self.vega_pnl@),
            fits(explained_of(*self)),
        ensures
            r@ == explained_of(*self),
    {
        self.delta_pnl.add(self.gamma_pnl).add(self.theta_pnl).add(self.vega_pnl).add(self.rho_pnl)
    }

    /// Explained plus unexplained.
    pub fn total_pnl(&self) -> (r: Dec)
        requires
            fits(self.delta_pnl@ + self.gamma_pnl@),
            fits(self.delta_pnl@ + self.gamma_pnl@ + self.theta_pnl@),
            fits(self.delta_pnl@ + self.gamma_pnl@ + self.theta_pnl@ + self.vega_pnl@),
            fits(explained_of(*self)),
            fits(explained_of(*self) + self.unexplained_pnl@),
        ensures
            r@ == explained_of(*self) + self.unexplained_pnl@,
    {
        self.explained_pnl().add(self.unexplained_pnl)
    }
}

impl Default for PnLAttribution {
    fn default() -> (r: PnLAttribution)
        ensures
            r.delta_pnl@ == 0 && r.gamma_pnl@ == 0 && r.theta_pnl@ == 0 && r.vega_pnl@ == 0
                && r.rho_pnl@ == 0 && r.unexplained_pnl@ == 0,
    {
        PnLAttribution::zero()
    }
}

/// Attribution closes: whatever the Greeks and market moves, the explained
/// buckets plus the unexplained rest give back the actual P&L.
pub proof fn lemma_attribution_closes(
    g: GreeksModel,
    spot_change: int,
    vol_change: int,
    days: int,
    rate_change: int,
    actual: int,
)
    requires
        fits(actual),
        attribution_fits(g, spot_change, vol_change, days, rate_change, actual),
    ensures
        ({
            let a = attribution_of(g, spot_change, vol_change, days, rate_change, actual);
            &&& a.delta_pnl@ == g.delta_term(spot_change)
            &&& a.gamma_pnl@ == g.gamma_term(spot_change)
            &&& a.theta_pnl@ == g.theta_term(days)
            &&& a.vega_pnl@ == g.vega_term(vol_change)
            &&& a.rho_pnl@ == g.rho_term(rate_change)
            &&& explained_of(a) + a.unexplained_pnl@ == actual
        }),
{
}

} // verus!
