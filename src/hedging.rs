//! Delta hedging: when the book's delta strays past a threshold, an order
//! that brings it back toward the target.
use vstd::prelude::*;

use crate::decimal::{abs_int, div_units, fits, mul_units, Dec, SCALE};
use crate::greeks::Greeks;

verus! {

/// Delta-hedging configuration.
#[derive(Clone, Copy, Debug, PartialEq, Eq, Structural)]
pub struct HedgeParams {
    /// Delta the book should hold.
    pub target_delta: Dec,
    /// Orders smaller than this are not sent.
    pub min_hedge_size: Dec,
    /// Orders are cut down to this size.
    pub max_hedge_size: Dec,
    /// Deviation from the target at which a hedge is due.
    pub hedge_threshold: Dec,
    /// Send limit orders rather than market orders.
    pub use_limit_orders: bool,
    /// Distance of a limit price from spot, in basis points.
    pub limit_offset_bps: Dec,
}

impl Default for HedgeParams {
    /// Target 0, sizes from 1 to 100, threshold 10, limit orders 5 bps away.
    fn default() -> (r: HedgeParams)
        ensures
            r.target_delta@ == 0,
            r.min_hedge_size@ == SCALE,
            r.max_hedge_size@ == 100 * SCALE,
            r.hedge_threshold@ == 10 * SCALE,
            r.use_limit_orders,
            r.limit_offset_bps@ == 5 * SCALE,
    {
        HedgeParams {
            target_delta: Dec::zero(),
            min_hedge_size: Dec::one(),
            max_hedge_size: Dec::from_int(100),
            hedge_threshold: Dec::from_int(10),
            use_limit_orders: true,
            limit_offset_bps: Dec::from_int(5),
        }
    }
}

/// Why a hedge order was raised.
#[derive(Clone, Copy, Debug, PartialEq, Eq, Structural)]
pub enum HedgeReason {
    DeltaThreshold,
    ScheduledRebalance,
    Manual,
    RiskLimitBreach,
}

/// An order in the underlying that offsets delta; positive quantity buys.
#[derive(Clone, Debug, PartialEq, Eq)]
pub struct HedgeOrder {
    pub symbol: String,
    pub quantity: Dec,
    /// Limit price, or nothing for a market order.
    pub limit_price: Option<Dec>,
    pub reason: HedgeReason,
    pub timestamp_ms: u64,
}

impl HedgeOrder {
    pub fn new(
        symbol: &str,
        quantity: Dec,
        limit_price: Option<Dec>,
        reason: HedgeReason,
        timestamp_ms: u64,
    ) -> (r: HedgeOrder)
        ensures
            r.symbol@ == symbol@,
            r.quantity == quantity,
            r.limit_price == limit_price,
            r.reason == reason,
            r.timestamp_ms == timestamp_ms,
    {
        HedgeOrder { symbol: symbol.to_owned(), quantity, limit_price, reason, timestamp_ms }
    }

    pub fn is_buy(&self) -> (r: bool)
        ensures
            r == (self.quantity@ > 0),
    {
        self.quantity.is_positive()
    }

    pub fn is_sell(&self) -> (r: bool)
        ensures
            r == (self.quantity@ < 0),
    {
        self.quantity.is_negative()
    }

    pub fn abs_quantity(&self) -> (r: Dec)
        requires
            fits(abs_int(self.quantity@)),
        ensures
            r@ == abs_int(self.quantity@),
    {
        self.quantity.abs()
    }
}

/// The mathematical content of a [`DeltaHedger`].
pub struct HedgerModel {
    pub params: HedgeParams,
    pub current_delta: int,
    pub last_hedge_ms: nat,
}

impl HedgerModel {
    /// current − target
    pub open spec fn deviation(self) -> int {
        self.current_delta - self.params.target_delta@
    }

    /// |current − target| ≥ threshold
    pub open spec fn needs_hedge(self) -> bool {
        abs_int(self.deviation()) >= self.params.hedge_threshold@
    }

    /// The order size that cancels the deviation, before size limits.
    pub open spec fn raw_quantity(self) -> int {
        -self.deviation()
    }

    /// A hedge is due and is not below the minimum size.
    pub open spec fn hedges(self) -> bool {
        self.needs_hedge() && abs_int(self.raw_quantity()) >= self.params.min_hedge_size@
    }

    /// The raw quantity cut down to ± max_hedge_size.
    pub open spec fn hedge_quantity(self) -> int {
        let raw = self.raw_quantity();
        let max = self.params.max_hedge_size@;
        if abs_int(raw) > max {
            if raw > 0 {
                max
            } else {
                -max
            }
        } else {
            raw
        }
    }

    /// spot · limit_offset_bps / 10000
    pub open spec fn limit_offset(self, spot: int) -> int {
        div_units(mul_units(spot, self.params.limit_offset_bps@), 10000 * SCALE)
    }

    /// Below spot when buying, above spot when selling.
    pub open spec fn limit_price(self, spot: int) -> int {
        if self.hedge_quantity() > 0 {
            spot - self.limit_offset(spot)
        } else {
            spot + self.limit_offset(spot)
        }
    }

    pub open spec fn hedge_fits(self, spot: int) -> bool {
        &&& fits(self.deviation())
        &&& fits(abs_int(self.deviation()))
        &&& fits(-self.params.max_hedge_size@)
        &&& fits(mul_units(spot, self.params.limit_offset_bps@))
        &&& fits(spot - self.limit_offset(spot))
        &&& fits(spot + self.limit_offset(spot))
    }
}

/// Tracks the book's delta and decides hedge orders; it never applies an
/// order itself.
#[derive(Clone, Debug)]
pub struct DeltaHedger {
    params: HedgeParams,
    current_delta: Dec,
    last_hedge_ms: u64,
}

impl View for DeltaHedger {
    type V = HedgerModel;

    closed spec fn view(&self) -> HedgerModel {
        HedgerModel {
            params: self.params,
            current_delta: self.current_delta@,
            last_hedge_ms: self.last_hedge_ms as nat,
        }
    }
}

impl DeltaHedger {
    pub fn new(params: HedgeParams) -> (r: DeltaHedger)
        ensures
            r@ == (HedgerModel { params, current_delta: 0, last_hedge_ms: 0 }),
    {
        DeltaHedger { params, current_delta: Dec::zero(), last_hedge_ms: 0 }
    }

    pub fn params(&self) -> (r: &HedgeParams)
        ensures
            *r == self@.params,
    {
        &self.params
    }

    /// Replaces the tracked delta with the greeks' delta.
    pub fn update_delta(&mut self, greeks: &Greeks)
        ensures
            final(self)@ == (HedgerModel { current_delta: greeks@.delta, ..old(self)@ }),
    {
        self.current_delta = greeks.delta();
    }

    pub fn current_delta(&self) -> (r: Dec)
        ensures
            r@ == self@.current_delta,
    {
        self.current_delta
    }

    /// current − target
    pub fn delta_deviation(&self) -> (r: Dec)
        requires
            fits(self@.deviation()),
        ensures
            r@ == self@.deviation(),
    {
        self.current_delta.sub(self.params.target_delta)
    }

    /// Whether the deviation from target has reached the threshold.
    pub fn needs_hedge(&self) -> (r: bool)
        requires
            fits(self@.deviation()),
            fits(abs_int(self@.deviation())),
        ensures
            r == self@.needs_hedge(),
    {
        self.delta_deviation().abs() >= self.params.hedge_threshold
    }

    /// The order that brings delta back to target, within the size limits;
    /// nothing when no hedge is due or it would be below the minimum size.
    pub fn calculate_hedge(&self, symbol: &str, spot_price: Dec, timestamp_ms: u64) -> (r: Option<
        HedgeOrder,
    >)
        requires
            self@.hedge_fits(spot_price@),
        ensures
            r is Some == self@.hedges(),
            r matches Some(o) ==> {
                &&& o.symbol@ == symbol@
                &&& o.quantity@ == self@.hedge_quantity()
                &&& o.limit_price is Some == self@.params.use_limit_orders
                &&& (o.limit_price matches Some(l) ==> l@ == self@.limit_price(spot_price@))
                &&& o.reason == HedgeReason::DeltaThreshold
                &&& o.timestamp_ms == timestamp_ms
            },
    {
        if !self.needs_hedge() {
            return None;
        }
        let deviation = self.delta_deviation();
        let raw_quantity = deviation.neg();
        let max = self.params.max_hedge_size;
        let abs_raw = raw_quantity.abs();
        let quantity = if abs_raw < self.params.min_hedge_size {
            return None;
        } else if abs_raw > max {
            if raw_quantity.is_positive() {
                max
            } else {
                max.neg()
            }
        } else {
            raw_quantity
        };
        let limit_price = if self.params.use_limit_orders {
            let m = spot_price.mul(self.params.limit_offset_bps);
            proof {
                crate::decimal::lemma_div_small_divisor_fits(m@, 10000 * SCALE);
            }
            let offset = m.div(Dec::from_int(10000));
            if quantity.is_positive() {
                Some(spot_price.sub(offset))
            } else {
                Some(spot_price.add(offset))
            }
        } else {
            None
        };
        Some(
            HedgeOrder::new(
                symbol,
                quantity,
                limit_price,
                HedgeReason::DeltaThreshold,
                timestamp_ms,
            ),
        )
    }

    /// Books an executed hedge: delta moves by `quantity`.
    pub fn record_hedge(&mut self, quantity: Dec, timestamp_ms: u64)
        requires
            fits(old(self)@.current_delta + quantity@),
        ensures
            final(self)@ == (HedgerModel {
                current_delta: old(self)@.current_delta + quantity@,
                last_hedge_ms: timestamp_ms as nat,
                ..old(self)@
            }),
    {
        self.current_delta = self.current_delta.add(quantity);
        self.last_hedge_ms = timestamp_ms;
    }

    pub fn last_hedge_ms(&self) -> (r: u64)
        ensures
            r as nat == self@.last_hedge_ms,
    {
        self.last_hedge_ms
    }
}

impl Default for DeltaHedger {
    fn default() -> (r: DeltaHedger)
        ensures
            r@.current_delta == 0,
            r@.last_hedge_ms == 0,
            r@.params.target_delta@ == 0,
            r@.params.min_hedge_size@ == SCALE,
            r@.params.max_hedge_size@ == 100 * SCALE,
            r@.params.hedge_threshold@ == 10 * SCALE,
            r@.params.use_limit_orders,
            r@.params.limit_offset_bps@ == 5 * SCALE,
    {
        DeltaHedger::new(HedgeParams::default())
    }
}

} // verus!
