//! A two-sided quote produced by the spread calculator.
use vstd::prelude::*;

use crate::decimal::{div_units, fits, max_int, mul_units, Dec, SCALE};

verus! {

/// The mathematical content of a [`GeneratedQuote`], in 10^-8 units.
pub struct GeneratedQuoteModel {
    pub bid_price: int,
    pub bid_size: int,
    pub ask_price: int,
    pub ask_size: int,
    pub theo_price: int,
    pub spread: int,
    pub skew: int,
    pub timestamp_ms: nat,
}

impl GeneratedQuoteModel {
    /// A quote built from its prices and sizes; the spread is ask minus bid.
    pub open spec fn of(
        bid_price: int,
        bid_size: int,
        ask_price: int,
        ask_size: int,
        theo_price: int,
        skew: int,
        timestamp_ms: nat,
    ) -> GeneratedQuoteModel {
        GeneratedQuoteModel {
            bid_price,
            bid_size,
            ask_price,
            ask_size,
            theo_price,
            spread: ask_price - bid_price,
            skew,
            timestamp_ms,
        }
    }

    /// Ask above bid, bid not negative, both sizes positive.
    pub open spec fn is_valid(self) -> bool {
        self.ask_price > self.bid_price && self.bid_price >= 0 && self.bid_size > 0
            && self.ask_size > 0
    }

    /// Floor of `price / tick`, times `tick`.
    pub open spec fn tick_floor(price: int, tick: int) -> int {
        mul_units((div_units(price, tick) / SCALE as int) * SCALE, tick)
    }

    /// Ceiling of `price / tick`, times `tick`.
    pub open spec fn tick_ceil(price: int, tick: int) -> int {
        mul_units(-(((-div_units(price, tick)) / SCALE as int) * SCALE), tick)
    }

    pub open spec fn tick_fits(price: int, tick: int) -> bool {
        let q = div_units(price, tick);
        &&& fits(q)
        &&& fits(-q)
        &&& fits((q / SCALE as int) * SCALE)
        &&& fits(((-q) / SCALE as int) * SCALE)
        &&& fits(-(((-q) / SCALE as int) * SCALE))
        &&& fits(GeneratedQuoteModel::tick_floor(price, tick))
        &&& fits(GeneratedQuoteModel::tick_ceil(price, tick))
    }
}

/// Bid and ask prices and sizes around a theoretical price.
#[derive(Clone, Copy, Debug, PartialEq, Eq, Structural)]
pub struct GeneratedQuote {
    bid_price: Dec,
    bid_size: Dec,
    ask_price: Dec,
    ask_size: Dec,
    theo_price: Dec,
    spread: Dec,
    skew: Dec,
    timestamp_ms: u64,
}

impl View for GeneratedQuote {
    type V = GeneratedQuoteModel;

    closed spec fn view(&self) -> GeneratedQuoteModel {
        GeneratedQuoteModel {
            bid_price: self.bid_price@,
            bid_size: self.bid_size@,
            ask_price: self.ask_price@,
            ask_size: self.ask_size@,
            theo_price: self.theo_price@,
            spread: self.spread@,
            skew: self.skew@,
            timestamp_ms: self.timestamp_ms as nat,
        }
    }
}

impl GeneratedQuote {
    pub fn new(
        bid_price: Dec,
        bid_size: Dec,
        ask_price: Dec,
        ask_size: Dec,
        theo_price: Dec,
        skew: Dec,
        timestamp_ms: u64,
    ) -> (r: GeneratedQuote)
        requires
            fits(ask_price@ - bid_price@),
        ensures
            r@ == GeneratedQuoteModel::of(
                bid_price@,
                bid_size@,
                ask_price@,
                ask_size@,
                theo_price@,
                skew@,
                timestamp_ms as nat,
            ),
    {
        GeneratedQuote {
            bid_price,
            bid_size,
            ask_price,
            ask_size,
            theo_price,
            spread: ask_price.sub(bid_price),
            skew,
            timestamp_ms,
        }
    }

    /// `theo ± half_spread` with equal sizes and no skew; the bid does not go
    /// below zero.
    pub fn symmetric(theo_price: Dec, half_spread: Dec, size: Dec, timestamp_ms: u64) -> (r:
        GeneratedQuote)
        requires
            fits(theo_price@ - half_spread@),
            fits(theo_price@ + half_spread@),
            fits(theo_price@ + half_spread@ - max_int(theo_price@ - half_spread@, 0)),
        ensures
            r@ == GeneratedQuoteModel::of(
                max_int(theo_price@ - half_spread@, 0),
                size@,
                theo_price@ + half_spread@,
                size@,
                theo_price@,
                0,
                timestamp_ms as nat,
            ),
    {
        let bid_price = theo_price.sub(half_spread).max(Dec::zero());
        let ask_price = theo_price.add(half_spread);
        GeneratedQuote {
            bid_price,
            bid_size: size,
            ask_price,
            ask_size: size,
            theo_price,
            spread: ask_price.sub(bid_price),
            skew: Dec::zero(),
            timestamp_ms,
        }
    }

    pub fn bid_price(&self) -> (r: Dec)
        ensures
            r@ == self@.bid_price,
    {
        self.bid_price
    }

    pub fn bid_size(&self) -> (r: Dec)
        ensures
            r@ == self@.bid_size,
    {
        self.bid_size
    }

    pub fn ask_price(&self) -> (r: Dec)
        ensures
            r@ == self@.ask_price,
    {
        self.ask_price
    }

    pub fn ask_size(&self) -> (r: Dec)
        ensures
            r@ == self@.ask_size,
    {
        self.ask_size
    }

    pub fn theo_price(&self) -> (r: Dec)
        ensures
            r@ == self@.theo_price,
    {
        self.theo_price
    }

    pub fn spread(&self) -> (r: Dec)
        ensures
            r@ == self@.spread,
    {
        self.spread
    }

    pub fn skew(&self) -> (r: Dec)
        ensures
            r@ == self@.skew,
    {
        self.skew
    }

    pub fn timestamp_ms(&self) -> (r: u64)
        ensures
            r as nat == self@.timestamp_ms,
    {
        self.timestamp_ms
    }

    /// (bid + ask) / 2
    pub fn mid_price(&self) -> (r: Dec)
        requires
            fits(self@.bid_price + self@.ask_price),
        ensures
            r@ == div_units(self@.bid_price + self@.ask_price, 2 * SCALE),
    {
        proof {
            crate::decimal::lemma_div_small_divisor_fits(
                self@.bid_price + self@.ask_price,
                2 * SCALE,
            );
        }
        self.bid_price.add(self.ask_price).div(Dec::from_int(2))
    }

    /// spread / theo in basis points; nothing when the theoretical price is zero.
    pub fn spread_bps(&self) -> (r: Option<Dec>)
        requires
            self@.theo_price != 0 ==> fits(div_units(self@.spread, self@.theo_price)) && fits(
                mul_units(div_units(self@.spread, self@.theo_price), 10000 * SCALE),
            ),
        ensures
            self@.theo_price == 0 ==> r is None,
            self@.theo_price != 0 ==> (r matches Some(v) && v@ == mul_units(
                div_units(self@.spread, self@.theo_price),
                10000 * SCALE,
            )),
    {
        if self.theo_price.is_zero() {
            return None;
        }
        Some(self.spread.div(self.theo_price).mul(Dec::from_int(10000)))
    }

    pub fn is_valid(&self) -> (r: bool)
        ensures
            r == self@.is_valid(),
    {
        let zero = Dec::zero();
        self.ask_price > self.bid_price && self.bid_price >= zero && self.bid_size > zero
            && self.ask_size > zero
    }

    /// theo − bid
    pub fn bid_edge(&self) -> (r: Dec)
        requires
            fits(self@.theo_price - self@.bid_price),
        ensures
            r@ == self@.theo_price - self@.bid_price,
    {
        self.theo_price.sub(self.bid_price)
    }

    /// ask − theo
    pub fn ask_edge(&self) -> (r: Dec)
        requires
            fits(self@.ask_price - self@.theo_price),
        ensures
            r@ == self@.ask_price - self@.theo_price,
    {
        self.ask_price.sub(self.theo_price)
    }

    /// Shifts bid, ask and theoretical price by `adjustment`.
    pub fn with_price_adjustment(self, adjustment: Dec) -> (r: GeneratedQuote)
        requires
            fits(self@.bid_price + adjustment@),
            fits(self@.ask_price + adjustment@),
            fits(self@.theo_price + adjustment@),
        ensures
            r@ == (GeneratedQuoteModel {
                bid_price: self@.bid_price + adjustment@,
                ask_price: self@.ask_price + adjustment@,
                theo_price: self@.theo_price + adjustment@,
                ..self@
            }),
    {
        GeneratedQuote {
            bid_price: self.bid_price.add(adjustment),
            ask_price: self.ask_price.add(adjustment),
            theo_price: self.theo_price.add(adjustment),
            ..self
        }
    }

    /// Multiplies both sizes by `multiplier`.
    pub fn with_size_multiplier(self, multiplier: Dec) -> (r: GeneratedQuote)
        requires
            fits(mul_units(self@.bid_size, multiplier@)),
            fits(mul_units(self@.ask_size, multiplier@)),
        ensures
            r@ == (GeneratedQuoteModel {
                bid_size: mul_units(self@.bid_size, multiplier@),
                ask_size: mul_units(self@.ask_size, multiplier@),
                ..self@
            }),
    {
        GeneratedQuote {
            bid_size: self.bid_size.mul(multiplier),
            ask_size: self.ask_size.mul(multiplier),
            ..self
        }
    }

    /// Moves the bid down and the ask up to multiples of `tick_size`; a zero
    /// tick leaves the quote as it is.
    pub fn round_to_tick(self, tick_size: Dec) -> (r: GeneratedQuote)
        requires
            tick_size@ != 0 ==> GeneratedQuoteModel::tick_fits(self@.bid_price, tick_size@)
                && GeneratedQuoteModel::tick_fits(self@.ask_price, tick_size@) && fits(
                GeneratedQuoteModel::tick_ceil(self@.ask_price, tick_size@)
                    - GeneratedQuoteModel::tick_floor(self@.bid_price, tick_size@),
            ),
        ensures
            tick_size@ == 0 ==> r@ == self@,
            tick_size@ != 0 ==> r@ == (GeneratedQuoteModel {
                bid_price: GeneratedQuoteModel::tick_floor(self@.bid_price, tick_size@),
                ask_price: GeneratedQuoteModel::tick_ceil(self@.ask_price, tick_size@),
                spread: GeneratedQuoteModel::tick_ceil(self@.ask_price, tick_size@)
                    - GeneratedQuoteModel::tick_floor(self@.bid_price, tick_size@),
                ..self@
            }),
    {
        if tick_size.is_zero() {
            return self;
        }
        let bid_price = self.bid_price.div(tick_size).floor().mul(tick_size);
        let ask_price = self.ask_price.div(tick_size).ceil().mul(tick_size);
        GeneratedQuote { bid_price, ask_price, spread: ask_price.sub(bid_price), ..self }
    }
}

impl Default for GeneratedQuote {
    fn default() -> (r: GeneratedQuote)
        ensures
            r@ == GeneratedQuoteModel::of(0, 0, 0, 0, 0, 0, 0),
    {
        GeneratedQuote {
            bid_price: Dec::zero(),
            bid_size: Dec::zero(),
            ask_price: Dec::zero(),
            ask_size: Dec::zero(),
            theo_price: Dec::zero(),
            spread: Dec::zero(),
            skew: Dec::zero(),
            timestamp_ms: 0,
        }
    }
}

} // verus!
