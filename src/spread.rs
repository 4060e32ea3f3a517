//! Avellaneda-Stoikov spread and inventory skew, and the quotes built from them.
use vstd::prelude::*;

use crate::decimal::{abs_int, clamp_int, div_units, fits, max_int, mul_units, Dec, SCALE};
use crate::generated::{GeneratedQuote, GeneratedQuoteModel};
use crate::quote_params::{QuoteParams, QuoteParamsModel};

verus! {

/// ln(1 + x): x − x²/2 + x³/3 when |x| < 1/2, otherwise x / (1 + x/2).
pub open spec fn ln_1p(x: int) -> int {
    if abs_int(x) < SCALE / 2 {
        let x2 = mul_units(x, x);
        let x3 = mul_units(x2, x);
        (x - div_units(x2, 2 * SCALE)) + div_units(x3, 3 * SCALE)
    } else {
        div_units(x, SCALE + div_units(x, 2 * SCALE))
    }
}

/// Every intermediate value of [`ln_1p`] can be held by a [`Dec`], and the
/// divisor of the rational branch is not zero.
pub open spec fn ln_1p_fits(x: int) -> bool {
    if abs_int(x) < SCALE / 2 {
        let x2 = mul_units(x, x);
        let x3 = mul_units(x2, x);
        &&& fits(x2)
        &&& fits(x3)
        &&& fits(x - div_units(x2, 2 * SCALE))
        &&& fits(ln_1p(x))
    } else {
        &&& fits(SCALE + div_units(x, 2 * SCALE))
        &&& SCALE + div_units(x, 2 * SCALE) != 0
        &&& fits(ln_1p(x))
    }
}

/// The mathematical content of a [`SpreadCalculator`], in 10^-8 units.
pub struct SpreadModel {
    pub min_spread: int,
    pub max_spread: int,
    pub inventory_skew_factor: int,
    pub volatility_factor: int,
}

/// The parameters with another volatility.
pub open spec fn with_volatility(p: QuoteParamsModel, sigma: int) -> QuoteParamsModel {
    QuoteParamsModel { volatility: sigma, ..p }
}

impl SpreadModel {
    /// γ·σ²·τ
    pub open spec fn variance_term(self, p: QuoteParamsModel) -> int {
        mul_units(
            mul_units(mul_units(p.risk_aversion, p.volatility), p.volatility),
            p.time_to_expiry,
        )
    }

    /// (2/γ)·ln(1 + γ/k)
    pub open spec fn intensity_term(self, p: QuoteParamsModel) -> int {
        mul_units(
            div_units(2 * SCALE, p.risk_aversion),
            ln_1p(div_units(p.risk_aversion, p.arrival_intensity)),
        )
    }

    /// (γ·σ²·τ + (2/γ)·ln(1 + γ/k)) · volatility_factor, before clamping.
    pub open spec fn raw_spread(self, p: QuoteParamsModel) -> int {
        mul_units(self.variance_term(p) + self.intensity_term(p), self.volatility_factor)
    }

    /// The raw spread held within [min_spread, max_spread].
    pub open spec fn optimal_spread(self, p: QuoteParamsModel) -> int {
        clamp_int(self.raw_spread(p), self.min_spread, self.max_spread)
    }

    pub open spec fn spread_fits(self, p: QuoteParamsModel) -> bool {
        let g = p.risk_aversion;
        let x = div_units(g, p.arrival_intensity);
        &&& g != 0
        &&& p.arrival_intensity != 0
        &&& fits(mul_units(g, p.volatility))
        &&& fits(mul_units(mul_units(g, p.volatility), p.volatility))
        &&& fits(self.variance_term(p))
        &&& fits(x)
        &&& ln_1p_fits(x)
        &&& fits(div_units(2 * SCALE, g))
        &&& fits(self.intensity_term(p))
        &&& fits(self.variance_term(p) + self.intensity_term(p))
        &&& fits(self.raw_spread(p))
    }

    /// inventory·γ·σ²·τ·inventory_skew_factor
    pub open spec fn inventory_skew(self, p: QuoteParamsModel) -> int {
        mul_units(
            mul_units(
                mul_units(
                    mul_units(mul_units(p.inventory, p.risk_aversion), p.volatility),
                    p.volatility,
                ),
                p.time_to_expiry,
            ),
            self.inventory_skew_factor,
        )
    }

    pub open spec fn skew_fits(self, p: QuoteParamsModel) -> bool {
        let a = mul_units(p.inventory, p.risk_aversion);
        let b = mul_units(a, p.volatility);
        let c = mul_units(b, p.volatility);
        let d = mul_units(c, p.time_to_expiry);
        fits(a) && fits(b) && fits(c) && fits(d) && fits(self.inventory_skew(p))
    }

    /// (min_size + max_size) / 2
    pub open spec fn base_size(self, p: QuoteParamsModel) -> int {
        div_units(p.min_size + p.max_size, 2 * SCALE)
    }

    /// base_size · |inventory_ratio| / 2
    pub open spec fn size_adjustment(self, p: QuoteParamsModel) -> int {
        div_units(mul_units(self.base_size(p), abs_int(p.inventory_ratio())), 2 * SCALE)
    }

    /// Bid and ask sizes before clamping: long inventory shrinks the bid and
    /// grows the ask, short inventory the reverse.
    pub open spec fn skewed_sizes(self, p: QuoteParamsModel) -> (int, int) {
        let base = self.base_size(p);
        let adj = self.size_adjustment(p);
        if p.inventory_ratio() > 0 {
            (base - adj, base + adj)
        } else if p.inventory_ratio() < 0 {
            (base + adj, base - adj)
        } else {
            (base, base)
        }
    }

    /// Sizes held within [min_size, max_size], and zero on the side whose
    /// inventory ceiling is reached.
    pub open spec fn sizes(self, p: QuoteParamsModel) -> (int, int) {
        let s = self.skewed_sizes(p);
        let bid = clamp_int(s.0, p.min_size, p.max_size);
        let ask = clamp_int(s.1, p.min_size, p.max_size);
        (
            if p.is_inventory_full_long() {
                0
            } else {
                bid
            },
            if p.is_inventory_full_short() {
                0
            } else {
                ask
            },
        )
    }

    pub open spec fn sizes_fit(self, p: QuoteParamsModel) -> bool {
        let base = self.base_size(p);
        let adj = self.size_adjustment(p);
        &&& fits(p.min_size + p.max_size)
        &&& p.ratio_fits()
        &&& fits(mul_units(base, abs_int(p.inventory_ratio())))
        &&& fits(base - adj)
        &&& fits(base + adj)
        &&& fits(-p.max_inventory)
    }

    /// theo − skew
    pub open spec fn reservation_price(self, p: QuoteParamsModel) -> int {
        p.theo_price - self.inventory_skew(p)
    }

    pub open spec fn half_spread(self, p: QuoteParamsModel) -> int {
        div_units(self.optimal_spread(p), 2 * SCALE)
    }

    /// The quote: reservation price ± half the optimal spread, the bid not
    /// below zero, with inventory-skewed sizes.
    pub open spec fn quote(self, p: QuoteParamsModel, timestamp_ms: nat) -> GeneratedQuoteModel {
        let half = self.half_spread(p);
        let r = self.reservation_price(p);
        let s = self.sizes(p);
        GeneratedQuoteModel::of(
            max_int(r - half, 0),
            s.0,
            r + half,
            s.1,
            p.theo_price,
            self.inventory_skew(p),
            timestamp_ms,
        )
    }

    pub open spec fn quote_fits(self, p: QuoteParamsModel) -> bool {
        let half = self.half_spread(p);
        let r = self.reservation_price(p);
        &&& self.spread_fits(p)
        &&& self.skew_fits(p)
        &&& self.sizes_fit(p)
        &&& fits(r)
        &&& fits(r - half)
        &&& fits(r + half)
        &&& fits(r + half - max_int(r - half, 0))
    }
}

/// Stateless spread configuration: spread bounds, skew and volatility factors.
#[derive(Clone, Copy, Debug, PartialEq, Eq, Structural)]
pub struct SpreadCalculator {
    min_spread: Dec,
    max_spread: Dec,
    inventory_skew_factor: Dec,
    volatility_factor: Dec,
}

impl View for SpreadCalculator {
    type V = SpreadModel;

    closed spec fn view(&self) -> SpreadModel {
        SpreadModel {
            min_spread: self.min_spread@,
            max_spread: self.max_spread@,
            inventory_skew_factor: self.inventory_skew_factor@,
            volatility_factor: self.volatility_factor@,
        }
    }
}

impl SpreadCalculator {
    /// Spread within [0.001, 0.10], skew factor 0.001, volatility factor 1.
    pub fn new() -> (r: SpreadCalculator)
        ensures
            r@ == (SpreadModel {
                min_spread: SCALE / 1000,
                max_spread: SCALE / 10,
                inventory_skew_factor: SCALE / 1000,
                volatility_factor: SCALE as int,
            }),
    {
        SpreadCalculator {
            min_spread: Dec::from_units(SCALE / 1000),
            max_spread: Dec::from_units(SCALE / 10),
            inventory_skew_factor: Dec::from_units(SCALE / 1000),
            volatility_factor: Dec::one(),
        }
    }

    pub fn min_spread(&self) -> (r: Dec)
        ensures
            r@ == self@.min_spread,
    {
        self.min_spread
    }

    pub fn max_spread(&self) -> (r: Dec)
        ensures
            r@ == self@.max_spread,
    {
        self.max_spread
    }

    pub fn inventory_skew_factor(&self) -> (r: Dec)
        ensures
            r@ == self@.inventory_skew_factor,
    {
        self.inventory_skew_factor
    }

    pub fn volatility_factor(&self) -> (r: Dec)
        ensures
            r@ == self@.volatility_factor,
    {
        self.volatility_factor
    }

    pub fn with_min_spread(self, min_spread: Dec) -> (r: SpreadCalculator)
        ensures
            r@ == (SpreadModel { min_spread: min_spread@, ..self@ }),
    {
        SpreadCalculator { min_spread, ..self }
    }

    pub fn with_max_spread(self, max_spread: Dec) -> (r: SpreadCalculator)
        ensures
            r@ == (SpreadModel { max_spread: max_spread@, ..self@ }),
    {
        SpreadCalculator { max_spread, ..self }
    }

    pub fn with_inventory_skew_factor(self, factor: Dec) -> (r: SpreadCalculator)
        ensures
            r@ == (SpreadModel { inventory_skew_factor: factor@, ..self@ }),
    {
        SpreadCalculator { inventory_skew_factor: factor, ..self }
    }

    pub fn with_volatility_factor(self, factor: Dec) -> (r: SpreadCalculator)
        ensures
            r@ == (SpreadModel { volatility_factor: factor@, ..self@ }),
    {
        SpreadCalculator { volatility_factor: factor, ..self }
    }

    /// The Avellaneda-Stoikov spread γ·σ²·τ + (2/γ)·ln(1 + γ/k), scaled by
    /// the volatility factor and clamped to [min_spread, max_spread].
    pub fn optimal_spread(&self, params: &QuoteParams) -> (r: Dec)
        requires
            self@.spread_fits(params@),
        ensures
            r@ == self@.optimal_spread(params@),
    {
        let gamma = params.risk_aversion();
        let sigma = params.volatility();
        let tau = params.time_to_expiry();
        let k = params.arrival_intensity();
        let variance_term = gamma.mul(sigma).mul(sigma).mul(tau);
        let gamma_over_k = gamma.div(k);
        let ln_term = approximate_ln_1_plus_x(gamma_over_k);
        proof {
            crate::decimal::lemma_div_small_divisor_fits(2 * SCALE, SCALE as int);
        }
        let intensity_term = Dec::from_int(2).div(gamma).mul(ln_term);
        let base_spread = variance_term.add(intensity_term);
        let adjusted_spread = base_spread.mul(self.volatility_factor);
        adjusted_spread.max(self.min_spread).min(self.max_spread)
    }

    /// Shift of the reservation price: inventory·γ·σ²·τ·inventory_skew_factor.
    pub fn inventory_skew(&self, params: &QuoteParams) -> (r: Dec)
        requires
            self@.skew_fits(params@),
        ensures
            r@ == self@.inventory_skew(params@),
    {
        let q = params.inventory();
        let gamma = params.risk_aversion();
        let sigma = params.volatility();
        let tau = params.time_to_expiry();
        q.mul(gamma).mul(sigma).mul(sigma).mul(tau).mul(self.inventory_skew_factor)
    }

    /// A two-sided quote around the inventory-skewed reservation price.
    pub fn generate_quote(&self, params: &QuoteParams, timestamp_ms: u64) -> (r: GeneratedQuote)
        requires
            self@.quote_fits(params@),
        ensures
            r@ == self@.quote(params@, timestamp_ms as nat),
    {
        let spread = self.optimal_spread(params);
        proof {
            crate::decimal::lemma_div_small_divisor_fits(spread@, 2 * SCALE);
        }
        let half_spread = spread.div(Dec::from_int(2));
        let skew = self.inventory_skew(params);
        let theo = params.theo_price();
        let reservation_price = theo.sub(skew);
        let bid_price = reservation_price.sub(half_spread).max(Dec::zero());
        let ask_price = reservation_price.add(half_spread);
        let (bid_size, ask_size) = self.calculate_sizes(params);
        GeneratedQuote::new(bid_price, bid_size, ask_price, ask_size, theo, skew, timestamp_ms)
    }

    fn calculate_sizes(&self, params: &QuoteParams) -> (r: (Dec, Dec))
        requires
            self@.sizes_fit(params@),
        ensures
            (r.0@, r.1@) == self@.sizes(params@),
    {
        let min_size = params.min_size();
        let max_size = params.max_size();
        proof {
            crate::decimal::lemma_div_small_divisor_fits(min_size@ + max_size@, 2 * SCALE);
        }
        let base_size = min_size.add(max_size).div(Dec::from_int(2));
        let inventory_ratio = params.inventory_ratio();
        let m = base_size.mul(inventory_ratio.abs());
        proof {
            crate::decimal::lemma_div_small_divisor_fits(m@, 2 * SCALE);
        }
        let size_adjustment = m.div(Dec::from_int(2));
        let zero = Dec::zero();
        let (bid_size, ask_size) = if inventory_ratio > zero {
            (base_size.sub(size_adjustment), base_size.add(size_adjustment))
        } else if inventory_ratio < zero {
            (base_size.add(size_adjustment), base_size.sub(size_adjustment))
        } else {
            (base_size, base_size)
        };
        let bid_size = bid_size.max(min_size).min(max_size);
        let ask_size = ask_size.max(min_size).min(max_size);
        let bid_size = if params.is_inventory_full_long() {
            zero
        } else {
            bid_size
        };
        let ask_size = if params.is_inventory_full_short() {
            zero
        } else {
            ask_size
        };
        (bid_size, ask_size)
    }
}

/// ln(1 + x) by a three-term series for |x| < 1/2, else by x / (1 + x/2).
fn approximate_ln_1_plus_x(x: Dec) -> (r: Dec)
    requires
        fits(x@),
        ln_1p_fits(x@),
    ensures
        r@ == ln_1p(x@),
{
    let half = Dec::from_units(SCALE / 2);
    if x < half && x > half.neg() {
        let x2 = x.mul(x);
        let x3 = x2.mul(x);
        proof {
            crate::decimal::lemma_div_small_divisor_fits(x2@, 2 * SCALE);
            crate::decimal::lemma_div_small_divisor_fits(x3@, 3 * SCALE);
        }
        x.sub(x2.div(Dec::from_int(2))).add(x3.div(Dec::from_int(3)))
    } else {
        proof {
            crate::decimal::lemma_div_small_divisor_fits(x@, 2 * SCALE);
        }
        x.div(Dec::one().add(x.div(Dec::from_int(2))))
    }
}

impl Default for SpreadCalculator {
    fn default() -> (r: SpreadCalculator)
        ensures
            r@ == (SpreadModel {
                min_spread: SCALE / 1000,
                max_spread: SCALE / 10,
                inventory_skew_factor: SCALE / 1000,
                volatility_factor: SCALE as int,
            }),
    {
        SpreadCalculator::new()
    }
}

/// With all other parameters fixed, a higher volatility never gives a
/// narrower spread, before clamping and after.
pub proof fn lemma_spread_monotone_in_volatility(
    c: SpreadModel,
    p: QuoteParamsModel,
    sigma1: int,
    sigma2: int,
)
    requires
        p.risk_aversion > 0,
        p.time_to_expiry >= 0,
        c.volatility_factor >= 0,
        0 <= sigma1 < sigma2,
    ensures
        c.raw_spread(with_volatility(p, sigma1)) <= c.raw_spread(with_volatility(p, sigma2)),
        c.optimal_spread(with_volatility(p, sigma1)) <= c.optimal_spread(
            with_volatility(p, sigma2),
        ),
{
    let low = with_volatility(p, sigma1);
    let high = with_volatility(p, sigma2);
    let g = p.risk_aversion;
    crate::decimal::lemma_mul_monotone(g, g, sigma1, sigma2);
    let m1 = mul_units(g, sigma1);
    let m2 = mul_units(g, sigma2);
    crate::decimal::lemma_mul_monotone(m1, m2, sigma1, sigma2);
    let v1 = mul_units(m1, sigma1);
    let v2 = mul_units(m2, sigma2);
    crate::decimal::lemma_mul_monotone(v1, v2, p.time_to_expiry, p.time_to_expiry);
    assert(c.intensity_term(low) == c.intensity_term(high));
    crate::decimal::lemma_mul_monotone_left(
        c.variance_term(low) + c.intensity_term(low),
        c.variance_term(high) + c.intensity_term(high),
        c.volatility_factor,
    );
}

/// A quote built from valid parameters never bids below zero; its sizes lie
/// in [min_size, max_size] except on a side whose inventory ceiling is
/// reached, where they are zero; and its ask is above its bid whenever half
/// the spread and the ask price are positive (the only inputs on which that
/// can fail are a spread below 2·10^-8 or a skew that pushes the whole quote
/// to zero or below).
pub proof fn lemma_quote_validity(c: SpreadModel, p: QuoteParamsModel, timestamp_ms: nat)
    requires
        p.is_valid(),
    ensures
        ({
            let q = c.quote(p, timestamp_ms);
            &&& q.bid_price >= 0
            &&& p.is_inventory_full_long() ==> q.bid_size == 0
            &&& !p.is_inventory_full_long() ==> p.min_size <= q.bid_size <= p.max_size
            &&& p.is_inventory_full_short() ==> q.ask_size == 0
            &&& !p.is_inventory_full_short() ==> p.min_size <= q.ask_size <= p.max_size
            &&& (c.half_spread(p) > 0 && q.ask_price > 0) ==> q.ask_price > q.bid_price
            &&& (c.half_spread(p) > 0 && q.ask_price > 0 && !p.is_inventory_full_long()
                && !p.is_inventory_full_short()) ==> q.is_valid()
        }),
{
}

} // verus!
