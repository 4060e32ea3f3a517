//! Per-contract position accounting: signed quantity, weighted-average price,
//! cost basis, realized and unrealized P&L.
use vstd::prelude::*;

use crate::decimal::{abs_int, div_units, fits, min_int, mul_units, Dec, SCALE};
use crate::greeks::{Greeks, GreeksModel};

verus! {

/// The mathematical content of a [`Position`]; money and sizes in 10^-8 units.
pub struct PositionModel {
    pub quantity: int,
    pub average_price: int,
    pub cost_basis: int,
    pub multiplier: int,
    pub greeks: GreeksModel,
    pub realized_pnl: int,
    pub last_update_ms: nat,
}

/// `quantity · price · multiplier`, each product cut to eight digits.
pub open spec fn value_of(quantity: int, price: int, multiplier: int) -> int {
    mul_units(mul_units(quantity, price), multiplier)
}

pub open spec fn value_fits(quantity: int, price: int, multiplier: int) -> bool {
    fits(mul_units(quantity, price)) && fits(value_of(quantity, price, multiplier))
}

pub open spec fn sign(x: int) -> int {
    if x > 0 {
        1
    } else if x < 0 {
        -1
    } else {
        0
    }
}

impl PositionModel {
    /// The trade extends the position (or opens it from flat).
    pub open spec fn extends(self, quantity: int) -> bool {
        sign(self.quantity) == sign(quantity) || self.quantity == 0
    }

    /// Quantity closed by an opposite-direction trade.
    pub open spec fn close_quantity(self, quantity: int) -> int {
        min_int(abs_int(quantity), abs_int(self.quantity))
    }

    /// P&L realized by closing `close_quantity` at `price`.
    pub open spec fn close_pnl(self, quantity: int, price: int) -> int {
        let c = self.close_quantity(quantity);
        let diff = value_of(c, price, self.multiplier) - value_of(
            c,
            self.average_price,
            self.multiplier,
        );
        if self.quantity > 0 {
            diff
        } else {
            -diff
        }
    }

    /// The state after a trade of signed `quantity` at `price`.
    pub open spec fn after_add(self, quantity: int, price: int, ts: nat) -> PositionModel {
        if quantity == 0 {
            self
        } else if self.extends(quantity) {
            let trade_value = value_of(quantity, price, self.multiplier);
            let new_quantity = self.quantity + quantity;
            PositionModel {
                quantity: new_quantity,
                average_price: div_units(
                    self.cost_basis + trade_value,
                    mul_units(new_quantity, self.multiplier),
                ),
                cost_basis: self.cost_basis + trade_value,
                last_update_ms: ts,
                ..self
            }
        } else {
            let remaining = abs_int(quantity) - self.close_quantity(quantity);
            let realized = self.realized_pnl + self.close_pnl(quantity, price);
            if remaining == 0 {
                let q = self.quantity + quantity;
                PositionModel {
                    quantity: q,
                    cost_basis: value_of(q, self.average_price, self.multiplier),
                    realized_pnl: realized,
                    last_update_ms: ts,
                    ..self
                }
            } else {
                let q = if quantity > 0 {
                    remaining
                } else {
                    -remaining
                };
                PositionModel {
                    quantity: q,
                    average_price: price,
                    cost_basis: value_of(q, price, self.multiplier),
                    realized_pnl: realized,
                    last_update_ms: ts,
                    ..self
                }
            }
        }
    }

    /// Every intermediate value of [`PositionModel::after_add`] can be held by a
    /// [`Dec`], and the average-price divisor is not zero.
    pub open spec fn add_fits(self, quantity: int, price: int) -> bool {
        if quantity == 0 {
            true
        } else if self.extends(quantity) {
            let trade_value = value_of(quantity, price, self.multiplier);
            let new_quantity = self.quantity + quantity;
            &&& value_fits(quantity, price, self.multiplier)
            &&& fits(new_quantity)
            &&& fits(mul_units(new_quantity, self.multiplier))
            &&& mul_units(new_quantity, self.multiplier) != 0
            &&& fits(self.cost_basis + trade_value)
            &&& fits(
                div_units(self.cost_basis + trade_value, mul_units(new_quantity, self.multiplier)),
            )
        } else {
            let c = self.close_quantity(quantity);
            let remaining = abs_int(quantity) - c;
            let q = if remaining == 0 {
                self.quantity + quantity
            } else if quantity > 0 {
                remaining
            } else {
                -remaining
            };
            let p = if remaining == 0 {
                self.average_price
            } else {
                price
            };
            &&& fits(abs_int(quantity))
            &&& fits(abs_int(self.quantity))
            &&& value_fits(c, price, self.multiplier)
            &&& value_fits(c, self.average_price, self.multiplier)
            &&& fits(value_of(c, price, self.multiplier) - value_of(c, self.average_price, self.multiplier))
            &&& fits(self.close_pnl(quantity, price))
            &&& fits(self.realized_pnl + self.close_pnl(quantity, price))
            &&& value_fits(q, p, self.multiplier)
        }
    }

    pub open spec fn notional(self, price: int) -> int {
        value_of(self.quantity, price, self.multiplier)
    }

    pub open spec fn unrealized_pnl(self, price: int) -> int {
        self.notional(price) - self.cost_basis
    }

    pub open spec fn unrealized_fits(self, price: int) -> bool {
        value_fits(self.quantity, price, self.multiplier) && fits(self.unrealized_pnl(price))
    }

    /// The state after closing everything at `price`.
    pub open spec fn after_close(self, price: int, ts: nat) -> PositionModel {
        if self.quantity == 0 {
            self
        } else {
            PositionModel {
                quantity: 0,
                average_price: 0,
                cost_basis: 0,
                realized_pnl: self.realized_pnl + self.unrealized_pnl(price),
                last_update_ms: ts,
                ..self
            }
        }
    }

    pub open spec fn close_fits(self, price: int) -> bool {
        self.quantity != 0 ==> (self.unrealized_fits(price) && fits(
            self.realized_pnl + self.unrealized_pnl(price),
        ))
    }

    /// A fresh, flat position with the given multiplier.
    pub open spec fn flat(multiplier: int) -> PositionModel {
        PositionModel {
            quantity: 0,
            average_price: 0,
            cost_basis: 0,
            multiplier,
            greeks: GreeksModel::zero(),
            realized_pnl: 0,
            last_update_ms: 0,
        }
    }
}

/// The position held in one option contract.
#[derive(Clone, Copy, Debug, PartialEq, Eq, Structural)]
pub struct Position {
    quantity: Dec,
    average_price: Dec,
    cost_basis: Dec,
    multiplier: Dec,
    greeks: Greeks,
    realized_pnl: Dec,
    last_update_ms: u64,
}

impl View for Position {
    type V = PositionModel;

    closed spec fn view(&self) -> PositionModel {
        PositionModel {
            quantity: self.quantity@,
            average_price: self.average_price@,
            cost_basis: self.cost_basis@,
            multiplier: self.multiplier@,
            greeks: self.greeks@,
            realized_pnl: self.realized_pnl@,
            last_update_ms: self.last_update_ms as nat,
        }
    }
}

/// Every [`Position`] holds values that fit in [`Dec`]s.
pub proof fn lemma_position_fits(p: Position)
    ensures
        fits(p@.quantity),
        fits(p@.average_price),
        fits(p@.cost_basis),
        fits(p@.multiplier),
        fits(p@.realized_pnl),
        p@.greeks.fits(),
        p@.last_update_ms <= u64::MAX,
{
    crate::greeks::lemma_greeks_fit(p.greeks);
}

impl Position {
    /// A flat position with the given contract multiplier.
    pub fn new(multiplier: Dec) -> (r: Position)
        ensures
            r@ == PositionModel::flat(multiplier@),
    {
        Position {
            quantity: Dec::zero(),
            average_price: Dec::zero(),
            cost_basis: Dec::zero(),
            multiplier,
            greeks: Greeks::zero(),
            realized_pnl: Dec::zero(),
            last_update_ms: 0,
        }
    }

    /// A position opened by one trade of `quantity` at `price`.
    pub fn with_entry(quantity: Dec, price: Dec, multiplier: Dec, timestamp_ms: u64) -> (r:
        Position)
        requires
            value_fits(quantity@, price@, multiplier@),
        ensures
            r@ == (PositionModel {
                quantity: quantity@,
                average_price: price@,
                cost_basis: value_of(quantity@, price@, multiplier@),
                multiplier: multiplier@,
                greeks: GreeksModel::zero(),
                realized_pnl: 0,
                last_update_ms: timestamp_ms as nat,
            }),
    {
        Position {
            quantity,
            average_price: price,
            cost_basis: quantity.mul(price).mul(multiplier),
            multiplier,
            greeks: Greeks::zero(),
            realized_pnl: Dec::zero(),
            last_update_ms: timestamp_ms,
        }
    }

    pub fn quantity(&self) -> (r: Dec)
        ensures
            r@ == self@.quantity,
    {
        self.quantity
    }

    pub fn average_price(&self) -> (r: Dec)
        ensures
            r@ == self@.average_price,
    {
        self.average_price
    }

    pub fn cost_basis(&self) -> (r: Dec)
        ensures
            r@ == self@.cost_basis,
    {
        self.cost_basis
    }

    pub fn multiplier(&self) -> (r: Dec)
        ensures
            r@ == self@.multiplier,
    {
        self.multiplier
    }

    pub fn greeks(&self) -> (r: &Greeks)
        ensures
            r@ == self@.greeks,
    {
        &self.greeks
    }

    pub fn realized_pnl(&self) -> (r: Dec)
        ensures
            r@ == self@.realized_pnl,
    {
        self.realized_pnl
    }

    pub fn last_update_ms(&self) -> (r: u64)
        ensures
            r as nat == self@.last_update_ms,
    {
        self.last_update_ms
    }

    pub fn is_flat(&self) -> (r: bool)
        ensures
            r == (self@.quantity == 0),
    {
        self.quantity.is_zero()
    }

    pub fn is_long(&self) -> (r: bool)
        ensures
            r == (self@.quantity > 0),
    {
        self.quantity.is_positive()
    }

    pub fn is_short(&self) -> (r: bool)
        ensures
            r == (self@.quantity < 0),
    {
        self.quantity.is_negative()
    }

    pub fn abs_quantity(&self) -> (r: Dec)
        requires
            fits(abs_int(self@.quantity)),
        ensures
            r@ == abs_int(self@.quantity),
    {
        self.quantity.abs()
    }

    /// quantity · price · multiplier
    pub fn notional_value(&self, current_price: Dec) -> (r: Dec)
        requires
            value_fits(self@.quantity, current_price@, self@.multiplier),
        ensures
            r@ == self@.notional(current_price@),
    {
        self.quantity.mul(current_price).mul(self.multiplier)
    }

    /// Market value at `current_price` less the cost basis.
    pub fn unrealized_pnl(&self, current_price: Dec) -> (r: Dec)
        requires
            self@.unrealized_fits(current_price@),
        ensures
            r@ == self@.unrealized_pnl(current_price@),
    {
        self.notional_value(current_price).sub(self.cost_basis)
    }

    /// Realized plus unrealized P&L.
    pub fn total_pnl(&self, current_price: Dec) -> (r: Dec)
        requires
            self@.unrealized_fits(current_price@),
            fits(self@.realized_pnl + self@.unrealized_pnl(current_price@)),
        ensures
            r@ == self@.realized_pnl + self@.unrealized_pnl(current_price@),
    {
        self.realized_pnl.add(self.unrealized_pnl(current_price))
    }

    pub fn update_greeks(&mut self, greeks: Greeks, timestamp_ms: u64)
        ensures
            final(self)@ == (PositionModel {
                greeks: greeks@,
                last_update_ms: timestamp_ms as nat,
                ..old(self)@
            }),
    {
        self.greeks = greeks;
        self.last_update_ms = timestamp_ms;
    }

    /// Applies a trade of signed `quantity` at `price`: extends, reduces or
    /// flips the position, realizing P&L on any closed part.
    pub fn add(&mut self, quantity: Dec, price: Dec, timestamp_ms: u64)
        requires
            old(self)@.add_fits(quantity@, price@),
        ensures
            final(self)@ == old(self)@.after_add(quantity@, price@, timestamp_ms as nat),
    {
        if quantity.is_zero() {
            return ;
        }
        if self.extends(quantity) {
            let trade_value = quantity.mul(price).mul(self.multiplier);
            let new_quantity = self.quantity.add(quantity);
            let base = self.cost_basis.add(trade_value);
            self.average_price = base.div(new_quantity.mul(self.multiplier));
            self.quantity = new_quantity;
            self.cost_basis = base;
        } else {
            self.reduce_or_flip(quantity, price);
        }
        self.last_update_ms = timestamp_ms;
    }

    fn extends(&self, quantity: Dec) -> (r: bool)
        ensures
            r == self@.extends(quantity@),
    {
        let same = (self.quantity.is_positive() && quantity.is_positive()) || (
        self.quantity.is_negative() && quantity.is_negative());
        same || self.quantity.is_zero()
    }

    /// A trade of signed `quantity`, applied as the opposite of `quantity`.
    pub fn reduce(&mut self, quantity: Dec, price: Dec, timestamp_ms: u64)
        requires
            fits(-quantity@),
            old(self)@.add_fits(-quantity@, price@),
        ensures
            final(self)@ == old(self)@.after_add(-quantity@, price@, timestamp_ms as nat),
    {
        self.add(quantity.neg(), price, timestamp_ms);
    }

    fn reduce_or_flip(&mut self, quantity: Dec, price: Dec)
        requires
            quantity@ != 0,
            !old(self)@.extends(quantity@),
            old(self)@.add_fits(quantity@, price@),
        ensures
            final(self)@ == (PositionModel {
                last_update_ms: old(self)@.last_update_ms,
                ..old(self)@.after_add(quantity@, price@, old(self)@.last_update_ms)
            }),
    {
        let close_quantity = quantity.abs().min(self.quantity.abs());
        let close_value = close_quantity.mul(price).mul(self.multiplier);
        let close_cost = close_quantity.mul(self.average_price).mul(self.multiplier);
        let diff = close_value.sub(close_cost);
        let pnl = if self.quantity.is_positive() {
            diff
        } else {
            diff.neg()
        };
        self.realized_pnl = self.realized_pnl.add(pnl);
        let remaining = quantity.abs().sub(close_quantity);
        if remaining.is_zero() {
            self.quantity = self.quantity.add(quantity);
            self.cost_basis = self.quantity.mul(self.average_price).mul(self.multiplier);
        } else {
            self.quantity = if quantity.is_positive() {
                remaining
            } else {
                remaining.neg()
            };
            self.average_price = price;
            self.cost_basis = self.quantity.mul(price).mul(self.multiplier);
        }
    }

    /// Realizes all unrealized P&L at `price` and flattens the position;
    /// returns the amount realized by this call.
    pub fn close(&mut self, price: Dec, timestamp_ms: u64) -> (r: Dec)
        requires
            old(self)@.close_fits(price@),
        ensures
            final(self)@ == old(self)@.after_close(price@, timestamp_ms as nat),
            r@ == (if old(self)@.quantity == 0 {
                0
            } else {
                old(self)@.unrealized_pnl(price@)
            }),
    {
        if self.is_flat() {
            return Dec::zero();
        }
        let close_pnl = self.unrealized_pnl(price);
        self.realized_pnl = self.realized_pnl.add(close_pnl);
        self.quantity = Dec::zero();
        self.average_price = Dec::zero();
        self.cost_basis = Dec::zero();
        self.last_update_ms = timestamp_ms;
        close_pnl
    }

    /// Back to a flat position with no history; the multiplier stays.
    pub fn reset(&mut self)
        ensures
            final(self)@ == PositionModel::flat(old(self)@.multiplier),
    {
        self.quantity = Dec::zero();
        self.average_price = Dec::zero();
        self.cost_basis = Dec::zero();
        self.greeks = Greeks::zero();
        self.realized_pnl = Dec::zero();
        self.last_update_ms = 0;
    }
}

impl Default for Position {
    fn default() -> (r: Position)
        ensures
            r@ == PositionModel::flat(SCALE as int),
    {
        Position::new(Dec::one())
    }
}

/// Opening at `price` and closing at the same price realizes nothing and
/// leaves the position flat; closing at `exit` instead realizes the change in
/// market value, which for whole quantities and multipliers is exactly
/// `quantity · (exit − price) · multiplier`.
pub proof fn lemma_entry_close_round_trip(
    quantity: int,
    price: int,
    exit: int,
    multiplier: int,
    ts: nat,
    ts2: nat,
)
    requires
        fits(quantity),
        fits(price),
        fits(exit),
        fits(multiplier),
        quantity != 0,
        value_fits(quantity, price, multiplier),
        value_fits(quantity, exit, multiplier),
    ensures
        ({
            let p = PositionModel {
                quantity,
                average_price: price,
                cost_basis: value_of(quantity, price, multiplier),
                multiplier,
                greeks: GreeksModel::zero(),
                realized_pnl: 0,
                last_update_ms: ts,
            };
            &&& p.close_fits(price)
            &&& p.after_close(price, ts2).realized_pnl == 0
            &&& p.after_close(price, ts2).quantity == 0
            &&& p.after_close(price, ts2).average_price == 0
            &&& p.after_close(price, ts2).cost_basis == 0
            &&& p.after_close(exit, ts2).realized_pnl == value_of(quantity, exit, multiplier)
                - value_of(quantity, price, multiplier)
            &&& (quantity % SCALE as int == 0 && multiplier % SCALE as int == 0) ==> p.after_close(
                exit,
                ts2,
            ).realized_pnl * SCALE * SCALE == quantity * (exit - price) * multiplier
        }),
{
    if quantity % SCALE as int == 0 && multiplier % SCALE as int == 0 {
        let k = quantity / SCALE as int;
        let j = multiplier / SCALE as int;
        lemma_mul_whole(k, price);
        lemma_mul_whole(k, exit);
        crate::decimal::lemma_mul_commutes(k * price, multiplier);
        crate::decimal::lemma_mul_commutes(k * exit, multiplier);
        lemma_mul_whole(j, k * price);
        lemma_mul_whole(j, k * exit);
        assert(quantity == k * SCALE);
        assert(multiplier == j * SCALE);
        assert((j * (k * exit) - j * (k * price)) * SCALE * SCALE == (k * SCALE) * (exit - price)
            * (j * SCALE)) by (nonlinear_arith);
    }
}

/// Multiplying by a whole number `k` (given as `k · SCALE` units) is exact.
proof fn lemma_mul_whole(k: int, x: int)
    ensures
        mul_units(k * SCALE, x) == k * x,
{
    assert((k * SCALE) * x == (k * x) * SCALE) by (nonlinear_arith);
    crate::decimal::lemma_tdiv_exact(k * x, SCALE as int);
}

} // verus!
