//! Positions across one underlying's option chain, with limit checks and
//! Greek aggregation.
use vstd::prelude::*;

use crate::decimal::{abs_int, dec_of, fits, Dec};
use crate::error::{Error, LimitKind};
use crate::greeks::{partial_sums_fit, sum_models, Greeks, GreeksModel};
use crate::limits::{exposures_fit, LimitBreach, LimitsModel, PositionLimits};
use crate::position::{Position, PositionModel};

verus! {

/// One position per symbol, in the order the symbols were first traded.
pub type Entries = Seq<(Seq<char>, PositionModel)>;

/// The mathematical content of an [`InventoryManager`].
pub struct InventoryModel {
    pub underlying: Seq<char>,
    pub entries: Entries,
    pub limits: LimitsModel,
    pub default_multiplier: int,
}

/// No symbol appears twice.
pub open spec fn keys_unique(e: Entries) -> bool {
    forall|i: int, j: int|
        0 <= i < e.len() && 0 <= j < e.len() && #[trigger] e[i].0 == #[trigger] e[j].0 ==> i == j
}

pub open spec fn has_key(e: Entries, k: Seq<char>) -> bool {
    exists|i: int| 0 <= i < e.len() && #[trigger] e[i].0 == k
}

/// Where `k` stands in `e`, when it does.
pub open spec fn key_index(e: Entries, k: Seq<char>) -> int {
    choose|i: int| 0 <= i < e.len() && #[trigger] e[i].0 == k
}

/// The greeks of each entry, in order.
pub open spec fn entry_greeks(e: Entries) -> Seq<GreeksModel> {
    e.map_values(|x: (Seq<char>, PositionModel)| x.1.greeks)
}

/// Sum of the realized P&L of the first `n` entries.
pub open spec fn realized_sum(e: Entries, n: nat) -> int
    decreases n,
{
    if n == 0 || n > e.len() {
        0
    } else {
        realized_sum(e, (n - 1) as nat) + e[n - 1].1.realized_pnl
    }
}

impl InventoryModel {
    /// The position held in `k`, or a fresh one when there is none.
    pub open spec fn position_or_flat(self, k: Seq<char>) -> PositionModel {
        if has_key(self.entries, k) {
            self.entries[key_index(self.entries, k)].1
        } else {
            PositionModel::flat(self.default_multiplier)
        }
    }

    /// The entries with `k`'s position replaced by `p`, or `p` appended.
    pub open spec fn with_position(self, k: Seq<char>, p: PositionModel) -> Entries {
        if has_key(self.entries, k) {
            self.entries.update(key_index(self.entries, k), (k, p))
        } else {
            self.entries.push((k, p))
        }
    }

    /// Quantity that `k` would hold after a trade of `quantity`.
    pub open spec fn quantity_after(self, k: Seq<char>, quantity: int) -> int {
        self.position_or_flat(k).quantity + quantity
    }

    /// The trade stays within the per-contract ceiling.
    pub open spec fn trade_allowed(self, k: Seq<char>, quantity: int) -> bool {
        abs_int(self.quantity_after(k, quantity)) <= self.limits.per_option
    }

    /// Every intermediate value of recording the trade can be held by a [`Dec`].
    pub open spec fn trade_fits(self, k: Seq<char>, quantity: int, price: int) -> bool {
        &&& fits(abs_int(self.quantity_after(k, quantity)))
        &&& self.trade_allowed(k, quantity) ==> self.position_or_flat(k).add_fits(quantity, price)
    }

    pub open spec fn total_greeks(self) -> GreeksModel {
        sum_models(entry_greeks(self.entries))
    }
}

/// Positions of one underlying, keyed by contract symbol, under shared limits.
#[derive(Clone, Debug)]
pub struct InventoryManager {
    underlying: String,
    symbols: Vec<String>,
    positions: Vec<Position>,
    limits: PositionLimits,
    default_multiplier: Dec,
}

impl View for InventoryManager {
    type V = InventoryModel;

    closed spec fn view(&self) -> InventoryModel {
        InventoryModel {
            underlying: self.underlying@,
            entries: Seq::new(
                self.symbols@.len(),
                |i: int| (self.symbols@[i]@, self.positions@[i]@),
            ),
            limits: self.limits@,
            default_multiplier: self.default_multiplier@,
        }
    }
}

impl InventoryManager {
    /// Symbols and positions line up, and no symbol appears twice.
    pub closed spec fn wf(&self) -> bool {
        &&& self.symbols@.len() == self.positions@.len()
        &&& keys_unique(self@.entries)
    }

    pub fn new(underlying: &str, limits: PositionLimits, default_multiplier: Dec) -> (r:
        InventoryManager)
        ensures
            r.wf(),
            r@ == (InventoryModel {
                underlying: underlying@,
                entries: Seq::empty(),
                limits: limits@,
                default_multiplier: default_multiplier@,
            }),
    {
        let r = InventoryManager {
            underlying: underlying.to_owned(),
            symbols: Vec::new(),
            positions: Vec::new(),
            limits,
            default_multiplier,
        };
        proof {
            assert(r@.entries =~= Seq::empty());
        }
        r
    }

    pub fn underlying(&self) -> (r: &str)
        ensures
            r@ == self@.underlying,
    {
        self.underlying.as_str()
    }

    pub fn limits(&self) -> (r: &PositionLimits)
        ensures
            r@ == self@.limits,
    {
        &self.limits
    }

    pub fn position_count(&self) -> (r: usize)
        requires
            self.wf(),
        ensures
            r == self@.entries.len(),
    {
        self.positions.len()
    }

    pub fn is_empty(&self) -> (r: bool)
        requires
            self.wf(),
        ensures
            r == (self@.entries.len() == 0),
    {
        self.positions.len() == 0
    }

    /// Where `symbol` is held, if it is.
    fn find(&self, symbol: &str) -> (r: Option<usize>)
        requires
            self.wf(),
        ensures
            r matches Some(i) ==> i < self@.entries.len() && self@.entries[i as int].0 == symbol@
                && key_index(self@.entries, symbol@) == i && has_key(self@.entries, symbol@),
            r is None ==> !has_key(self@.entries, symbol@),
    {
        let key = symbol.to_owned();
        let mut i: usize = 0;
        while i < self.symbols.len()
            invariant
                self.wf(),
                key@ == symbol@,
                0 <= i <= self.symbols@.len(),
                forall|j: int| 0 <= j < i ==> self.symbols@[j]@ != symbol@,
            decreases self.symbols.len() - i,
        {
            if self.symbols[i] == key {
                proof {
                    let e = self@.entries;
                    assert(e[i as int].0 == symbol@);
                    let c = key_index(e, symbol@);
                    assert(0 <= c < e.len() && e[c].0 == e[i as int].0);
                }
                return Some(i);
            }
            i = i + 1;
        }
        proof {
            let e = self@.entries;
            assert forall|j: int| 0 <= j < e.len() implies e[j].0 != symbol@ by {
                assert(self.symbols@[j]@ != symbol@);
            }
        }
        None
    }

    pub fn get_position(&self, symbol: &str) -> (r: Option<&Position>)
        requires
            self.wf(),
        ensures
            r is Some == has_key(self@.entries, symbol@),
            r matches Some(p) ==> p@ == self@.entries[key_index(self@.entries, symbol@)].1,
    {
        match self.find(symbol) {
            Some(i) => Some(&self.positions[i]),
            None => None,
        }
    }

    /// The position in `symbol`, inserting a flat one with the default
    /// multiplier when there is none.
    pub fn get_or_create_position(&mut self, symbol: &str) -> (r: Position)
        requires
            old(self).wf(),
        ensures
            final(self).wf(),
            r@ == old(self)@.position_or_flat(symbol@),
            final(self)@ == (InventoryModel {
                entries: old(self)@.with_position(symbol@, r@),
                ..old(self)@
            }),
    {
        let i = self.index_or_insert(symbol);
        self.positions[i]
    }

    /// Where `symbol` is held, inserting a flat position for it first when
    /// there is none.
    fn index_or_insert(&mut self, symbol: &str) -> (r: usize)
        requires
            old(self).wf(),
        ensures
            final(self).wf(),
            r < final(self)@.entries.len(),
            final(self)@.entries[r as int].0 == symbol@,
            final(self)@.entries[r as int].1 == old(self)@.position_or_flat(symbol@),
            final(self)@ == (InventoryModel {
                entries: old(self)@.with_position(symbol@, old(self)@.position_or_flat(symbol@)),
                ..old(self)@
            }),
            forall|k: Seq<char>|
                #![trigger has_key(final(self)@.entries, k)]
                has_key(final(self)@.entries, k) ==> key_index(final(self)@.entries, k) == (
                if has_key(old(self)@.entries, k) {
                    key_index(old(self)@.entries, k)
                } else {
                    r as int
                }),
    {
        match self.find(symbol) {
            Some(i) => {
                proof {
                    let e = self@.entries;
                    assert(e.update(i as int, (symbol@, e[i as int].1)) =~= e);
                    assert forall|k: Seq<char>| #![trigger has_key(e, k)] has_key(e, k) implies
                        key_index(e, k) == key_index(e, k) by {}
                }
                i
            },
            None => {
                let ghost old_e = self@.entries;
                let n = self.positions.len();
                self.symbols.push(symbol.to_owned());
                self.positions.push(Position::new(self.default_multiplier));
                proof {
                    let e = self@.entries;
                    assert(e =~= old_e.push((symbol@, PositionModel::flat(self.default_multiplier@))));
                    assert forall|a: int, b: int|
                        0 <= a < e.len() && 0 <= b < e.len() && #[trigger] e[a].0 == #[trigger] e[b].0
                        implies a == b by {
                        if a < n && b < n {
                            assert(old_e[a].0 == old_e[b].0);
                        } else if a < n {
                            assert(old_e[a].0 == symbol@);
                        } else if b < n {
                            assert(old_e[b].0 == symbol@);
                        }
                    }
                    assert forall|k: Seq<char>| #![trigger has_key(e, k)] has_key(e, k) implies key_index(
                        e,
                        k,
                    ) == (if has_key(old_e, k) {
                        key_index(old_e, k)
                    } else {
                        n as int
                    }) by {
                        let c = key_index(e, k);
                        if has_key(old_e, k) {
                            let d = key_index(old_e, k);
                            assert(e[d].0 == k);
                        } else {
                            assert(e[n as int].0 == symbol@);
                            if c < n {
                                assert(old_e[c].0 == k);
                            }
                        }
                    }
                }
                n
            },
        }
    }

    /// Records a trade of signed `quantity` at `price`. When the resulting
    /// size would break the per-contract ceiling, nothing changes and the
    /// breach is returned.
    pub fn record_trade(&mut self, symbol: &str, quantity: Dec, price: Dec, timestamp_ms: u64) -> (r:
        Result<(), Error>)
        requires
            old(self).wf(),
            old(self)@.trade_fits(symbol@, quantity@, price@),
        ensures
            final(self).wf(),
            r is Ok == old(self)@.trade_allowed(symbol@, quantity@),
            r is Ok ==> final(self)@ == (InventoryModel {
                entries: old(self)@.with_position(
                    symbol@,
                    old(self)@.position_or_flat(symbol@).after_add(
                        quantity@,
                        price@,
                        timestamp_ms as nat,
                    ),
                ),
                ..old(self)@
            }),
            r is Err ==> final(self)@ == old(self)@ && r == Err::<(), Error>(
                Error::InventoryLimitExceeded {
                    limit_type: LimitKind::PerOption,
                    limit: dec_of(old(self)@.limits.per_option),
                    current: dec_of(abs_int(old(self)@.quantity_after(symbol@, quantity@))),
                },
            ),
    {
        let current_qty = match self.find(symbol) {
            Some(i) => self.positions[i].quantity(),
            None => Dec::zero(),
        };
        proof {
            if has_key(self@.entries, symbol@) {
                crate::position::lemma_position_fits(
                    self.positions@[key_index(self@.entries, symbol@)],
                );
            }
            assert(fits(self@.quantity_after(symbol@, quantity@)));
        }
        let new_qty = current_qty.add(quantity);
        if self.limits.exceeds_per_option(new_qty) {
            return Err(
                Error::InventoryLimitExceeded {
                    limit_type: LimitKind::PerOption,
                    limit: self.limits.per_option(),
                    current: new_qty.abs(),
                },
            );
        }
        let i = self.index_or_insert(symbol);
        let ghost mid = self@;
        let mut p = self.positions[i];
        p.add(quantity, price, timestamp_ms);
        self.positions.set(i, p);
        proof {
            let e = self@.entries;
            assert(e =~= mid.entries.update(i as int, (symbol@, p@)));
            let o = old(self)@;
            if has_key(o.entries, symbol@) {
                assert(key_index(o.entries, symbol@) == i);
                assert(e =~= o.entries.update(i as int, (symbol@, p@)));
            } else {
                assert(e =~= o.entries.push((symbol@, p@)));
            }
        }
        Ok(())
    }

    /// Sets the greeks of `symbol`'s position, when there is one.
    pub fn update_greeks(&mut self, symbol: &str, greeks: Greeks, timestamp_ms: u64)
        requires
            old(self).wf(),
        ensures
            final(self).wf(),
            has_key(old(self)@.entries, symbol@) ==> final(self)@ == (InventoryModel {
                entries: old(self)@.with_position(
                    symbol@,
                    PositionModel {
                        greeks: greeks@,
                        last_update_ms: timestamp_ms as nat,
                        ..old(self)@.position_or_flat(symbol@)
                    },
                ),
                ..old(self)@
            }),
            !has_key(old(self)@.entries, symbol@) ==> final(self)@ == old(self)@,
    {
        match self.find(symbol) {
            Some(i) => {
                let mut p = self.positions[i];
                p.update_greeks(greeks, timestamp_ms);
                self.positions.set(i, p);
                proof {
                    assert(self@.entries =~= old(self)@.entries.update(i as int, (symbol@, p@)));
                }
            },
            None => {},
        }
    }

    /// Sum of every position's greeks.
    pub fn total_greeks(&self) -> (r: Greeks)
        requires
            self.wf(),
            partial_sums_fit(entry_greeks(self@.entries)),
        ensures
            r@ == self@.total_greeks(),
    {
        let mut acc = Greeks::zero();
        let mut i: usize = 0;
        let ghost s = entry_greeks(self@.entries);
        while i < self.positions.len()
            invariant
                self.wf(),
                s == entry_greeks(self@.entries),
                0 <= i <= self.positions@.len(),
                partial_sums_fit(s),
                acc@ == sum_models(s.take(i as int)),
            decreases self.positions.len() - i,
        {
            proof {
                assert(s.take(i + 1).drop_last() == s.take(i as int));
                assert(s.take(i + 1).last() == self.positions@[i as int]@.greeks);
                assert(sum_models(s.take(i + 1)).fits());
            }
            acc = acc.add(*self.positions[i].greeks());
            i = i + 1;
        }
        proof {
            assert(s.take(i as int) == s);
        }
        acc
    }

    /// Sum of every position's realized P&L.
    pub fn total_realized_pnl(&self) -> (r: Dec)
        requires
            self.wf(),
            forall|n: nat| n <= self@.entries.len() ==> fits(#[trigger] realized_sum(self@.entries, n)),
        ensures
            r@ == realized_sum(self@.entries, self@.entries.len()),
    {
        let mut acc = Dec::zero();
        let mut i: usize = 0;
        while i < self.positions.len()
            invariant
                self.wf(),
                0 <= i <= self.positions@.len(),
                forall|n: nat| n <= self@.entries.len() ==> fits(#[trigger] realized_sum(self@.entries, n)),
                acc@ == realized_sum(self@.entries, i as nat),
            decreases self.positions.len() - i,
        {
            proof {
                assert(fits(realized_sum(self@.entries, (i + 1) as nat)));
            }
            acc = acc.add(self.positions[i].realized_pnl());
            i = i + 1;
        }
        acc
    }

    /// The dollar-Greek breaches of the summed greeks.
    pub fn check_greek_limits(&self, spot: Dec, multiplier: Dec) -> (r: Vec<LimitBreach>)
        requires
            self.wf(),
            partial_sums_fit(entry_greeks(self@.entries)),
            exposures_fit(self@.total_greeks(), spot@, multiplier@),
        ensures
            r@ == self@.limits.greek_breaches(self@.total_greeks(), spot@, multiplier@),
    {
        let total = self.total_greeks();
        self.limits.check_greek_limits(&total, spot, multiplier)
    }

    /// Every symbol with its position, in the order first traded.
    pub fn positions(&self) -> (r: Vec<(String, Position)>)
        requires
            self.wf(),
        ensures
            r@.len() == self@.entries.len(),
            forall|i: int|
                0 <= i < r@.len() ==> (#[trigger] r@[i]).0@ == self@.entries[i].0 && r@[i].1@
                    == self@.entries[i].1,
    {
        let mut out: Vec<(String, Position)> = Vec::new();
        let mut i: usize = 0;
        while i < self.positions.len()
            invariant
                self.wf(),
                0 <= i <= self.positions@.len(),
                out@.len() == i,
                forall|j: int|
                    0 <= j < i ==> (#[trigger] out@[j]).0@ == self@.entries[j].0 && out@[j].1@
                        == self@.entries[j].1,
            decreases self.positions.len() - i,
        {
            out.push((self.symbols[i].clone(), self.positions[i]));
            i = i + 1;
        }
        out
    }

    /// Drops every position.
    pub fn clear(&mut self)
        requires
            old(self).wf(),
        ensures
            final(self).wf(),
            final(self)@ == (InventoryModel { entries: Seq::empty(), ..old(self)@ }),
    {
        self.symbols.clear();
        self.positions.clear();
        proof {
            assert(self@.entries =~= Seq::empty());
        }
    }

    /// Removes `symbol`'s position and returns it, when there is one.
    pub fn remove_position(&mut self, symbol: &str) -> (r: Option<Position>)
        requires
            old(self).wf(),
        ensures
            final(self).wf(),
            r is Some == has_key(old(self)@.entries, symbol@),
            r matches Some(p) ==> p@ == old(self)@.position_or_flat(symbol@) && final(self)@ == (
            InventoryModel {
                entries: old(self)@.entries.remove(key_index(old(self)@.entries, symbol@)),
                ..old(self)@
            }),
            r is None ==> final(self)@ == old(self)@,
    {
        match self.find(symbol) {
            Some(i) => {
                let ghost old_e = self@.entries;
                self.symbols.remove(i);
                let p = self.positions.remove(i);
                proof {
                    let e = self@.entries;
                    assert(e =~= old_e.remove(i as int));
                    assert forall|a: int, b: int|
                        0 <= a < e.len() && 0 <= b < e.len() && #[trigger] e[a].0 == #[trigger] e[b].0
                        implies a == b by {
                        let a2 = if a < i { a } else { a + 1 };
                        let b2 = if b < i { b } else { b + 1 };
                        assert(old_e[a2].0 == old_e[b2].0);
                    }
                }
                Some(p)
            },
            None => None,
        }
    }
}

} // verus!
