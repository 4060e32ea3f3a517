//! Top-of-book quotes in the order book's integer units, and the change
//! between two of them.
use vstd::prelude::*;

verus! {

/// Best bid and ask, each price optional, in the book's smallest units.
#[derive(Clone, Copy, Debug, PartialEq, Eq)]
pub struct Quote {
    pub bid_price: Option<u64>,
    pub bid_size: u64,
    pub ask_price: Option<u64>,
    pub ask_size: u64,
    pub timestamp_ms: u64,
}

/// ask − bid, or zero when the book is crossed.
pub open spec fn saturating_gap(bid: u64, ask: u64) -> u64 {
    if ask >= bid {
        (ask - bid) as u64
    } else {
        0
    }
}

impl Quote {
    pub open spec fn spread_spec(self) -> Option<u64> {
        match (self.bid_price, self.ask_price) {
            (Some(b), Some(a)) => Some(saturating_gap(b, a)),
            _ => None,
        }
    }

    pub fn new(
        bid_price: Option<u64>,
        bid_size: u64,
        ask_price: Option<u64>,
        ask_size: u64,
        timestamp_ms: u64,
    ) -> (r: Quote)
        ensures
            r == (Quote { bid_price, bid_size, ask_price, ask_size, timestamp_ms }),
    {
        Quote { bid_price, bid_size, ask_price, ask_size, timestamp_ms }
    }

    /// No prices and no sizes.
    pub fn empty(timestamp_ms: u64) -> (r: Quote)
        ensures
            r == (Quote {
                bid_price: None,
                bid_size: 0,
                ask_price: None,
                ask_size: 0,
                timestamp_ms,
            }),
    {
        Quote { bid_price: None, bid_size: 0, ask_price: None, ask_size: 0, timestamp_ms }
    }

    pub fn bid_price(&self) -> (r: Option<u64>)
        ensures
            r == self.bid_price,
    {
        self.bid_price
    }

    pub fn bid_size(&self) -> (r: u64)
        ensures
            r == self.bid_size,
    {
        self.bid_size
    }

    pub fn ask_price(&self) -> (r: Option<u64>)
        ensures
            r == self.ask_price,
    {
        self.ask_price
    }

    pub fn ask_size(&self) -> (r: u64)
        ensures
            r == self.ask_size,
    {
        self.ask_size
    }

    pub fn timestamp_ms(&self) -> (r: u64)
        ensures
            r == self.timestamp_ms,
    {
        self.timestamp_ms
    }

    /// Both a bid and an ask are present.
    pub fn is_two_sided(&self) -> (r: bool)
        ensures
            r == (self.bid_price is Some && self.ask_price is Some),
    {
        self.bid_price.is_some() && self.ask_price.is_some()
    }

    /// Neither a bid nor an ask is present.
    pub fn is_empty(&self) -> (r: bool)
        ensures
            r == (self.bid_price is None && self.ask_price is None),
    {
        self.bid_price.is_none() && self.ask_price.is_none()
    }

    /// ask − bid (zero when crossed); nothing unless two-sided.
    pub fn spread(&self) -> (r: Option<u64>)
        ensures
            r == self.spread_spec(),
    {
        match (self.bid_price, self.ask_price) {
            (Some(bid), Some(ask)) => Some(
                if ask >= bid {
                    ask - bid
                } else {
                    0
                },
            ),
            _ => None,
        }
    }

    /// Not crossed: when both sides are present the ask is not below the bid.
    pub fn is_valid(&self) -> (r: bool)
        ensures
            r == (match (self.bid_price, self.ask_price) {
                (Some(b), Some(a)) => a >= b,
                _ => true,
            }),
    {
        match (self.bid_price, self.ask_price) {
            (Some(bid), Some(ask)) => ask >= bid,
            _ => true,
        }
    }
}

impl Default for Quote {
    fn default() -> (r: Quote)
        ensures
            r == (Quote {
                bid_price: None,
                bid_size: 0,
                ask_price: None,
                ask_size: 0,
                timestamp_ms: 0,
            }),
    {
        Quote::empty(0)
    }
}

/// A quote before and after a change, for one symbol (by hash).
#[derive(Clone, Copy, Debug, PartialEq, Eq)]
pub struct QuoteUpdate {
    symbol_hash: u64,
    previous: Quote,
    current: Quote,
}

impl QuoteUpdate {
    pub closed spec fn symbol_hash_spec(self) -> u64 {
        self.symbol_hash
    }

    pub closed spec fn previous_spec(self) -> Quote {
        self.previous
    }

    pub closed spec fn current_spec(self) -> Quote {
        self.current
    }

    pub fn new(symbol_hash: u64, previous: Quote, current: Quote) -> (r: QuoteUpdate)
        ensures
            r.symbol_hash_spec() == symbol_hash,
            r.previous_spec() == previous,
            r.current_spec() == current,
    {
        QuoteUpdate { symbol_hash, previous, current }
    }

    pub fn symbol_hash(&self) -> (r: u64)
        ensures
            r == self.symbol_hash_spec(),
    {
        self.symbol_hash
    }

    pub fn previous(&self) -> (r: &Quote)
        ensures
            *r == self.previous_spec(),
    {
        &self.previous
    }

    pub fn current(&self) -> (r: &Quote)
        ensures
            *r == self.current_spec(),
    {
        &self.current
    }

    pub fn bid_price_changed(&self) -> (r: bool)
        ensures
            r == (self.previous_spec().bid_price != self.current_spec().bid_price),
    {
        !option_eq(self.previous.bid_price, self.current.bid_price)
    }

    pub fn ask_price_changed(&self) -> (r: bool)
        ensures
            r == (self.previous_spec().ask_price != self.current_spec().ask_price),
    {
        !option_eq(self.previous.ask_price, self.current.ask_price)
    }

    /// Either price changed.
    pub fn price_changed(&self) -> (r: bool)
        ensures
            r == (self.previous_spec().bid_price != self.current_spec().bid_price
                || self.previous_spec().ask_price != self.current_spec().ask_price),
    {
        self.bid_price_changed() || self.ask_price_changed()
    }

    pub fn bid_size_changed(&self) -> (r: bool)
        ensures
            r == (self.previous_spec().bid_size != self.current_spec().bid_size),
    {
        self.previous.bid_size != self.current.bid_size
    }

    pub fn ask_size_changed(&self) -> (r: bool)
        ensures
            r == (self.previous_spec().ask_size != self.current_spec().ask_size),
    {
        self.previous.ask_size != self.current.ask_size
    }

    /// Current spread minus previous spread (each read as `i64`); nothing
    /// unless both quotes are two-sided.
    pub fn spread_change(&self) -> (r: Option<i64>)
        requires
            (self.previous_spec().spread_spec(), self.current_spec().spread_spec()) matches (
                Some(p),
                Some(c),
            ) ==> i64::MIN <= (c as i64) - (p as i64) <= i64::MAX,
        ensures
            r == (match (self.previous_spec().spread_spec(), self.current_spec().spread_spec()) {
                (Some(p), Some(c)) => Some(((c as i64) - (p as i64)) as i64),
                _ => None,
            }),
    {
        let prev = match self.previous.spread() {
            Some(s) => s as i64,
            None => return None,
        };
        let curr = match self.current.spread() {
            Some(s) => s as i64,
            None => return None,
        };
        Some(curr - prev)
    }
}

fn option_eq(a: Option<u64>, b: Option<u64>) -> (r: bool)
    ensures
        r == (a == b),
{
    match (a, b) {
        (Some(x), Some(y)) => x == y,
        (None, None) => true,
        _ => false,
    }
}

} // verus!
