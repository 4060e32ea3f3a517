//! Latest tick per symbol, with stale updates rejected by sequence number.
use vstd::prelude::*;

verus! {

/// One top-of-book snapshot, in the feed's integer units.
#[derive(Clone, Copy, Debug, PartialEq, Eq)]
pub struct TickData {
    pub bid_price: Option<u64>,
    pub bid_size: u64,
    pub ask_price: Option<u64>,
    pub ask_size: u64,
    pub last_price: Option<u64>,
    pub last_size: u64,
    pub timestamp_ms: u64,
}

impl TickData {
    /// ask − bid, or zero when crossed; nothing unless both sides are present.
    pub fn spread(&self) -> (r: Option<u64>)
        ensures
            r == (match (self.bid_price, self.ask_price) {
                (Some(b), Some(a)) => Some(
                    if a >= b {
                        (a - b) as u64
                    } else {
                        0u64
                    },
                ),
                _ => None,
            }),
    {
        match (self.bid_price, self.ask_price) {
            (Some(bid), Some(ask)) => Some(
                if ask >= bid {
                    ask - bid
                } else {
                    0
                },
            ),
            _ => None,
        }
    }
}

/// Kind of market-data message.
#[derive(Clone, Copy, Debug, PartialEq, Eq)]
pub enum UpdateType {
    Snapshot,
    Delta,
    Trade,
}

/// A sequenced tick for one symbol.
#[derive(Clone, Debug)]
pub struct MarketDataUpdate {
    pub symbol: String,
    pub update_type: UpdateType,
    pub tick: TickData,
    pub sequence: u64,
}

/// Per symbol: the latest tick and its sequence number, in the order the
/// symbols first arrived.
pub type FeedModel = Seq<(Seq<char>, TickData, u64)>;

pub open spec fn feed_has(f: FeedModel, k: Seq<char>) -> bool {
    exists|i: int| 0 <= i < f.len() && #[trigger] f[i].0 == k
}

pub open spec fn feed_index(f: FeedModel, k: Seq<char>) -> int {
    choose|i: int| 0 <= i < f.len() && #[trigger] f[i].0 == k
}

pub open spec fn feed_unique(f: FeedModel) -> bool {
    forall|i: int, j: int|
        0 <= i < f.len() && 0 <= j < f.len() && #[trigger] f[i].0 == #[trigger] f[j].0 ==> i == j
}

/// The last accepted sequence number of `k`, zero if none.
pub open spec fn last_sequence(f: FeedModel, k: Seq<char>) -> u64 {
    if feed_has(f, k) {
        f[feed_index(f, k)].2
    } else {
        0
    }
}

/// The feed with `k`'s entry replaced, or a new entry appended.
pub open spec fn feed_with(f: FeedModel, k: Seq<char>, t: TickData, s: u64) -> FeedModel {
    if feed_has(f, k) {
        f.update(feed_index(f, k), (k, t, s))
    } else {
        f.push((k, t, s))
    }
}

/// Keeps the latest tick of each symbol.
#[derive(Debug)]
pub struct MarketDataHandler {
    symbols: Vec<String>,
    ticks: Vec<TickData>,
    sequences: Vec<u64>,
}

impl View for MarketDataHandler {
    type V = FeedModel;

    closed spec fn view(&self) -> FeedModel {
        Seq::new(
            self.symbols@.len(),
            |i: int| (self.symbols@[i]@, self.ticks@[i], self.sequences@[i]),
        )
    }
}

impl MarketDataHandler {
    /// The three columns line up and no symbol appears twice.
    pub closed spec fn wf(&self) -> bool {
        &&& self.symbols@.len() == self.ticks@.len()
        &&& self.symbols@.len() == self.sequences@.len()
        &&& feed_unique(self@)
    }

    pub fn new() -> (r: MarketDataHandler)
        ensures
            r.wf(),
            r@ == Seq::<(Seq<char>, TickData, u64)>::empty(),
    {
        let r = MarketDataHandler { symbols: Vec::new(), ticks: Vec::new(), sequences: Vec::new() };
        proof {
            assert(r@ =~= Seq::<(Seq<char>, TickData, u64)>::empty());
        }
        r
    }

    fn find(&self, symbol: &str) -> (r: Option<usize>)
        requires
            self.wf(),
        ensures
            r matches Some(i) ==> i < self@.len() && self@[i as int].0 == symbol@ && feed_index(
                self@,
                symbol@,
            ) == i && feed_has(self@, symbol@),
            r is None ==> !feed_has(self@, symbol@),
    {
        let key = symbol.to_owned();
        let mut i: usize = 0;
        while i < self.symbols.len()
            invariant
                self.wf(),
                key@ == symbol@,
                0 <= i <= self.symbols@.len(),
                forall|j: int| 0 <= j < i ==> self.symbols@[j]@ != symbol@,
            decreases self.symbols.len() - i,
        {
            if self.symbols[i] == key {
                proof {
                    let f = self@;
                    assert(f[i as int].0 == symbol@);
                    let c = feed_index(f, symbol@);
                    assert(0 <= c < f.len() && f[c].0 == f[i as int].0);
                }
                return Some(i);
            }
            i = i + 1;
        }
        proof {
            let f = self@;
            assert forall|j: int| 0 <= j < f.len() implies f[j].0 != symbol@ by {
                assert(self.symbols@[j]@ != symbol@);
            }
        }
        None
    }

    /// Stores the update's tick unless its sequence number is not above the
    /// last one accepted for its symbol; says whether it was stored.
    pub fn process_update(&mut self, update: MarketDataUpdate) -> (r: bool)
        requires
            old(self).wf(),
        ensures
            final(self).wf(),
            r == (update.sequence > last_sequence(old(self)@, update.symbol@)),
            r ==> final(self)@ == feed_with(
                old(self)@,
                update.symbol@,
                update.tick,
                update.sequence,
            ),
            !r ==> final(self)@ == old(self)@,
    {
        let found = self.find(update.symbol.as_str());
        let last_seq = match found {
            Some(i) => self.sequences[i],
            None => 0,
        };
        if update.sequence <= last_seq {
            return false;
        }
        let ghost old_f = self@;
        match found {
            Some(i) => {
                self.ticks.set(i, update.tick);
                self.sequences.set(i, update.sequence);
                proof {
                    assert(self@ =~= old_f.update(
                        i as int,
                        (update.symbol@, update.tick, update.sequence),
                    ));
                }
            },
            None => {
                let n = self.symbols.len();
                let tick = update.tick;
                let sequence = update.sequence;
                self.symbols.push(update.symbol);
                self.ticks.push(tick);
                self.sequences.push(sequence);
                proof {
                    let f = self@;
                    assert(f =~= old_f.push((f[n as int].0, tick, sequence)));
                    assert forall|a: int, b: int|
                        0 <= a < f.len() && 0 <= b < f.len() && #[trigger] f[a].0 == #[trigger] f[b].0
                        implies a == b by {
                        if a < n && b < n {
                            assert(old_f[a].0 == old_f[b].0);
                        } else if a < n {
                            assert(old_f[a].0 == f[n as int].0);
                        } else if b < n {
                            assert(old_f[b].0 == f[n as int].0);
                        }
                    }
                }
            },
        }
        true
    }

    /// The latest tick of `symbol`, if any was accepted.
    pub fn get_tick(&self, symbol: &str) -> (r: Option<&TickData>)
        requires
            self.wf(),
        ensures
            r is Some == feed_has(self@, symbol@),
            r matches Some(t) ==> *t == self@[feed_index(self@, symbol@)].1,
    {
        match self.find(symbol) {
            Some(i) => Some(&self.ticks[i]),
            None => None,
        }
    }

    pub fn symbol_count(&self) -> (r: usize)
        requires
            self.wf(),
        ensures
            r == self@.len(),
    {
        self.ticks.len()
    }

    /// Forgets every symbol.
    pub fn clear(&mut self)
        requires
            old(self).wf(),
        ensures
            final(self).wf(),
            final(self)@ == Seq::<(Seq<char>, TickData, u64)>::empty(),
    {
        self.symbols.clear();
        self.ticks.clear();
        self.sequences.clear();
        proof {
            assert(self@ =~= Seq::<(Seq<char>, TickData, u64)>::empty());
        }
    }
}

impl Default for MarketDataHandler {
    fn default() -> (r: MarketDataHandler)
        ensures
            r.wf(),
            r@ == Seq::<(Seq<char>, TickData, u64)>::empty(),
    {
        MarketDataHandler::new()
    }
}

} // verus!
