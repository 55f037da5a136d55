use vstd::prelude::*;

use crate::models::{RsiData, TradeData};
use crate::series::{rsi_of, window_push, PriceHistory};
use crate::signal::{classify_spec, RSI_MAX};

verus! {

/// The period of the RSI that ingestion and the default query report.
pub const RSI_PERIOD: usize = 14;

/// A series seen as its symbol, its prices and its timestamps.
pub type SeriesView = (Seq<char>, Seq<u64>, Seq<i64>);

/// The position of the series for `sym` in `v`, or `-1` when there is none.
pub open spec fn index_in(v: Seq<SeriesView>, sym: Seq<char>) -> int {
    if exists|k: int| 0 <= k < v.len() && (#[trigger] v[k]).0 == sym {
        choose|k: int| 0 <= k < v.len() && (#[trigger] v[k]).0 == sym
    } else {
        -1
    }
}

/// The registry after one observation of `sym`: its series, created when
/// missing, takes the observation.
pub open spec fn ingest_spec(v: Seq<SeriesView>, sym: Seq<char>, price: u64, ts: i64) -> Seq<
    SeriesView,
> {
    let k = index_in(v, sym);
    if k >= 0 {
        v.update(k, (sym, window_push(v[k].1, price), window_push(v[k].2, ts)))
    } else {
        v.push((sym, seq![price], seq![ts]))
    }
}

/// The prices held for `sym`; empty when it was never seen.
pub open spec fn prices_of(v: Seq<SeriesView>, sym: Seq<char>) -> Seq<u64> {
    let k = index_in(v, sym);
    if k >= 0 {
        v[k].1
    } else {
        Seq::empty()
    }
}

/// Each symbol whose series has an RSI for `period`, with that RSI, in the
/// order of the series.
pub open spec fn rsi_entries(v: Seq<SeriesView>, period: nat) -> Seq<(Seq<char>, int)>
    decreases v.len(),
{
    if v.len() == 0 {
        Seq::empty()
    } else {
        let rest = rsi_entries(v.drop_last(), period);
        match rsi_of(v.last().1, period) {
            Some(x) => rest.push((v.last().0, x)),
            None => rest,
        }
    }
}

/// No two series share a symbol.
pub open spec fn unique_symbols(v: Seq<SeriesView>) -> bool {
    forall|i: int, j: int|
        0 <= i < v.len() && 0 <= j < v.len() && i != j ==> (#[trigger] v[i]).0 != (#[trigger] v[j]).0
}

proof fn lemma_index_in_at(v: Seq<SeriesView>, sym: Seq<char>, k: int)
    requires
        unique_symbols(v),
        0 <= k < v.len(),
        v[k].0 == sym,
    ensures
        index_in(v, sym) == k,
{
    let c = index_in(v, sym);
    assert(v[c].0 == v[k].0);
}

proof fn lemma_index_in_absent(v: Seq<SeriesView>, sym: Seq<char>)
    requires
        forall|k: int| 0 <= k < v.len() ==> (#[trigger] v[k]).0 != sym,
    ensures
        index_in(v, sym) == -1,
{
}

/// After one trade of `sym`, the symbol has a series whose latest price is
/// the trade's, a symbol that was new adds one series, and every other
/// symbol keeps the prices it had.
pub proof fn lemma_ingest_updates_only_its_symbol(
    v: Seq<SeriesView>,
    sym: Seq<char>,
    price: u64,
    ts: i64,
    other: Seq<char>,
)
    requires
        unique_symbols(v),
        other != sym,
    ensures
        unique_symbols(ingest_spec(v, sym, price, ts)),
        index_in(ingest_spec(v, sym, price, ts), sym) >= 0,
        prices_of(ingest_spec(v, sym, price, ts), sym).len() > 0,
        prices_of(ingest_spec(v, sym, price, ts), sym).last() == price,
        ingest_spec(v, sym, price, ts).len() == v.len() + if index_in(v, sym) >= 0 {
            0int
        } else {
            1int
        },
        prices_of(ingest_spec(v, sym, price, ts), other) == prices_of(v, other),
{
    let w = ingest_spec(v, sym, price, ts);
    let k = index_in(v, sym);
    let kw: int = if k >= 0 {
        k
    } else {
        v.len() as int
    };
    if k < 0 {
        assert forall|j: int| 0 <= j < v.len() implies (#[trigger] v[j]).0 != sym by {
            if v[j].0 == sym {
                assert(exists|x: int| 0 <= x < v.len() && (#[trigger] v[x]).0 == sym);
            }
        }
    }
    assert(unique_symbols(w)) by {
        assert forall|i: int, j: int|
            0 <= i < w.len() && 0 <= j < w.len() && i != j implies (#[trigger] w[i]).0 != (
            #[trigger] w[j]).0 by {
            if i != kw && j != kw {
                assert(w[i] == v[i] && w[j] == v[j]);
            } else if i == kw {
                assert(w[j] == v[j]);
            } else {
                assert(w[i] == v[i]);
            }
        }
    }
    assert(w[kw].0 == sym);
    lemma_index_in_at(w, sym, kw);
    let ko = index_in(v, other);
    if ko >= 0 {
        assert(v[ko].0 == other);
        assert(ko != kw);
        assert(w[ko] == v[ko]);
        lemma_index_in_at(w, other, ko);
    } else {
        assert forall|j: int| 0 <= j < w.len() implies (#[trigger] w[j]).0 != other by {
            if j != kw {
                assert(w[j] == v[j]);
                if v[j].0 == other {
                    assert(exists|x: int| 0 <= x < v.len() && (#[trigger] v[x]).0 == other);
                }
            }
        }
        lemma_index_in_absent(w, other);
    }
}

/// Each symbol with its latest price, in the order of the series.
pub open spec fn latest_prices(v: Seq<SeriesView>) -> Seq<(Seq<char>, u64)> {
    v.map_values(|e: SeriesView| (e.0, e.1.last()))
}

/// All series, one per symbol ever ingested.
pub struct DataProcessor {
    histories: Vec<PriceHistory>,
}

impl View for DataProcessor {
    type V = Seq<SeriesView>;

    closed spec fn view(&self) -> Seq<SeriesView> {
        self.histories@.map_values(|h: PriceHistory| (h.symbol@, h.prices@, h.timestamps@))
    }
}

impl DataProcessor {
    /// Each series is well formed and non-empty, and no two share a symbol.
    pub closed spec fn wf(&self) -> bool {
        &&& forall|i: int|
            0 <= i < self.histories@.len() ==> (#[trigger] self.histories@[i]).wf()
                && self.histories@[i].prices@.len() > 0
        &&& forall|i: int, j: int|
            0 <= i < self.histories@.len() && 0 <= j < self.histories@.len() && i != j
                ==> (#[trigger] self.histories@[i]).symbol@ != (#[trigger] self.histories@[j]).symbol@
    }

    /// A well-formed registry holds one series per symbol.
    pub proof fn lemma_unique_symbols(&self)
        requires
            self.wf(),
        ensures
            unique_symbols(self@),
    {
        assert forall|i: int, j: int|
            0 <= i < self@.len() && 0 <= j < self@.len() && i != j implies (#[trigger] self@[i]).0
            != (#[trigger] self@[j]).0 by {
            assert(self.histories@[i].symbol@ != self.histories@[j].symbol@);
        }
    }

    /// A registry with no symbol.
    pub fn new() -> (r: Self)
        ensures
            r.wf(),
            r@ == Seq::<SeriesView>::empty(),
    {
        DataProcessor { histories: Vec::new() }
    }

    /// The position of the series for `symbol`.
    fn find(&self, symbol: &String) -> (r: Option<usize>)
        requires
            self.wf(),
        ensures
            r matches Some(k) ==> index_in(self@, symbol@) == k as int,
            r is None ==> index_in(self@, symbol@) == -1,
    {
        let mut i: usize = 0;
        while i < self.histories.len()
            invariant
                self.wf(),
                i <= self.histories@.len(),
                forall|j: int| 0 <= j < i ==> (#[trigger] self@[j]).0 != symbol@,
            decreases self.histories@.len() - i,
        {
            if self.histories[i].symbol == *symbol {
                assert(self@[i as int].0 == symbol@);
                proof {
                    let k = index_in(self@, symbol@);
                    assert(self@[k].0 == self.histories@[k].symbol@);
                    assert(self.histories@[k].symbol@ == self.histories@[i as int].symbol@);
                }
                return Some(i);
            }
            i = i + 1;
        }
        None
    }

    /// Appends the trade's price to its symbol's series, creating the series
    /// on the symbol's first trade, and returns the series' RSI over
    /// `RSI_PERIOD` changes, classified, once it has enough prices. The
    /// append and the derivation happen under one exclusive borrow.
    pub fn process_trade_data(&mut self, trade_data: TradeData) -> (r: Option<RsiData>)
        requires
            old(self).wf(),
        ensures
            final(self).wf(),
            final(self)@ == ingest_spec(
                old(self)@,
                trade_data.symbol@,
                trade_data.price,
                trade_data.timestamp,
            ),
            r is Some == rsi_of(prices_of(final(self)@, trade_data.symbol@), RSI_PERIOD as nat) is Some,
            r matches Some(d) ==> {
                &&& d.symbol@ == trade_data.symbol@
                &&& rsi_of(prices_of(final(self)@, trade_data.symbol@), RSI_PERIOD as nat) == Some(
                    d.rsi_value as int,
                )
                &&& d.period == RSI_PERIOD
                &&& d.signal == classify_spec(d.rsi_value)
                &&& d.rsi_value <= RSI_MAX
            },
    {
        let TradeData { symbol, price, timestamp, .. } = trade_data;
        let ghost sym = symbol@;
        let ghost v0 = self@;
        let k: usize = match self.find(&symbol) {
            Some(k) => {
                let ghost hs0 = self.histories@;
                let mut h = self.histories.remove(k);
                h.add_price(price, timestamp);
                self.histories.insert(k, h);
                proof {
                    assert(self.histories@ =~= hs0.update(k as int, h));
                    assert(v0[k as int].0 == hs0[k as int].symbol@);
                }
                assert(self@ =~= ingest_spec(v0, sym, price, timestamp));
                k
            },
            None => {
                let ghost hs0 = self.histories@;
                let mut h = PriceHistory::new(symbol.clone());
                h.add_price(price, timestamp);
                self.histories.push(h);
                proof {
                    assert forall|j: int| 0 <= j < hs0.len() implies hs0[j].symbol@ != sym by {
                        assert(v0[j].0 == hs0[j].symbol@);
                    }
                }
                assert(self@ =~= ingest_spec(v0, sym, price, timestamp));
                self.histories.len() - 1
            },
        };
        proof {
            assert(self@[k as int].0 == sym);
            let j = index_in(self@, sym);
            assert(self.histories@[j].symbol@ == self.histories@[k as int].symbol@);
            assert(prices_of(self@, sym) == self.histories@[k as int].prices@);
        }
        match self.histories[k].calculate_rsi(RSI_PERIOD) {
            Some(value) => Some(RsiData::new(symbol, value, RSI_PERIOD as u32)),
            None => None,
        }
    }
    /// A copy of each symbol with the price it was last traded at. The copy
    /// is the caller's own: later ingestion leaves it as it is.
    pub fn get_latest_prices(&self) -> (r: Vec<(String, u64)>)
        requires
            self.wf(),
        ensures
            r@.map_values(|e: (String, u64)| (e.0@, e.1)) == latest_prices(self@),
    {
        let mut out: Vec<(String, u64)> = Vec::new();
        let mut i: usize = 0;
        while i < self.histories.len()
            invariant
                self.wf(),
                i <= self.histories@.len(),
                out@.map_values(|e: (String, u64)| (e.0@, e.1)) =~= latest_prices(
                    self@.take(i as int),
                ),
            decreases self.histories@.len() - i,
        {
            let h = &self.histories[i];
            let n = h.prices.len();
            let last = h.prices[n - 1];
            let ghost out0 = out@;
            out.push((h.symbol.clone(), last));
            proof {
                assert(self@[i as int] == (h.symbol@, h.prices@, h.timestamps@));
                assert(out@.map_values(|e: (String, u64)| (e.0@, e.1)) =~= out0.map_values(
                    |e: (String, u64)| (e.0@, e.1),
                ).push((h.symbol@, last)));
                assert(self@.take(i + 1) =~= self@.take(i as int).push(self@[i as int]));
            }
            i = i + 1;
        }
        assert(self@.take(i as int) =~= self@);
        out
    }

    /// A copy of each symbol whose series has an RSI over `period` changes,
    /// with that RSI, in millionths of a point. Symbols with too few prices
    /// are left out.
    pub fn latest_rsi_for(&self, period: usize) -> (r: Vec<(String, u64)>)
        requires
            self.wf(),
            period > 0,
        ensures
            r@.map_values(|e: (String, u64)| (e.0@, e.1 as int)) == rsi_entries(
                self@,
                period as nat,
            ),
    {
        let mut out: Vec<(String, u64)> = Vec::new();
        let mut i: usize = 0;
        while i < self.histories.len()
            invariant
                self.wf(),
                period > 0,
                i <= self.histories@.len(),
                out@.map_values(|e: (String, u64)| (e.0@, e.1 as int)) =~= rsi_entries(
                    self@.take(i as int),
                    period as nat,
                ),
            decreases self.histories@.len() - i,
        {
            let h = &self.histories[i];
            let ghost before = self@.take(i as int);
            proof {
                assert(self@.take(i + 1).drop_last() =~= before);
                assert(self@.take(i + 1).last() == self@[i as int]);
            }
            match h.calculate_rsi(period) {
                Some(value) => {
                    out.push((h.symbol.clone(), value));
                },
                None => {},
            }
            i = i + 1;
        }
        assert(self@.take(i as int) =~= self@);
        out
    }

    /// `latest_rsi_for` over `RSI_PERIOD` changes.
    pub fn get_latest_rsi(&self) -> (r: Vec<(String, u64)>)
        requires
            self.wf(),
        ensures
            r@.map_values(|e: (String, u64)| (e.0@, e.1 as int)) == rsi_entries(
                self@,
                RSI_PERIOD as nat,
            ),
    {
        self.latest_rsi_for(RSI_PERIOD)
    }
}

} // verus!
