use vstd::prelude::*;

use crate::models::{RsiData, TradeData, TradeSide, TICKS_PER_UNIT};
use crate::outside::random_below;
use crate::registry::RSI_PERIOD;
use crate::signal::{classify_spec, RSI_MAX, RSI_SCALE};

verus! {

/// Largest price move of one synthetic trade, in basis points either way.
pub const MAX_MOVE_BP: u64 = 500;

/// Largest RSI move of one synthetic reading, `2.0` points either way.
pub const MAX_RSI_MOVE: u64 = 2_000_000;

/// The instruments the generator trades.
pub open spec fn symbol_names() -> Seq<Seq<char>> {
    seq!["AAPL"@, "GOOGL"@, "MSFT"@, "TSLA"@, "AMZN"@, "NVDA"@, "META"@, "NFLX"@]
}

/// The exchange picked by `index`.
pub open spec fn exchange_name(index: u64) -> Seq<char> {
    if index == 0 {
        "NYSE"@
    } else if index == 1 {
        "NASDAQ"@
    } else {
        "BATS"@
    }
}

/// `base` moved by `draw - MAX_MOVE_BP` basis points, rounded down, kept
/// within `1..=u64::MAX`.
pub open spec fn moved_price(base: u64, draw: u64) -> int {
    let p = (base * (10_000 - MAX_MOVE_BP + draw)) / 10_000;
    if p < 1 {
        1
    } else if p > u64::MAX {
        u64::MAX as int
    } else {
        p
    }
}

/// `value` moved by `draw - MAX_RSI_MOVE`, kept within `0..=RSI_MAX`.
pub open spec fn moved_rsi(value: u64, draw: u64) -> int {
    let v = value + draw - MAX_RSI_MOVE;
    if v < 0 {
        0
    } else if v > RSI_MAX {
        RSI_MAX as int
    } else {
        v
    }
}

/// Moves a price by `draw - MAX_MOVE_BP` basis points.
pub fn step_price(base: u64, draw: u64) -> (r: u64)
    requires
        draw <= 2 * MAX_MOVE_BP,
    ensures
        r == moved_price(base, draw),
{
    let factor: u128 = (10_000 - MAX_MOVE_BP + draw) as u128;
    proof {
        assert(base * factor <= u64::MAX * 10_500) by (nonlinear_arith)
            requires base <= u64::MAX, factor <= 10_500;
    }
    let p: u128 = (base as u128 * factor) / 10_000;
    if p < 1 {
        1
    } else if p > u64::MAX as u128 {
        u64::MAX
    } else {
        p as u64
    }
}

/// Moves an RSI value by `draw - MAX_RSI_MOVE`.
pub fn step_rsi(value: u64, draw: u64) -> (r: u64)
    requires
        value <= RSI_MAX,
        draw <= 2 * MAX_RSI_MOVE,
    ensures
        r == moved_rsi(value, draw),
{
    let v = value + draw;
    if v < MAX_RSI_MOVE {
        0
    } else if v - MAX_RSI_MOVE > RSI_MAX {
        RSI_MAX
    } else {
        v - MAX_RSI_MOVE
    }
}

/// A random walk of prices and RSI readings over a fixed set of symbols.
pub struct DataGenerator {
    symbols: Vec<String>,
    base_prices: Vec<u64>,
    rsi_values: Vec<u64>,
}

impl DataGenerator {
    /// One price and one reading per symbol; readings within range.
    pub closed spec fn wf(&self) -> bool {
        &&& self.symbols@.len() == self.base_prices@.len()
        &&& self.symbols@.len() == self.rsi_values@.len()
        &&& self.symbols@.len() > 0
        &&& forall|i: int| 0 <= i < self.rsi_values@.len() ==> self.rsi_values@[i] <= RSI_MAX
    }

    /// The symbols traded.
    pub closed spec fn symbols(&self) -> Seq<Seq<char>> {
        self.symbols@.map_values(|s: String| s@)
    }

    /// The current price of each symbol, in ticks.
    pub closed spec fn prices(&self) -> Seq<u64> {
        self.base_prices@
    }

    /// The current reading of each symbol.
    pub closed spec fn readings(&self) -> Seq<u64> {
        self.rsi_values@
    }

    /// A generator over `symbol_names`, each starting at a random price in
    /// `[50, 500)` units and a random reading in `[20, 80)`.
    pub fn new() -> (r: Self)
        ensures
            r.wf(),
            r.symbols() == symbol_names(),
            forall|i: int|
                0 <= i < r.prices().len() ==> 50 * TICKS_PER_UNIT <= #[trigger] r.prices()[i] < 500
                    * TICKS_PER_UNIT,
            forall|i: int|
                0 <= i < r.readings().len() ==> 20 * RSI_SCALE <= #[trigger] r.readings()[i] < 80
                    * RSI_SCALE,
    {
        let mut symbols: Vec<String> = Vec::new();
        symbols.push("AAPL".to_owned());
        symbols.push("GOOGL".to_owned());
        symbols.push("MSFT".to_owned());
        symbols.push("TSLA".to_owned());
        symbols.push("AMZN".to_owned());
        symbols.push("NVDA".to_owned());
        symbols.push("META".to_owned());
        symbols.push("NFLX".to_owned());
        let mut base_prices: Vec<u64> = Vec::new();
        let mut rsi_values: Vec<u64> = Vec::new();
        let mut i: usize = 0;
        while i < symbols.len()
            invariant
                i <= symbols@.len(),
                base_prices@.len() == i,
                rsi_values@.len() == i,
                forall|j: int|
                    0 <= j < i ==> 50 * TICKS_PER_UNIT <= #[trigger] base_prices@[j] < 500
                        * TICKS_PER_UNIT,
                forall|j: int|
                    0 <= j < i ==> 20 * RSI_SCALE <= #[trigger] rsi_values@[j] < 80 * RSI_SCALE,
            decreases symbols@.len() - i,
        {
            base_prices.push(random_below(50 * TICKS_PER_UNIT, 500 * TICKS_PER_UNIT));
            rsi_values.push(random_below(20 * RSI_SCALE, 80 * RSI_SCALE));
            i = i + 1;
        }
        let r = DataGenerator { symbols, base_prices, rsi_values };
        assert(r.symbols() =~= symbol_names());
        r
    }

    /// The trade that the draws give: the symbol at `symbol_index` moves by
    /// `move_draw - MAX_MOVE_BP` basis points, and the trade is at that new
    /// price.
    pub fn apply_trade(
        &mut self,
        symbol_index: usize,
        move_draw: u64,
        volume: u64,
        buy: bool,
        exchange_index: u64,
    ) -> (r: TradeData)
        requires
            old(self).wf(),
            symbol_index < old(self).symbols().len(),
            move_draw <= 2 * MAX_MOVE_BP,
        ensures
            final(self).wf(),
            final(self).symbols() == old(self).symbols(),
            final(self).readings() == old(self).readings(),
            final(self).prices() == old(self).prices().update(symbol_index as int, r.price),
            r.price == moved_price(old(self).prices()[symbol_index as int], move_draw),
            r.symbol@ == old(self).symbols()[symbol_index as int],
            r.volume == volume,
            r.side == (if buy {
                TradeSide::Buy
            } else {
                TradeSide::Sell
            }),
            r.exchange@ == exchange_name(exchange_index),
            r.id@.len() == 36,
    {
        let symbol = self.symbols[symbol_index].clone();
        let price = step_price(self.base_prices[symbol_index], move_draw);
        self.base_prices.set(symbol_index, price);
        let side = if buy {
            TradeSide::Buy
        } else {
            TradeSide::Sell
        };
        let exchange = if exchange_index == 0 {
            "NYSE".to_owned()
        } else if exchange_index == 1 {
            "NASDAQ".to_owned()
        } else {
            "BATS".to_owned()
        };
        TradeData::new(symbol, price, volume, side, exchange)
    }

    /// A random trade: a random symbol moves by up to `MAX_MOVE_BP` basis
    /// points either way, with a volume in `100..10000`.
    pub fn generate_trade_data(&mut self) -> (r: TradeData)
        requires
            old(self).wf(),
        ensures
            final(self).wf(),
            final(self).symbols() == old(self).symbols(),
            final(self).readings() == old(self).readings(),
            exists|k: int|
                0 <= k < old(self).symbols().len() && r.symbol@ == old(self).symbols()[k]
                    && final(self).prices() == old(self).prices().update(k, r.price),
            100 <= r.volume < 10_000,
    {
        let n = self.symbols.len();
        proof {
            assert(self.symbols().len() == n);
        }
        let k = random_below(0, n as u64) as usize;
        let move_draw = random_below(0, 2 * MAX_MOVE_BP);
        let volume = random_below(100, 10_000);
        let buy = random_below(0, 2) == 0;
        let exchange_index = random_below(0, 3);
        self.apply_trade(k, move_draw, volume, buy, exchange_index)
    }

    /// The reading that the draws give: the symbol at `symbol_index` moves
    /// by `move_draw - MAX_RSI_MOVE`, kept within `[0, 100]`.
    pub fn apply_rsi(&mut self, symbol_index: usize, move_draw: u64) -> (r: RsiData)
        requires
            old(self).wf(),
            symbol_index < old(self).symbols().len(),
            move_draw <= 2 * MAX_RSI_MOVE,
        ensures
            final(self).wf(),
            final(self).symbols() == old(self).symbols(),
            final(self).prices() == old(self).prices(),
            final(self).readings() == old(self).readings().update(
                symbol_index as int,
                r.rsi_value,
            ),
            r.rsi_value == moved_rsi(old(self).readings()[symbol_index as int], move_draw),
            r.symbol@ == old(self).symbols()[symbol_index as int],
            r.period == RSI_PERIOD,
            r.signal == classify_spec(r.rsi_value),
            r.id@.len() == 36,
    {
        let symbol = self.symbols[symbol_index].clone();
        let value = step_rsi(self.rsi_values[symbol_index], move_draw);
        self.rsi_values.set(symbol_index, value);
        RsiData::new(symbol, value, RSI_PERIOD as u32)
    }

    /// A random reading: a random symbol's reading moves by up to
    /// `MAX_RSI_MOVE` either way.
    pub fn generate_rsi_data(&mut self) -> (r: RsiData)
        requires
            old(self).wf(),
        ensures
            final(self).wf(),
            final(self).symbols() == old(self).symbols(),
            final(self).prices() == old(self).prices(),
            exists|k: int|
                0 <= k < old(self).symbols().len() && r.symbol@ == old(self).symbols()[k]
                    && final(self).readings() == old(self).readings().update(k, r.rsi_value),
            r.rsi_value <= RSI_MAX,
            r.period == RSI_PERIOD,
    {
        let n = self.symbols.len();
        let k = random_below(0, n as u64) as usize;
        let move_draw = random_below(0, 2 * MAX_RSI_MOVE);
        self.apply_rsi(k, move_draw)
    }
}

} // verus!
