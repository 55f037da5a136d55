use vstd::prelude::*;

use crate::signal::RSI_MAX;

verus! {

/// The number of observations a series keeps.
pub const CAPACITY: usize = 100;

/// `s` after one more observation `x`: the oldest one leaves once the window
/// would hold more than `CAPACITY`.
pub open spec fn window_push<T>(s: Seq<T>, x: T) -> Seq<T> {
    if s.len() + 1 > CAPACITY {
        s.push(x).drop_first()
    } else {
        s.push(x)
    }
}

/// The window left by appending every element of `obs`, in order, to an
/// empty window.
pub open spec fn window_of<T>(obs: Seq<T>) -> Seq<T>
    decreases obs.len(),
{
    if obs.len() == 0 {
        Seq::empty()
    } else {
        window_push(window_of(obs.drop_last()), obs.last())
    }
}

/// The rise from price `i - 1` to price `i`, or zero.
pub open spec fn gain_at(p: Seq<u64>, i: int) -> int {
    if p[i] > p[i - 1] {
        p[i] - p[i - 1]
    } else {
        0
    }
}

/// The fall from price `i - 1` to price `i`, or zero.
pub open spec fn loss_at(p: Seq<u64>, i: int) -> int {
    if p[i] < p[i - 1] {
        p[i - 1] - p[i]
    } else {
        0
    }
}

/// Sum of the rises into prices `lo..hi`.
pub open spec fn gain_sum(p: Seq<u64>, lo: int, hi: int) -> int
    decreases hi - lo,
{
    if hi <= lo {
        0
    } else {
        gain_sum(p, lo, hi - 1) + gain_at(p, hi - 1)
    }
}

/// Sum of the falls into prices `lo..hi`.
pub open spec fn loss_sum(p: Seq<u64>, lo: int, hi: int) -> int
    decreases hi - lo,
{
    if hi <= lo {
        0
    } else {
        loss_sum(p, lo, hi - 1) + loss_at(p, hi - 1)
    }
}

/// `100 - 100 / (1 + gain / loss)` in millionths of a point, rounded down,
/// which is `100 * gain / (gain + loss)`; `100` when there is no loss.
pub open spec fn rsi_from_sums(gain: int, loss: int) -> int {
    if loss == 0 {
        RSI_MAX as int
    } else {
        (RSI_MAX as int * gain) / (gain + loss)
    }
}

/// The RSI of the prices `p` over the last `period` price changes; none
/// while `p` holds `period` prices or fewer. Averaging both sums over
/// `period` leaves their ratio unchanged.
pub open spec fn rsi_of(p: Seq<u64>, period: nat) -> Option<int> {
    if p.len() < period + 1 {
        None
    } else {
        Some(
            rsi_from_sums(
                gain_sum(p, p.len() - period, p.len() as int),
                loss_sum(p, p.len() - period, p.len() as int),
            ),
        )
    }
}

/// Every change among the last `period` prices is a rise or no change.
pub open spec fn non_decreasing_tail(p: Seq<u64>, period: nat) -> bool {
    forall|i: int| p.len() - period <= i < p.len() ==> #[trigger] p[i] >= p[i - 1]
}

/// Every change among the last `period` prices is a fall or no change.
pub open spec fn non_increasing_tail(p: Seq<u64>, period: nat) -> bool {
    forall|i: int| p.len() - period <= i < p.len() ==> #[trigger] p[i] <= p[i - 1]
}

/// The recent prices of one symbol, oldest first, with the time of each.
#[derive(Debug, Clone)]
pub struct PriceHistory {
    pub symbol: String,
    /// Prices in ticks.
    pub prices: Vec<u64>,
    /// Milliseconds since the Unix epoch, one per price.
    pub timestamps: Vec<i64>,
}

impl PriceHistory {
    /// Prices and timestamps pair up, and the window is within capacity.
    pub open spec fn wf(&self) -> bool {
        &&& self.prices@.len() == self.timestamps@.len()
        &&& self.prices@.len() <= CAPACITY
    }

    /// An empty series for `symbol`.
    pub fn new(symbol: String) -> (r: Self)
        ensures
            r.wf(),
            r.symbol == symbol,
            r.prices@ == Seq::<u64>::empty(),
            r.timestamps@ == Seq::<i64>::empty(),
    {
        PriceHistory { symbol, prices: Vec::new(), timestamps: Vec::new() }
    }

    /// Appends one observation, evicting the oldest beyond `CAPACITY`.
    pub fn add_price(&mut self, price: u64, timestamp: i64)
        requires
            old(self).wf(),
        ensures
            final(self).wf(),
            final(self).symbol == old(self).symbol,
            final(self).prices@ == window_push(old(self).prices@, price),
            final(self).timestamps@ == window_push(old(self).timestamps@, timestamp),
    {
        self.prices.push(price);
        self.timestamps.push(timestamp);
        if self.prices.len() > CAPACITY {
            self.prices.remove(0);
            self.timestamps.remove(0);
        }
        assert(self.prices@ =~= window_push(old(self).prices@, price));
        assert(self.timestamps@ =~= window_push(old(self).timestamps@, timestamp));
    }

    /// The RSI over the last `period` price changes, in millionths of a
    /// point; `None` while the series holds `period` prices or fewer.
    pub fn calculate_rsi(&self, period: usize) -> (r: Option<u64>)
        requires
            self.wf(),
            period > 0,
        ensures
            r.is_some() == (self.prices@.len() >= period + 1),
            r matches Some(v) ==> rsi_of(self.prices@, period as nat) == Some(v as int),
            r matches Some(v) ==> v <= RSI_MAX,
    {
        let n = self.prices.len();
        if n <= period {
            return None;
        }
        let start: usize = n - period;
        let mut gain: u128 = 0;
        let mut loss: u128 = 0;
        let mut i: usize = start;
        while i < n
            invariant
                start <= i <= n,
                n == self.prices@.len(),
                start == n - period,
                start >= 1,
                n <= CAPACITY,
                gain == gain_sum(self.prices@, start as int, i as int),
                loss == loss_sum(self.prices@, start as int, i as int),
                gain + loss <= (i - start) * (u64::MAX as int),
            decreases n - i,
        {
            let cur = self.prices[i];
            let prev = self.prices[i - 1];
            if cur > prev {
                gain = gain + (cur - prev) as u128;
            } else {
                loss = loss + (prev - cur) as u128;
            }
            proof {
                assert((i + 1 - start) * (u64::MAX as int) == (i - start) * (u64::MAX as int)
                    + u64::MAX) by (nonlinear_arith);
            }
            i = i + 1;
        }
        let v = rsi_value(gain, loss);
        Some(v)
    }
}

/// `rsi_from_sums` on sums that fit the window.
fn rsi_value(gain: u128, loss: u128) -> (r: u64)
    requires
        gain + loss <= CAPACITY * (u64::MAX as int),
    ensures
        r == rsi_from_sums(gain as int, loss as int),
        r <= RSI_MAX,
{
    if loss == 0 {
        return RSI_MAX;
    }
    let total: u128 = gain + loss;
    proof {
        assert(RSI_MAX as int * gain <= RSI_MAX as int * (CAPACITY * (u64::MAX as int)))
            by (nonlinear_arith)
            requires gain <= CAPACITY * (u64::MAX as int);
        lemma_scaled_ratio_le(gain as int, total as int);
    }
    let q: u128 = (RSI_MAX as u128 * gain) / total;
    q as u64
}

/// `RSI_MAX * g / t` is at most `RSI_MAX` when `g <= t`.
proof fn lemma_scaled_ratio_le(g: int, t: int)
    requires
        0 <= g <= t,
        t > 0,
    ensures
        0 <= (RSI_MAX as int * g) / t <= RSI_MAX as int,
{
    assert(RSI_MAX as int * g <= RSI_MAX as int * t) by (nonlinear_arith)
        requires 0 <= g <= t;
    vstd::arithmetic::div_mod::lemma_div_is_ordered(RSI_MAX as int * g, RSI_MAX as int * t, t);
    vstd::arithmetic::div_mod::lemma_div_multiples_vanish(RSI_MAX as int, t);
    vstd::arithmetic::div_mod::lemma_div_pos_is_pos(RSI_MAX as int * g, t);
}

/// Appending observations one at a time to an empty window leaves exactly
/// the most recent `CAPACITY` of them, oldest first.
pub proof fn lemma_window_keeps_latest<T>(obs: Seq<T>)
    ensures
        window_of(obs).len() <= CAPACITY,
        obs.len() <= CAPACITY ==> window_of(obs) == obs,
        obs.len() > CAPACITY ==> window_of(obs) == obs.subrange(
            obs.len() - CAPACITY,
            obs.len() as int,
        ),
    decreases obs.len(),
{
    if obs.len() > 0 {
        let init = obs.drop_last();
        lemma_window_keeps_latest(init);
        if init.len() + 1 > CAPACITY {
            assert(window_of(obs) =~= obs.subrange(obs.len() - CAPACITY, obs.len() as int));
        } else {
            assert(window_of(obs) =~= obs);
        }
    } else {
        assert(window_of(obs) =~= obs);
    }
}

proof fn lemma_sums_nonneg(p: Seq<u64>, lo: int, hi: int)
    ensures
        gain_sum(p, lo, hi) >= 0,
        loss_sum(p, lo, hi) >= 0,
    decreases hi - lo,
{
    if hi > lo {
        lemma_sums_nonneg(p, lo, hi - 1);
    }
}

/// A defined RSI lies in `[0, 100]`.
pub proof fn lemma_rsi_in_range(p: Seq<u64>, period: nat)
    requires
        period > 0,
        rsi_of(p, period) is Some,
    ensures
        0 <= rsi_of(p, period).unwrap() <= RSI_MAX,
{
    let lo = p.len() - period;
    let hi = p.len() as int;
    lemma_sums_nonneg(p, lo, hi);
    let g = gain_sum(p, lo, hi);
    let l = loss_sum(p, lo, hi);
    if l != 0 {
        lemma_scaled_ratio_le(g, g + l);
    }
}

proof fn lemma_no_loss(p: Seq<u64>, lo: int, hi: int)
    requires
        1 <= lo,
        hi <= p.len(),
        forall|i: int| lo <= i < hi ==> #[trigger] p[i] >= p[i - 1],
    ensures
        loss_sum(p, lo, hi) == 0,
    decreases hi - lo,
{
    if hi > lo {
        lemma_no_loss(p, lo, hi - 1);
    }
}

proof fn lemma_falls_only(p: Seq<u64>, lo: int, hi: int)
    requires
        1 <= lo <= hi,
        hi <= p.len(),
        forall|i: int| lo <= i < hi ==> #[trigger] p[i] <= p[i - 1],
    ensures
        gain_sum(p, lo, hi) == 0,
        loss_sum(p, lo, hi) == p[lo - 1] - p[hi - 1],
    decreases hi - lo,
{
    if hi > lo {
        lemma_falls_only(p, lo, hi - 1);
    }
}

/// When none of the last `period` changes is a fall, there is no loss and
/// the RSI is `100`.
pub proof fn lemma_rising_window_is_max(p: Seq<u64>, period: nat)
    requires
        period > 0,
        p.len() >= period + 1,
        non_decreasing_tail(p, period),
    ensures
        loss_sum(p, p.len() - period, p.len() as int) == 0,
        rsi_of(p, period) == Some(RSI_MAX as int),
{
    lemma_no_loss(p, p.len() - period, p.len() as int);
}

/// When none of the last `period` changes is a rise and the window ends
/// lower than it began, there is no gain and the RSI is `0`. A window with
/// no change at all has no loss either, and its RSI is `100`.
pub proof fn lemma_falling_window_is_min(p: Seq<u64>, period: nat)
    requires
        period > 0,
        p.len() >= period + 1,
        non_increasing_tail(p, period),
        p.last() < p[p.len() - period - 1],
    ensures
        gain_sum(p, p.len() - period, p.len() as int) == 0,
        rsi_of(p, period) == Some(0int),
{
    let lo = p.len() - period;
    let hi = p.len() as int;
    lemma_falls_only(p, lo, hi);
    let l = loss_sum(p, lo, hi);
    assert((RSI_MAX as int * 0) / l == 0);
}

} // verus!
