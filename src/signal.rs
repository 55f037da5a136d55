use vstd::prelude::*;

verus! {

/// Millionths of an RSI point per whole point.
pub const RSI_SCALE: u64 = 1_000_000;

/// The largest RSI value, `100.0`, in millionths of a point.
pub const RSI_MAX: u64 = 100_000_000;

/// The lowest value classified as overbought, `70.0`.
pub const OVERBOUGHT_AT: u64 = 70_000_000;

/// The highest value classified as oversold, `30.0`.
pub const OVERSOLD_AT: u64 = 30_000_000;

/// Qualitative reading of an RSI value.
#[derive(Debug, Clone, Copy, PartialEq, Eq, Structural)]
pub enum RsiSignal {
    Overbought,
    Oversold,
    Neutral,
}

/// The signal of `value`: the boundaries belong to the extreme readings.
pub open spec fn classify_spec(value: u64) -> RsiSignal {
    if value >= OVERBOUGHT_AT {
        RsiSignal::Overbought
    } else if value <= OVERSOLD_AT {
        RsiSignal::Oversold
    } else {
        RsiSignal::Neutral
    }
}

/// Classifies an RSI value given in millionths of a point.
pub fn classify(value: u64) -> (r: RsiSignal)
    ensures
        r == classify_spec(value),
{
    if value >= OVERBOUGHT_AT {
        RsiSignal::Overbought
    } else if value <= OVERSOLD_AT {
        RsiSignal::Oversold
    } else {
        RsiSignal::Neutral
    }
}

} // verus!
