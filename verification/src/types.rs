//! The records the engine consumes and emits.
//!
//! Every floating-point quantity of the surrounding application is carried
//! here as a fixed-point `i64` (the real value times [`crate::fixed::SCALE`]).

use vstd::prelude::*;
use crate::date::Date;

verus! {

/// One daily price bar for a symbol.
#[derive(Clone)]
pub struct DailyPrice {
    pub date: Date,
    pub open: i64,
    pub high: i64,
    pub low: i64,
    pub close: i64,
    pub volume: i64,
}

/// One precomputed indicator value: a (date, name, value) triple.
#[derive(Clone)]
pub struct TechnicalIndicator {
    pub date: Date,
    pub indicator_name: String,
    pub value: i64,
}

/// The closed set of events a detector can emit.
#[derive(Clone, Copy, PartialEq, Eq, Structural, Debug)]
pub enum SignalType {
    RsiOverbought,
    RsiOversold,
    MacdBullishCross,
    MacdBearishCross,
    BollingerUpperBreak,
    BollingerLowerBreak,
    MaCrossoverBullish,
    MaCrossoverBearish,
    AdxTrendStrong,
    AdxTrendWeak,
    StochBullishCross,
    StochBearishCross,
    WillrOverbought,
    WillrOversold,
    CciOverbought,
    CciOversold,
    MfiOverbought,
    MfiOversold,
}

/// The direction a signal or a vote points in.
#[derive(Clone, Copy, PartialEq, Eq, Structural, Debug)]
pub enum SignalDirection {
    Bullish,
    Bearish,
    Neutral,
}

/// A discrete signal event.
///
/// The engine always emits `id == 0` and an empty `created_at`: identity and
/// timestamp belong to the persistence collaborator.
pub struct Signal {
    pub id: i64,
    pub symbol: String,
    pub signal_type: SignalType,
    pub direction: SignalDirection,
    /// In `[0, SCALE]`.
    pub strength: i64,
    pub price_at_signal: i64,
    pub triggered_by: String,
    pub trigger_value: i64,
    pub timestamp: Date,
    pub created_at: String,
    pub acknowledged: bool,
}

/// The mathematical value of a [`Signal`].
pub ghost struct SignalV {
    pub id: int,
    pub symbol: Seq<char>,
    pub signal_type: SignalType,
    pub direction: SignalDirection,
    pub strength: int,
    pub price_at_signal: int,
    pub triggered_by: Seq<char>,
    pub trigger_value: int,
    pub timestamp: Date,
    pub created_at: Seq<char>,
    pub acknowledged: bool,
}

impl View for Signal {
    type V = SignalV;

    open spec fn view(&self) -> SignalV {
        SignalV {
            id: self.id as int,
            symbol: self.symbol@,
            signal_type: self.signal_type,
            direction: self.direction,
            strength: self.strength as int,
            price_at_signal: self.price_at_signal as int,
            triggered_by: self.triggered_by@,
            trigger_value: self.trigger_value as int,
            timestamp: self.timestamp,
            created_at: self.created_at@,
            acknowledged: self.acknowledged,
        }
    }
}

/// The mathematical value of a signal list.
pub open spec fn signals_view(s: Seq<Signal>) -> Seq<SignalV> {
    s.map_values(|x: Signal| x@)
}

/// One directional vote cast by a confluence source.
pub struct IndicatorVote {
    pub indicator_name: String,
    pub direction: SignalDirection,
    /// In `[0, SCALE]`.
    pub strength: i64,
    pub value: i64,
}

/// The mathematical value of an [`IndicatorVote`].
pub ghost struct IndicatorVoteV {
    pub indicator_name: Seq<char>,
    pub direction: SignalDirection,
    pub strength: int,
    pub value: int,
}

impl View for IndicatorVote {
    type V = IndicatorVoteV;

    open spec fn view(&self) -> IndicatorVoteV {
        IndicatorVoteV {
            indicator_name: self.indicator_name@,
            direction: self.direction,
            strength: self.strength as int,
            value: self.value as int,
        }
    }
}

/// The mathematical value of a vote list.
pub open spec fn votes_view(s: Seq<IndicatorVote>) -> Seq<IndicatorVoteV> {
    s.map_values(|x: IndicatorVote| x@)
}

/// An aggregate event emitted when enough confluence sources agree.
///
/// As with [`Signal`], `id == 0` and `created_at` empty until persisted.
pub struct ConfluenceSignal {
    pub id: i64,
    pub symbol: String,
    pub date: Date,
    pub direction: SignalDirection,
    /// In `[0, SCALE]`.
    pub strength: i64,
    pub contributing_indicators: Vec<IndicatorVote>,
    pub bullish_count: usize,
    pub bearish_count: usize,
    /// The raw ADX value, when it exceeded the strong-trend threshold.
    pub adx_confidence: Option<i64>,
    pub price_at_signal: i64,
    pub created_at: String,
}

/// The mathematical value of a [`ConfluenceSignal`].
pub ghost struct ConfluenceSignalV {
    pub id: int,
    pub symbol: Seq<char>,
    pub date: Date,
    pub direction: SignalDirection,
    pub strength: int,
    pub contributing_indicators: Seq<IndicatorVoteV>,
    pub bullish_count: int,
    pub bearish_count: int,
    pub adx_confidence: Option<int>,
    pub price_at_signal: int,
    pub created_at: Seq<char>,
}

impl View for ConfluenceSignal {
    type V = ConfluenceSignalV;

    open spec fn view(&self) -> ConfluenceSignalV {
        ConfluenceSignalV {
            id: self.id as int,
            symbol: self.symbol@,
            date: self.date,
            direction: self.direction,
            strength: self.strength as int,
            contributing_indicators: votes_view(self.contributing_indicators@),
            bullish_count: self.bullish_count as int,
            bearish_count: self.bearish_count as int,
            adx_confidence: match self.adx_confidence {
                Option::Some(a) => Option::Some(a as int),
                Option::None => Option::None,
            },
            price_at_signal: self.price_at_signal as int,
            created_at: self.created_at@,
        }
    }
}

/// The mathematical value of a confluence event list.
pub open spec fn confs_view(s: Seq<ConfluenceSignal>) -> Seq<ConfluenceSignalV> {
    s.map_values(|x: ConfluenceSignal| x@)
}

} // verus!
