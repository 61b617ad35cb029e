//! Threshold configuration for the detectors and the confluence aggregator.

use vstd::prelude::*;
use crate::fixed::SCALE;

verus! {

/// Thresholds for the nine single-indicator detectors, fixed-point scaled.
#[derive(Clone, Copy)]
pub struct SignalConfig {
    pub rsi_overbought: i64,
    pub rsi_oversold: i64,
    pub adx_strong_trend: i64,
    pub adx_weak_trend: i64,
    pub stoch_overbought: i64,
    pub stoch_oversold: i64,
    pub willr_overbought: i64,
    pub willr_oversold: i64,
    pub cci_overbought: i64,
    pub cci_oversold: i64,
    pub mfi_overbought: i64,
    pub mfi_oversold: i64,
}

/// The documented default thresholds.
pub open spec fn default_signal_config() -> SignalConfig {
    SignalConfig {
        rsi_overbought: (70 * SCALE) as i64,
        rsi_oversold: (30 * SCALE) as i64,
        adx_strong_trend: (25 * SCALE) as i64,
        adx_weak_trend: (20 * SCALE) as i64,
        stoch_overbought: (80 * SCALE) as i64,
        stoch_oversold: (20 * SCALE) as i64,
        willr_overbought: (-20 * SCALE) as i64,
        willr_oversold: (-80 * SCALE) as i64,
        cci_overbought: (100 * SCALE) as i64,
        cci_oversold: (-100 * SCALE) as i64,
        mfi_overbought: (80 * SCALE) as i64,
        mfi_oversold: (20 * SCALE) as i64,
    }
}

impl Default for SignalConfig {
    fn default() -> (c: Self)
        ensures
            c == default_signal_config(),
    {
        SignalConfig {
            rsi_overbought: 70 * SCALE,
            rsi_oversold: 30 * SCALE,
            adx_strong_trend: 25 * SCALE,
            adx_weak_trend: 20 * SCALE,
            stoch_overbought: 80 * SCALE,
            stoch_oversold: 20 * SCALE,
            willr_overbought: -20 * SCALE,
            willr_oversold: -80 * SCALE,
            cci_overbought: 100 * SCALE,
            cci_oversold: -100 * SCALE,
            mfi_overbought: 80 * SCALE,
            mfi_oversold: 20 * SCALE,
        }
    }
}

/// Thresholds for the confluence aggregator, configured separately from the
/// single-indicator detectors.
#[derive(Clone, Copy)]
pub struct ConfluenceConfig {
    pub rsi_overbought: i64,
    pub rsi_oversold: i64,
    pub stoch_overbought: i64,
    pub stoch_oversold: i64,
    pub cci_overbought: i64,
    pub cci_oversold: i64,
    pub adx_strong_trend: i64,
    /// How many sources must agree before a confluence event is emitted.
    pub min_agreeing_indicators: usize,
}

impl ConfluenceConfig {
    /// A usable configuration demands agreement of at least one source;
    /// a zero minimum would make an average over an empty vote set.
    pub open spec fn wf(self) -> bool {
        self.min_agreeing_indicators >= 1
    }
}

/// The documented default confluence thresholds.
pub open spec fn default_confluence_config() -> ConfluenceConfig {
    ConfluenceConfig {
        rsi_overbought: (70 * SCALE) as i64,
        rsi_oversold: (30 * SCALE) as i64,
        stoch_overbought: (80 * SCALE) as i64,
        stoch_oversold: (20 * SCALE) as i64,
        cci_overbought: (100 * SCALE) as i64,
        cci_oversold: (-100 * SCALE) as i64,
        adx_strong_trend: (25 * SCALE) as i64,
        min_agreeing_indicators: 3,
    }
}

impl Default for ConfluenceConfig {
    fn default() -> (c: Self)
        ensures
            c == default_confluence_config(),
            c.wf(),
    {
        ConfluenceConfig {
            rsi_overbought: 70 * SCALE,
            rsi_oversold: 30 * SCALE,
            stoch_overbought: 80 * SCALE,
            stoch_oversold: 20 * SCALE,
            cci_overbought: 100 * SCALE,
            cci_oversold: -100 * SCALE,
            adx_strong_trend: 25 * SCALE,
            min_agreeing_indicators: 3,
        }
    }
}

} // verus!
