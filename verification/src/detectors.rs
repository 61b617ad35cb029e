//! The nine per-indicator crossing detectors.
//!
//! Each detector is a pure function of today's named values, optionally
//! yesterday's, and today's closing price.  A missing required value is an
//! abstention, never an error.  For the single-value detectors the crossing
//! test treats an absent previous day as "was not beyond the threshold", so
//! the very first observed extreme still fires.

use vstd::prelude::*;
use crate::date::Date;
use crate::fixed::{ratio_strength, scaled_ratio, widen_mul, SCALE};
use crate::types::{Signal, SignalDirection, SignalType, SignalV};
use crate::values::{map_get, DayValues};
use crate::engine::SignalEngine;

verus! {

/// A well-formed optional previous day.
pub open spec fn opt_wf(prev: Option<&DayValues>) -> bool {
    match prev {
        Option::Some(p) => p.wf(),
        Option::None => true,
    }
}

/// The mathematical value of an optional previous day.
pub open spec fn opt_view(prev: Option<&DayValues>) -> Option<Map<Seq<char>, i64>> {
    match prev {
        Option::Some(p) => Option::Some(p@),
        Option::None => Option::None,
    }
}

/// The mathematical value of an optional signal.
pub open spec fn opt_sig_view(r: Option<Signal>) -> Option<SignalV> {
    match r {
        Option::Some(s) => Option::Some(s@),
        Option::None => Option::None,
    }
}

/// Yesterday's value under a name, when yesterday exists and recorded one.
pub open spec fn prev_get(prev: Option<Map<Seq<char>, i64>>, k: Seq<char>) -> Option<i64> {
    match prev {
        Option::Some(m) => map_get(m, k),
        Option::None => Option::None,
    }
}

/// Absent, or at most the threshold: "was not above it yesterday".
pub open spec fn none_or_le(o: Option<i64>, t: i64) -> bool {
    match o {
        Option::Some(v) => v <= t,
        Option::None => true,
    }
}

/// Absent, or at least the threshold: "was not below it yesterday".
pub open spec fn none_or_ge(o: Option<i64>, t: i64) -> bool {
    match o {
        Option::Some(v) => v >= t,
        Option::None => true,
    }
}

/// A freshly detected signal: identity and creation timestamp are left for
/// the persistence collaborator.
pub open spec fn make_signal(
    sym: Seq<char>,
    st: SignalType,
    dir: SignalDirection,
    strength: int,
    price: i64,
    trig: Seq<char>,
    tv: i64,
    date: Date,
) -> SignalV {
    SignalV {
        id: 0,
        symbol: sym,
        signal_type: st,
        direction: dir,
        strength: strength,
        price_at_signal: price as int,
        triggered_by: trig,
        trigger_value: tv as int,
        timestamp: date,
        created_at: Seq::empty(),
        acknowledged: false,
    }
}

/// The shared shape of the five single-value detectors (RSI, ADX,
/// Williams %R, CCI, MFI): fire on crossing above the upper threshold or
/// below the lower one, where an absent previous value counts as not beyond.
pub open spec fn spec_single_cross(
    sym: Seq<char>,
    date: Date,
    price: i64,
    today: Map<Seq<char>, i64>,
    prev: Option<Map<Seq<char>, i64>>,
    key: Seq<char>,
    over_threshold: i64,
    over_div: i64,
    over_type: SignalType,
    over_dir: SignalDirection,
    under_threshold: i64,
    under_div: i64,
    under_type: SignalType,
    under_dir: SignalDirection,
) -> Option<SignalV> {
    match map_get(today, key) {
        Option::None => Option::None,
        Option::Some(v) => {
            let prev_v = prev_get(prev, key);
            if v > over_threshold {
                if none_or_le(prev_v, over_threshold) {
                    Option::Some(
                        make_signal(
                            sym,
                            over_type,
                            over_dir,
                            scaled_ratio(v - over_threshold, over_div as int),
                            price,
                            key,
                            v,
                            date,
                        ),
                    )
                } else {
                    Option::None
                }
            } else if v < under_threshold {
                if none_or_ge(prev_v, under_threshold) {
                    Option::Some(
                        make_signal(
                            sym,
                            under_type,
                            under_dir,
                            scaled_ratio(under_threshold - v, under_div as int),
                            price,
                            key,
                            v,
                            date,
                        ),
                    )
                } else {
                    Option::None
                }
            } else {
                Option::None
            }
        },
    }
}

/// Runs one single-value crossing detector.
fn detect_single_cross(
    symbol: &str,
    date: Date,
    price: i64,
    today: &DayValues,
    prev: Option<&DayValues>,
    key: String,
    over_threshold: i64,
    over_div: i64,
    over_type: SignalType,
    over_dir: SignalDirection,
    under_threshold: i64,
    under_div: i64,
    under_type: SignalType,
    under_dir: SignalDirection,
) -> (r: Option<Signal>)
    requires
        today.wf(),
        opt_wf(prev),
        over_div > 0,
        under_div > 0,
    ensures
        opt_sig_view(r) == spec_single_cross(
            symbol@,
            date,
            price,
            today@,
            opt_view(prev),
            key@,
            over_threshold,
            over_div,
            over_type,
            over_dir,
            under_threshold,
            under_div,
            under_type,
            under_dir,
        ),
{
    let v = match today.get(&key) {
        Option::Some(v) => v,
        Option::None => {
            return Option::None;
        },
    };
    let prev_v: Option<i64> = match prev {
        Option::Some(p) => p.get(&key),
        Option::None => Option::None,
    };
    if v > over_threshold {
        let crossed = match prev_v {
            Option::Some(pv) => pv <= over_threshold,
            Option::None => true,
        };
        if crossed {
            let strength = ratio_strength(
                v as i128 - over_threshold as i128,
                over_div as i128,
            );
            return Option::Some(
                Signal {
                    id: 0,
                    symbol: symbol.to_owned(),
                    signal_type: over_type,
                    direction: over_dir,
                    strength,
                    price_at_signal: price,
                    triggered_by: key,
                    trigger_value: v,
                    timestamp: date,
                    created_at: String::new(),
                    acknowledged: false,
                },
            );
        }
    } else if v < under_threshold {
        let crossed = match prev_v {
            Option::Some(pv) => pv >= under_threshold,
            Option::None => true,
        };
        if crossed {
            let strength = ratio_strength(
                under_threshold as i128 - v as i128,
                under_div as i128,
            );
            return Option::Some(
                Signal {
                    id: 0,
                    symbol: symbol.to_owned(),
                    signal_type: under_type,
                    direction: under_dir,
                    strength,
                    price_at_signal: price,
                    triggered_by: key,
                    trigger_value: v,
                    timestamp: date,
                    created_at: String::new(),
                    acknowledged: false,
                },
            );
        }
    }
    Option::None
}

/// What the RSI detector returns.
pub open spec fn spec_rsi_signal(
    cfg: crate::config::SignalConfig,
    sym: Seq<char>,
    date: Date,
    price: i64,
    today: Map<Seq<char>, i64>,
    prev: Option<Map<Seq<char>, i64>>,
) -> Option<SignalV> {
    spec_single_cross(
        sym,
        date,
        price,
        today,
        prev,
        "RSI_14"@,
        cfg.rsi_overbought,
        30,
        SignalType::RsiOverbought,
        SignalDirection::Bearish,
        cfg.rsi_oversold,
        30,
        SignalType::RsiOversold,
        SignalDirection::Bullish,
    )
}

/// What the ADX detector returns.
pub open spec fn spec_adx_signal(
    cfg: crate::config::SignalConfig,
    sym: Seq<char>,
    date: Date,
    price: i64,
    today: Map<Seq<char>, i64>,
    prev: Option<Map<Seq<char>, i64>>,
) -> Option<SignalV> {
    spec_single_cross(
        sym,
        date,
        price,
        today,
        prev,
        "ADX_14"@,
        cfg.adx_strong_trend,
        25,
        SignalType::AdxTrendStrong,
        SignalDirection::Neutral,
        cfg.adx_weak_trend,
        20,
        SignalType::AdxTrendWeak,
        SignalDirection::Neutral,
    )
}

/// What the Williams %R detector returns.
pub open spec fn spec_willr_signal(
    cfg: crate::config::SignalConfig,
    sym: Seq<char>,
    date: Date,
    price: i64,
    today: Map<Seq<char>, i64>,
    prev: Option<Map<Seq<char>, i64>>,
) -> Option<SignalV> {
    spec_single_cross(
        sym,
        date,
        price,
        today,
        prev,
        "WILLR_14"@,
        cfg.willr_overbought,
        20,
        SignalType::WillrOverbought,
        SignalDirection::Bearish,
        cfg.willr_oversold,
        20,
        SignalType::WillrOversold,
        SignalDirection::Bullish,
    )
}

/// What the CCI detector returns.
pub open spec fn spec_cci_signal(
    cfg: crate::config::SignalConfig,
    sym: Seq<char>,
    date: Date,
    price: i64,
    today: Map<Seq<char>, i64>,
    prev: Option<Map<Seq<char>, i64>>,
) -> Option<SignalV> {
    spec_single_cross(
        sym,
        date,
        price,
        today,
        prev,
        "CCI_20"@,
        cfg.cci_overbought,
        100,
        SignalType::CciOverbought,
        SignalDirection::Bearish,
        cfg.cci_oversold,
        100,
        SignalType::CciOversold,
        SignalDirection::Bullish,
    )
}

/// What the MFI detector returns.
pub open spec fn spec_mfi_signal(
    cfg: crate::config::SignalConfig,
    sym: Seq<char>,
    date: Date,
    price: i64,
    today: Map<Seq<char>, i64>,
    prev: Option<Map<Seq<char>, i64>>,
) -> Option<SignalV> {
    spec_single_cross(
        sym,
        date,
        price,
        today,
        prev,
        "MFI_14"@,
        cfg.mfi_overbought,
        20,
        SignalType::MfiOverbought,
        SignalDirection::Bearish,
        cfg.mfi_oversold,
        20,
        SignalType::MfiOversold,
        SignalDirection::Bullish,
    )
}

/// What the MACD crossover detector returns: the line crossing its signal
/// line, strength scaled by the closing price.
pub open spec fn spec_macd_signal(
    sym: Seq<char>,
    date: Date,
    price: i64,
    today: Map<Seq<char>, i64>,
    prev: Option<Map<Seq<char>, i64>>,
) -> Option<SignalV> {
    match (map_get(today, "MACD_12_26"@), map_get(today, "MACD_SIGNAL_9"@), prev_get(
        prev,
        "MACD_12_26"@,
    ), prev_get(prev, "MACD_SIGNAL_9"@)) {
        (
            Option::Some(macd),
            Option::Some(signal),
            Option::Some(prev_macd),
            Option::Some(prev_signal),
        ) => {
            let strength = scaled_ratio(
                vstd::math::abs(macd - signal) * 100 * SCALE,
                vstd::math::max(price as int, SCALE as int),
            );
            if prev_macd <= prev_signal && macd > signal {
                Option::Some(
                    make_signal(
                        sym,
                        SignalType::MacdBullishCross,
                        SignalDirection::Bullish,
                        strength,
                        price,
                        "MACD"@,
                        macd,
                        date,
                    ),
                )
            } else if prev_macd >= prev_signal && macd < signal {
                Option::Some(
                    make_signal(
                        sym,
                        SignalType::MacdBearishCross,
                        SignalDirection::Bearish,
                        strength,
                        price,
                        "MACD"@,
                        macd,
                        date,
                    ),
                )
            } else {
                Option::None
            }
        },
        _ => Option::None,
    }
}

/// What the Bollinger detector returns: a level test of the closing price
/// against the bands, no previous-day comparison.
pub open spec fn spec_bollinger_signal(
    sym: Seq<char>,
    date: Date,
    price: i64,
    today: Map<Seq<char>, i64>,
) -> Option<SignalV> {
    match (map_get(today, "BB_UPPER_20"@), map_get(today, "BB_LOWER_20"@), map_get(
        today,
        "BB_MIDDLE_20"@,
    )) {
        (Option::Some(upper), Option::Some(lower), Option::Some(middle)) => {
            if price > upper {
                Option::Some(
                    make_signal(
                        sym,
                        SignalType::BollingerUpperBreak,
                        SignalDirection::Bearish,
                        scaled_ratio(
                            (price - upper) * SCALE,
                            vstd::math::max(upper - middle, 100),
                        ),
                        price,
                        "BB_UPPER_20"@,
                        upper,
                        date,
                    ),
                )
            } else if price < lower {
                Option::Some(
                    make_signal(
                        sym,
                        SignalType::BollingerLowerBreak,
                        SignalDirection::Bullish,
                        scaled_ratio(
                            (lower - price) * SCALE,
                            vstd::math::max(middle - lower, 100),
                        ),
                        price,
                        "BB_LOWER_20"@,
                        lower,
                        date,
                    ),
                )
            } else {
                Option::None
            }
        },
        _ => Option::None,
    }
}

/// What the moving-average crossover detector returns: the fast average
/// crossing the slow one.  The strength formula is the raw percentage gap
/// and routinely saturates at the clamp.
pub open spec fn spec_ma_crossover_signal(
    sym: Seq<char>,
    date: Date,
    price: i64,
    today: Map<Seq<char>, i64>,
    prev: Option<Map<Seq<char>, i64>>,
) -> Option<SignalV> {
    match (map_get(today, "SMA_20"@), map_get(today, "SMA_50"@), prev_get(prev, "SMA_20"@),
    prev_get(prev, "SMA_50"@)) {
        (
            Option::Some(fast),
            Option::Some(slow),
            Option::Some(prev_fast),
            Option::Some(prev_slow),
        ) => {
            if prev_fast <= prev_slow && fast > slow {
                Option::Some(
                    make_signal(
                        sym,
                        SignalType::MaCrossoverBullish,
                        SignalDirection::Bullish,
                        scaled_ratio((fast - slow) * 100 * SCALE, slow as int),
                        price,
                        "SMA_20/50"@,
                        fast,
                        date,
                    ),
                )
            } else if prev_fast >= prev_slow && fast < slow {
                Option::Some(
                    make_signal(
                        sym,
                        SignalType::MaCrossoverBearish,
                        SignalDirection::Bearish,
                        scaled_ratio((slow - fast) * 100 * SCALE, slow as int),
                        price,
                        "SMA_20/50"@,
                        fast,
                        date,
                    ),
                )
            } else {
                Option::None
            }
        },
        _ => Option::None,
    }
}

/// What the stochastic detector returns: %K crossing %D inside the
/// near-oversold or near-overbought band.
pub open spec fn spec_stochastic_signal(
    cfg: crate::config::SignalConfig,
    sym: Seq<char>,
    date: Date,
    price: i64,
    today: Map<Seq<char>, i64>,
    prev: Option<Map<Seq<char>, i64>>,
) -> Option<SignalV> {
    match (map_get(today, "STOCH_K_14"@), map_get(today, "STOCH_D_3"@), prev_get(
        prev,
        "STOCH_K_14"@,
    ), prev_get(prev, "STOCH_D_3"@)) {
        (Option::Some(k), Option::Some(d), Option::Some(prev_k), Option::Some(prev_d)) => {
            if prev_k <= prev_d && k > d && k < cfg.stoch_oversold + 20 * SCALE {
                Option::Some(
                    make_signal(
                        sym,
                        SignalType::StochBullishCross,
                        SignalDirection::Bullish,
                        scaled_ratio(vstd::math::abs(d - k) as int, 20),
                        price,
                        "STOCH"@,
                        k,
                        date,
                    ),
                )
            } else if prev_k >= prev_d && k < d && k > cfg.stoch_overbought - 20 * SCALE {
                Option::Some(
                    make_signal(
                        sym,
                        SignalType::StochBearishCross,
                        SignalDirection::Bearish,
                        scaled_ratio(vstd::math::abs(k - d) as int, 20),
                        price,
                        "STOCH"@,
                        k,
                        date,
                    ),
                )
            } else {
                Option::None
            }
        },
        _ => Option::None,
    }
}

impl SignalEngine {
    /// Detects an RSI overbought or oversold crossing.
    pub fn detect_rsi_signal(
        &self,
        symbol: &str,
        date: Date,
        price: i64,
        today: &DayValues,
        prev: Option<&DayValues>,
    ) -> (r: Option<Signal>)
        requires
            today.wf(),
            opt_wf(prev),
        ensures
            opt_sig_view(r) == spec_rsi_signal(
                self.config,
                symbol@,
                date,
                price,
                today@,
                opt_view(prev),
            ),
    {
        detect_single_cross(
            symbol,
            date,
            price,
            today,
            prev,
            ("RSI_14").to_owned(),
            self.config.rsi_overbought,
            30,
            SignalType::RsiOverbought,
            SignalDirection::Bearish,
            self.config.rsi_oversold,
            30,
            SignalType::RsiOversold,
            SignalDirection::Bullish,
        )
    }

    /// Detects an ADX trend-strength crossing; ADX carries no direction.
    pub fn detect_adx_signal(
        &self,
        symbol: &str,
        date: Date,
        price: i64,
        today: &DayValues,
        prev: Option<&DayValues>,
    ) -> (r: Option<Signal>)
        requires
            today.wf(),
            opt_wf(prev),
        ensures
            opt_sig_view(r) == spec_adx_signal(
                self.config,
                symbol@,
                date,
                price,
                today@,
                opt_view(prev),
            ),
    {
        detect_single_cross(
            symbol,
            date,
            price,
            today,
            prev,
            ("ADX_14").to_owned(),
            self.config.adx_strong_trend,
            25,
            SignalType::AdxTrendStrong,
            SignalDirection::Neutral,
            self.config.adx_weak_trend,
            20,
            SignalType::AdxTrendWeak,
            SignalDirection::Neutral,
        )
    }

    /// Detects a Williams %R overbought or oversold crossing.
    pub fn detect_willr_signal(
        &self,
        symbol: &str,
        date: Date,
        price: i64,
        today: &DayValues,
        prev: Option<&DayValues>,
    ) -> (r: Option<Signal>)
        requires
            today.wf(),
            opt_wf(prev),
        ensures
            opt_sig_view(r) == spec_willr_signal(
                self.config,
                symbol@,
                date,
                price,
                today@,
                opt_view(prev),
            ),
    {
        detect_single_cross(
            symbol,
            date,
            price,
            today,
            prev,
            ("WILLR_14").to_owned(),
            self.config.willr_overbought,
            20,
            SignalType::WillrOverbought,
            SignalDirection::Bearish,
            self.config.willr_oversold,
            20,
            SignalType::WillrOversold,
            SignalDirection::Bullish,
        )
    }

    /// Detects a CCI overbought or oversold crossing.
    pub fn detect_cci_signal(
        &self,
        symbol: &str,
        date: Date,
        price: i64,
        today: &DayValues,
        prev: Option<&DayValues>,
    ) -> (r: Option<Signal>)
        requires
            today.wf(),
            opt_wf(prev),
        ensures
            opt_sig_view(r) == spec_cci_signal(
                self.config,
                symbol@,
                date,
                price,
                today@,
                opt_view(prev),
            ),
    {
        detect_single_cross(
            symbol,
            date,
            price,
            today,
            prev,
            ("CCI_20").to_owned(),
            self.config.cci_overbought,
            100,
            SignalType::CciOverbought,
            SignalDirection::Bearish,
            self.config.cci_oversold,
            100,
            SignalType::CciOversold,
            SignalDirection::Bullish,
        )
    }

    /// Detects an MFI overbought or oversold crossing.
    pub fn detect_mfi_signal(
        &self,
        symbol: &str,
        date: Date,
        price: i64,
        today: &DayValues,
        prev: Option<&DayValues>,
    ) -> (r: Option<Signal>)
        requires
            today.wf(),
            opt_wf(prev),
        ensures
            opt_sig_view(r) == spec_mfi_signal(
                self.config,
                symbol@,
                date,
                price,
                today@,
                opt_view(prev),
            ),
    {
        detect_single_cross(
            symbol,
            date,
            price,
            today,
            prev,
            ("MFI_14").to_owned(),
            self.config.mfi_overbought,
            20,
            SignalType::MfiOverbought,
            SignalDirection::Bearish,
            self.config.mfi_oversold,
            20,
            SignalType::MfiOversold,
            SignalDirection::Bullish,
        )
    }

    /// Detects the MACD line crossing its signal line.
    pub fn detect_macd_signal(
        &self,
        symbol: &str,
        date: Date,
        price: i64,
        today: &DayValues,
        prev: Option<&DayValues>,
    ) -> (r: Option<Signal>)
        requires
            today.wf(),
            opt_wf(prev),
        ensures
            opt_sig_view(r) == spec_macd_signal(symbol@, date, price, today@, opt_view(prev)),
    {
        let key_m = ("MACD_12_26").to_owned();
        let key_s = ("MACD_SIGNAL_9").to_owned();
        let macd = match today.get(&key_m) {
            Option::Some(v) => v,
            Option::None => {
                return Option::None;
            },
        };
        let signal = match today.get(&key_s) {
            Option::Some(v) => v,
            Option::None => {
                return Option::None;
            },
        };
        let prev_macd = match lookup_prev(prev, &key_m) {
            Option::Some(v) => v,
            Option::None => {
                return Option::None;
            },
        };
        let prev_signal = match lookup_prev(prev, &key_s) {
            Option::Some(v) => v,
            Option::None => {
                return Option::None;
            },
        };
        if prev_macd <= prev_signal && macd > signal {
            let strength = macd_strength(macd, signal, price);
            Option::Some(
                Signal {
                    id: 0,
                    symbol: symbol.to_owned(),
                    signal_type: SignalType::MacdBullishCross,
                    direction: SignalDirection::Bullish,
                    strength,
                    price_at_signal: price,
                    triggered_by: ("MACD").to_owned(),
                    trigger_value: macd,
                    timestamp: date,
                    created_at: String::new(),
                    acknowledged: false,
                },
            )
        } else if prev_macd >= prev_signal && macd < signal {
            let strength = macd_strength(macd, signal, price);
            Option::Some(
                Signal {
                    id: 0,
                    symbol: symbol.to_owned(),
                    signal_type: SignalType::MacdBearishCross,
                    direction: SignalDirection::Bearish,
                    strength,
                    price_at_signal: price,
                    triggered_by: ("MACD").to_owned(),
                    trigger_value: macd,
                    timestamp: date,
                    created_at: String::new(),
                    acknowledged: false,
                },
            )
        } else {
            Option::None
        }
    }

    /// Detects the closing price breaking a Bollinger band.
    pub fn detect_bollinger_signal(
        &self,
        symbol: &str,
        date: Date,
        price: i64,
        today: &DayValues,
    ) -> (r: Option<Signal>)
        requires
            today.wf(),
        ensures
            opt_sig_view(r) == spec_bollinger_signal(symbol@, date, price, today@),
    {
        let key_u = ("BB_UPPER_20").to_owned();
        let key_l = ("BB_LOWER_20").to_owned();
        let key_m = ("BB_MIDDLE_20").to_owned();
        let upper = match today.get(&key_u) {
            Option::Some(v) => v,
            Option::None => {
                return Option::None;
            },
        };
        let lower = match today.get(&key_l) {
            Option::Some(v) => v,
            Option::None => {
                return Option::None;
            },
        };
        let middle = match today.get(&key_m) {
            Option::Some(v) => v,
            Option::None => {
                return Option::None;
            },
        };
        if price > upper {
            let strength = band_strength(price, upper, upper, middle);
            Option::Some(
                Signal {
                    id: 0,
                    symbol: symbol.to_owned(),
                    signal_type: SignalType::BollingerUpperBreak,
                    direction: SignalDirection::Bearish,
                    strength,
                    price_at_signal: price,
                    triggered_by: key_u,
                    trigger_value: upper,
                    timestamp: date,
                    created_at: String::new(),
                    acknowledged: false,
                },
            )
        } else if price < lower {
            let strength = band_strength(lower, price, middle, lower);
            Option::Some(
                Signal {
                    id: 0,
                    symbol: symbol.to_owned(),
                    signal_type: SignalType::BollingerLowerBreak,
                    direction: SignalDirection::Bullish,
                    strength,
                    price_at_signal: price,
                    triggered_by: key_l,
                    trigger_value: lower,
                    timestamp: date,
                    created_at: String::new(),
                    acknowledged: false,
                },
            )
        } else {
            Option::None
        }
    }

    /// Detects a golden or death cross of the 20- and 50-day averages.
    pub fn detect_ma_crossover_signal(
        &self,
        symbol: &str,
        date: Date,
        price: i64,
        today: &DayValues,
        prev: Option<&DayValues>,
    ) -> (r: Option<Signal>)
        requires
            today.wf(),
            opt_wf(prev),
        ensures
            opt_sig_view(r) == spec_ma_crossover_signal(
                symbol@,
                date,
                price,
                today@,
                opt_view(prev),
            ),
    {
        let key_f = ("SMA_20").to_owned();
        let key_s = ("SMA_50").to_owned();
        let fast = match today.get(&key_f) {
            Option::Some(v) => v,
            Option::None => {
                return Option::None;
            },
        };
        let slow = match today.get(&key_s) {
            Option::Some(v) => v,
            Option::None => {
                return Option::None;
            },
        };
        let prev_fast = match lookup_prev(prev, &key_f) {
            Option::Some(v) => v,
            Option::None => {
                return Option::None;
            },
        };
        let prev_slow = match lookup_prev(prev, &key_s) {
            Option::Some(v) => v,
            Option::None => {
                return Option::None;
            },
        };
        if prev_fast <= prev_slow && fast > slow {
            let strength = ratio_strength(
                widen_mul(fast as i128 - slow as i128, 100 * SCALE),
                slow as i128,
            );
            Option::Some(
                Signal {
                    id: 0,
                    symbol: symbol.to_owned(),
                    signal_type: SignalType::MaCrossoverBullish,
                    direction: SignalDirection::Bullish,
                    strength,
                    price_at_signal: price,
                    triggered_by: ("SMA_20/50").to_owned(),
                    trigger_value: fast,
                    timestamp: date,
                    created_at: String::new(),
                    acknowledged: false,
                },
            )
        } else if prev_fast >= prev_slow && fast < slow {
            let strength = ratio_strength(
                widen_mul(slow as i128 - fast as i128, 100 * SCALE),
                slow as i128,
            );
            Option::Some(
                Signal {
                    id: 0,
                    symbol: symbol.to_owned(),
                    signal_type: SignalType::MaCrossoverBearish,
                    direction: SignalDirection::Bearish,
                    strength,
                    price_at_signal: price,
                    triggered_by: ("SMA_20/50").to_owned(),
                    trigger_value: fast,
                    timestamp: date,
                    created_at: String::new(),
                    acknowledged: false,
                },
            )
        } else {
            Option::None
        }
    }

    /// Detects %K crossing %D inside the near-oversold or near-overbought
    /// band.
    pub fn detect_stochastic_signal(
        &self,
        symbol: &str,
        date: Date,
        price: i64,
        today: &DayValues,
        prev: Option<&DayValues>,
    ) -> (r: Option<Signal>)
        requires
            today.wf(),
            opt_wf(prev),
        ensures
            opt_sig_view(r) == spec_stochastic_signal(
                self.config,
                symbol@,
                date,
                price,
                today@,
                opt_view(prev),
            ),
    {
        let key_k = ("STOCH_K_14").to_owned();
        let key_d = ("STOCH_D_3").to_owned();
        let k = match today.get(&key_k) {
            Option::Some(v) => v,
            Option::None => {
                return Option::None;
            },
        };
        let d = match today.get(&key_d) {
            Option::Some(v) => v,
            Option::None => {
                return Option::None;
            },
        };
        let prev_k = match lookup_prev(prev, &key_k) {
            Option::Some(v) => v,
            Option::None => {
                return Option::None;
            },
        };
        let prev_d = match lookup_prev(prev, &key_d) {
            Option::Some(v) => v,
            Option::None => {
                return Option::None;
            },
        };
        if prev_k <= prev_d && k > d && (k as i128) < self.config.stoch_oversold as i128 + (20
            * SCALE) as i128 {
            let strength = ratio_strength(k as i128 - d as i128, 20);
            Option::Some(
                Signal {
                    id: 0,
                    symbol: symbol.to_owned(),
                    signal_type: SignalType::StochBullishCross,
                    direction: SignalDirection::Bullish,
                    strength,
                    price_at_signal: price,
                    triggered_by: ("STOCH").to_owned(),
                    trigger_value: k,
                    timestamp: date,
                    created_at: String::new(),
                    acknowledged: false,
                },
            )
        } else if prev_k >= prev_d && k < d && (k as i128) > self.config.stoch_overbought as i128
            - (20 * SCALE) as i128 {
            let strength = ratio_strength(d as i128 - k as i128, 20);
            Option::Some(
                Signal {
                    id: 0,
                    symbol: symbol.to_owned(),
                    signal_type: SignalType::StochBearishCross,
                    direction: SignalDirection::Bearish,
                    strength,
                    price_at_signal: price,
                    triggered_by: ("STOCH").to_owned(),
                    trigger_value: k,
                    timestamp: date,
                    created_at: String::new(),
                    acknowledged: false,
                },
            )
        } else {
            Option::None
        }
    }
}

/// Looks a name up on the previous day, when there is one.
fn lookup_prev(prev: Option<&DayValues>, key: &String) -> (r: Option<i64>)
    requires
        opt_wf(prev),
    ensures
        r == prev_get(opt_view(prev), key@),
{
    match prev {
        Option::Some(p) => p.get(key),
        Option::None => Option::None,
    }
}

/// The MACD strength: the gap between line and signal, scaled by price.
fn macd_strength(macd: i64, signal: i64, price: i64) -> (r: i64)
    ensures
        r == scaled_ratio(
            vstd::math::abs(macd - signal) * 100 * SCALE,
            vstd::math::max(price as int, SCALE as int),
        ),
{
    let diff: i128 = macd as i128 - signal as i128;
    let a: i128 = if diff < 0 {
        -diff
    } else {
        diff
    };
    let den: i128 = if price < SCALE {
        SCALE as i128
    } else {
        price as i128
    };
    ratio_strength(widen_mul(a, 100 * SCALE), den)
}

/// A band-break strength: the overshoot against half the band width, with a
/// small floor on the denominator.
fn band_strength(hi: i64, lo: i64, band_hi: i64, band_lo: i64) -> (r: i64)
    requires
        hi > lo,
    ensures
        r == scaled_ratio((hi - lo) * SCALE, vstd::math::max(band_hi - band_lo, 100)),
{
    let num: i128 = widen_mul(hi as i128 - lo as i128, SCALE);
    let dd: i128 = band_hi as i128 - band_lo as i128;
    let den: i128 = if dd < 100 {
        100
    } else {
        dd
    };
    ratio_strength(num, den)
}

} // verus!
