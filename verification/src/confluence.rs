//! The confluence voting aggregator.
//!
//! Five sources vote on one date: RSI, MACD against its signal line, the
//! closing price against the Bollinger bands, stochastic %K, and CCI — all
//! level tests.  A source abstains when a required value is missing or sits
//! in its neutral zone.  When one side gathers the configured minimum of
//! votes, bullish first, an event is emitted whose base strength is the
//! average vote strength, boosted by a capped ADX multiplier when ADX sits
//! above the strong-trend threshold.

use vstd::prelude::*;
use crate::config::ConfluenceConfig;
use crate::date::Date;
use crate::fixed::{ratio_strength, scaled_ratio, unit_clamp, widen_mul, SCALE};
use crate::types::{votes_view, ConfluenceSignal, ConfluenceSignalV, IndicatorVote,
    IndicatorVoteV, SignalDirection};
use crate::values::{map_get, DayValues};
use crate::engine::SignalEngine;
use vstd::arithmetic::div_mod::{lemma_div_is_ordered, lemma_div_multiples_vanish};

verus! {

/// The mathematical value of an optional vote.
pub open spec fn opt_vote_view(o: Option<IndicatorVote>) -> Option<IndicatorVoteV> {
    match o {
        Option::Some(v) => Option::Some(v@),
        Option::None => Option::None,
    }
}

/// The mathematical value of an optional confluence event.
pub open spec fn opt_conf_view(r: Option<ConfluenceSignal>) -> Option<ConfluenceSignalV> {
    match r {
        Option::Some(c) => Option::Some(c@),
        Option::None => Option::None,
    }
}

/// Half the band width, floored at zero; the denominator of both band votes,
/// since the midpoint sits halfway between the bands.
pub open spec fn half_width(upper: int, lower: int) -> int {
    if upper >= lower {
        (upper - lower) / 2
    } else {
        0
    }
}

/// How RSI votes: bullish below the oversold bound, bearish above the
/// overbought bound.
pub open spec fn spec_rsi_vote(cc: ConfluenceConfig, m: Map<Seq<char>, i64>) -> Option<
    IndicatorVoteV,
> {
    match map_get(m, "RSI_14"@) {
        Option::None => Option::None,
        Option::Some(rsi) => {
            if rsi < cc.rsi_oversold {
                Option::Some(
                    IndicatorVoteV {
                        indicator_name: "RSI_14"@,
                        direction: SignalDirection::Bullish,
                        strength: scaled_ratio(cc.rsi_oversold - rsi, 30),
                        value: rsi as int,
                    },
                )
            } else if rsi > cc.rsi_overbought {
                Option::Some(
                    IndicatorVoteV {
                        indicator_name: "RSI_14"@,
                        direction: SignalDirection::Bearish,
                        strength: scaled_ratio(rsi - cc.rsi_overbought, 30),
                        value: rsi as int,
                    },
                )
            } else {
                Option::None
            }
        },
    }
}

/// How MACD votes: the sign of the gap to its signal line, strength scaled
/// by the closing price.
pub open spec fn spec_macd_vote(price: i64, m: Map<Seq<char>, i64>) -> Option<IndicatorVoteV> {
    match (map_get(m, "MACD_12_26"@), map_get(m, "MACD_SIGNAL_9"@)) {
        (Option::Some(macd), Option::Some(signal)) => {
            let strength = scaled_ratio(
                vstd::math::abs(macd - signal) as int * 100 * SCALE,
                vstd::math::max(price as int, SCALE as int),
            );
            if macd - signal > 0 {
                Option::Some(
                    IndicatorVoteV {
                        indicator_name: "MACD"@,
                        direction: SignalDirection::Bullish,
                        strength: strength,
                        value: macd as int,
                    },
                )
            } else if macd - signal < 0 {
                Option::Some(
                    IndicatorVoteV {
                        indicator_name: "MACD"@,
                        direction: SignalDirection::Bearish,
                        strength: strength,
                        value: macd as int,
                    },
                )
            } else {
                Option::None
            }
        },
        _ => Option::None,
    }
}

/// How the bands vote: price below the lower band is bullish, above the
/// upper band bearish, the overshoot measured against half the band width.
pub open spec fn spec_bb_vote(price: i64, m: Map<Seq<char>, i64>) -> Option<IndicatorVoteV> {
    match (map_get(m, "BB_UPPER_20"@), map_get(m, "BB_LOWER_20"@)) {
        (Option::Some(upper), Option::Some(lower)) => {
            if price < lower {
                Option::Some(
                    IndicatorVoteV {
                        indicator_name: "BB_LOWER"@,
                        direction: SignalDirection::Bullish,
                        strength: scaled_ratio(
                            (lower - price) * SCALE,
                            vstd::math::max(half_width(upper as int, lower as int), 100),
                        ),
                        value: price as int,
                    },
                )
            } else if price > upper {
                Option::Some(
                    IndicatorVoteV {
                        indicator_name: "BB_UPPER"@,
                        direction: SignalDirection::Bearish,
                        strength: scaled_ratio(
                            (price - upper) * SCALE,
                            vstd::math::max(half_width(upper as int, lower as int), 100),
                        ),
                        value: price as int,
                    },
                )
            } else {
                Option::None
            }
        },
        _ => Option::None,
    }
}

/// How stochastic %K votes: a level test against its own bounds.
pub open spec fn spec_stoch_vote(cc: ConfluenceConfig, m: Map<Seq<char>, i64>) -> Option<
    IndicatorVoteV,
> {
    match map_get(m, "STOCH_K_14"@) {
        Option::None => Option::None,
        Option::Some(k) => {
            if k < cc.stoch_oversold {
                Option::Some(
                    IndicatorVoteV {
                        indicator_name: "STOCH_K"@,
                        direction: SignalDirection::Bullish,
                        strength: scaled_ratio(cc.stoch_oversold - k, 20),
                        value: k as int,
                    },
                )
            } else if k > cc.stoch_overbought {
                Option::Some(
                    IndicatorVoteV {
                        indicator_name: "STOCH_K"@,
                        direction: SignalDirection::Bearish,
                        strength: scaled_ratio(k - cc.stoch_overbought, 20),
                        value: k as int,
                    },
                )
            } else {
                Option::None
            }
        },
    }
}

/// How CCI votes: a level test against its own bounds.
pub open spec fn spec_cci_vote(cc: ConfluenceConfig, m: Map<Seq<char>, i64>) -> Option<
    IndicatorVoteV,
> {
    match map_get(m, "CCI_20"@) {
        Option::None => Option::None,
        Option::Some(cci) => {
            if cci < cc.cci_oversold {
                Option::Some(
                    IndicatorVoteV {
                        indicator_name: "CCI_20"@,
                        direction: SignalDirection::Bullish,
                        strength: scaled_ratio(cc.cci_oversold - cci, 100),
                        value: cci as int,
                    },
                )
            } else if cci > cc.cci_overbought {
                Option::Some(
                    IndicatorVoteV {
                        indicator_name: "CCI_20"@,
                        direction: SignalDirection::Bearish,
                        strength: scaled_ratio(cci - cc.cci_overbought, 100),
                        value: cci as int,
                    },
                )
            } else {
                Option::None
            }
        },
    }
}

/// The raw ADX value, when it exceeds the strong-trend threshold; it never
/// votes, it only lends confidence.
pub open spec fn spec_adx_confidence(cc: ConfluenceConfig, m: Map<Seq<char>, i64>) -> Option<
    i64,
> {
    match map_get(m, "ADX_14"@) {
        Option::Some(a) => if a > cc.adx_strong_trend {
            Option::Some(a)
        } else {
            Option::None
        },
        Option::None => Option::None,
    }
}

/// A vote as a sequence: one element, or none on abstention.
pub open spec fn opt_vote_seq(o: Option<IndicatorVoteV>) -> Seq<IndicatorVoteV> {
    match o {
        Option::Some(v) => seq![v],
        Option::None => Seq::empty(),
    }
}

/// All votes cast on one date, in the fixed source order.
pub open spec fn spec_votes(cc: ConfluenceConfig, price: i64, m: Map<Seq<char>, i64>) -> Seq<
    IndicatorVoteV,
> {
    opt_vote_seq(spec_rsi_vote(cc, m)) + opt_vote_seq(spec_macd_vote(price, m)) + opt_vote_seq(
        spec_bb_vote(price, m),
    ) + opt_vote_seq(spec_stoch_vote(cc, m)) + opt_vote_seq(spec_cci_vote(cc, m))
}

/// One where a vote points the given way, else zero.
pub open spec fn vote_is(o: Option<IndicatorVoteV>, dir: SignalDirection) -> int {
    match o {
        Option::Some(v) => if v.direction == dir {
            1
        } else {
            0
        },
        Option::None => 0,
    }
}

/// The strength a vote contributes toward the given side.
pub open spec fn vote_strength_toward(o: Option<IndicatorVoteV>, dir: SignalDirection) -> int {
    match o {
        Option::Some(v) => if v.direction == dir {
            v.strength
        } else {
            0
        },
        Option::None => 0,
    }
}

/// How many sources voted the given way.
pub open spec fn spec_vote_count(
    cc: ConfluenceConfig,
    price: i64,
    m: Map<Seq<char>, i64>,
    dir: SignalDirection,
) -> int {
    vote_is(spec_rsi_vote(cc, m), dir) + vote_is(spec_macd_vote(price, m), dir) + vote_is(
        spec_bb_vote(price, m),
        dir,
    ) + vote_is(spec_stoch_vote(cc, m), dir) + vote_is(spec_cci_vote(cc, m), dir)
}

/// The summed strength of the votes cast the given way.
pub open spec fn spec_vote_sum(
    cc: ConfluenceConfig,
    price: i64,
    m: Map<Seq<char>, i64>,
    dir: SignalDirection,
) -> int {
    vote_strength_toward(spec_rsi_vote(cc, m), dir) + vote_strength_toward(
        spec_macd_vote(price, m),
        dir,
    ) + vote_strength_toward(spec_bb_vote(price, m), dir) + vote_strength_toward(
        spec_stoch_vote(cc, m),
        dir,
    ) + vote_strength_toward(spec_cci_vote(cc, m), dir)
}

/// The ADX boost: the base strength times the capped multiplier `adx / 25`,
/// clamped back into the unit interval.
pub open spec fn spec_adx_boost(base: int, adx: int) -> int {
    if base <= 0 {
        0
    } else if adx <= 0 {
        0
    } else {
        unit_clamp((base * vstd::math::min(adx / 25, (2 * SCALE) as int)) / (SCALE as int))
    }
}

/// The confluence event one date yields, if enough sources agree.
pub open spec fn spec_confluence(
    cc: ConfluenceConfig,
    sym: Seq<char>,
    date: Date,
    price: i64,
    m: Map<Seq<char>, i64>,
) -> Option<ConfluenceSignalV> {
    let bullish = spec_vote_count(cc, price, m, SignalDirection::Bullish);
    let bearish = spec_vote_count(cc, price, m, SignalDirection::Bearish);
    let adx = spec_adx_confidence(cc, m);
    if bullish >= cc.min_agreeing_indicators {
        Option::Some(
            spec_confluence_event(
                cc,
                sym,
                date,
                price,
                m,
                SignalDirection::Bullish,
                spec_vote_sum(cc, price, m, SignalDirection::Bullish) / bullish,
            ),
        )
    } else if bearish >= cc.min_agreeing_indicators {
        Option::Some(
            spec_confluence_event(
                cc,
                sym,
                date,
                price,
                m,
                SignalDirection::Bearish,
                spec_vote_sum(cc, price, m, SignalDirection::Bearish) / bearish,
            ),
        )
    } else {
        Option::None
    }
}

/// The emitted record: direction, boosted strength, the full vote list and
/// both counts for audit.
pub open spec fn spec_confluence_event(
    cc: ConfluenceConfig,
    sym: Seq<char>,
    date: Date,
    price: i64,
    m: Map<Seq<char>, i64>,
    dir: SignalDirection,
    base: int,
) -> ConfluenceSignalV {
    let adx = spec_adx_confidence(cc, m);
    ConfluenceSignalV {
        id: 0,
        symbol: sym,
        date: date,
        direction: dir,
        strength: match adx {
            Option::Some(a) => spec_adx_boost(base, a as int),
            Option::None => base,
        },
        contributing_indicators: spec_votes(cc, price, m),
        bullish_count: spec_vote_count(cc, price, m, SignalDirection::Bullish),
        bearish_count: spec_vote_count(cc, price, m, SignalDirection::Bearish),
        adx_confidence: match adx {
            Option::Some(a) => Option::Some(a as int),
            Option::None => Option::None,
        },
        price_at_signal: price as int,
        created_at: Seq::empty(),
    }
}

/// A cast vote points bullish or bearish and carries a unit strength.
pub open spec fn vote_in_range(o: Option<IndicatorVoteV>) -> bool {
    match o {
        Option::Some(v) => (v.direction == SignalDirection::Bullish || v.direction
            == SignalDirection::Bearish) && 0 <= v.strength <= SCALE,
        Option::None => true,
    }
}

/// Evaluates the RSI vote.
fn rsi_vote(cc: &ConfluenceConfig, vals: &DayValues) -> (o: Option<IndicatorVote>)
    requires
        vals.wf(),
    ensures
        opt_vote_view(o) == spec_rsi_vote(*cc, vals@),
        vote_in_range(opt_vote_view(o)),
{
    let key = ("RSI_14").to_owned();
    match vals.get(&key) {
        Option::None => Option::None,
        Option::Some(rsi) => {
            if rsi < cc.rsi_oversold {
                let strength = ratio_strength(
                    cc.rsi_oversold as i128 - rsi as i128,
                    30,
                );
                Option::Some(
                    IndicatorVote {
                        indicator_name: key,
                        direction: SignalDirection::Bullish,
                        strength,
                        value: rsi,
                    },
                )
            } else if rsi > cc.rsi_overbought {
                let strength = ratio_strength(
                    rsi as i128 - cc.rsi_overbought as i128,
                    30,
                );
                Option::Some(
                    IndicatorVote {
                        indicator_name: key,
                        direction: SignalDirection::Bearish,
                        strength,
                        value: rsi,
                    },
                )
            } else {
                Option::None
            }
        },
    }
}

/// Evaluates the MACD vote.
fn macd_vote(price: i64, vals: &DayValues) -> (o: Option<IndicatorVote>)
    requires
        vals.wf(),
    ensures
        opt_vote_view(o) == spec_macd_vote(price, vals@),
        vote_in_range(opt_vote_view(o)),
{
    let key_m = ("MACD_12_26").to_owned();
    let key_s = ("MACD_SIGNAL_9").to_owned();
    let macd = match vals.get(&key_m) {
        Option::Some(v) => v,
        Option::None => {
            return Option::None;
        },
    };
    let signal = match vals.get(&key_s) {
        Option::Some(v) => v,
        Option::None => {
            return Option::None;
        },
    };
    let diff: i128 = macd as i128 - signal as i128;
    if diff == 0 {
        return Option::None;
    }
    let a: i128 = if diff < 0 {
        -diff
    } else {
        diff
    };
    let den: i128 = if price < SCALE {
        SCALE as i128
    } else {
        price as i128
    };
    let strength = ratio_strength(widen_mul(a, 100 * SCALE), den);
    Option::Some(
        IndicatorVote {
            indicator_name: ("MACD").to_owned(),
            direction: if diff > 0 {
                SignalDirection::Bullish
            } else {
                SignalDirection::Bearish
            },
            strength,
            value: macd,
        },
    )
}

/// Evaluates the band vote.
fn bb_vote(price: i64, vals: &DayValues) -> (o: Option<IndicatorVote>)
    requires
        vals.wf(),
    ensures
        opt_vote_view(o) == spec_bb_vote(price, vals@),
        vote_in_range(opt_vote_view(o)),
{
    let key_u = ("BB_UPPER_20").to_owned();
    let key_l = ("BB_LOWER_20").to_owned();
    let upper = match vals.get(&key_u) {
        Option::Some(v) => v,
        Option::None => {
            return Option::None;
        },
    };
    let lower = match vals.get(&key_l) {
        Option::Some(v) => v,
        Option::None => {
            return Option::None;
        },
    };
    let d: i128 = upper as i128 - lower as i128;
    let half: i128 = if d >= 0 {
        ((d as u128) / 2) as i128
    } else {
        0
    };
    let den: i128 = if half < 100 {
        100
    } else {
        half
    };
    if price < lower {
        let strength = ratio_strength(widen_mul(lower as i128 - price as i128, SCALE), den);
        Option::Some(
            IndicatorVote {
                indicator_name: ("BB_LOWER").to_owned(),
                direction: SignalDirection::Bullish,
                strength,
                value: price,
            },
        )
    } else if price > upper {
        let strength = ratio_strength(widen_mul(price as i128 - upper as i128, SCALE), den);
        Option::Some(
            IndicatorVote {
                indicator_name: ("BB_UPPER").to_owned(),
                direction: SignalDirection::Bearish,
                strength,
                value: price,
            },
        )
    } else {
        Option::None
    }
}

/// Evaluates the stochastic vote.
fn stoch_vote(cc: &ConfluenceConfig, vals: &DayValues) -> (o: Option<IndicatorVote>)
    requires
        vals.wf(),
    ensures
        opt_vote_view(o) == spec_stoch_vote(*cc, vals@),
        vote_in_range(opt_vote_view(o)),
{
    let key = ("STOCH_K_14").to_owned();
    match vals.get(&key) {
        Option::None => Option::None,
        Option::Some(k) => {
            if k < cc.stoch_oversold {
                let strength = ratio_strength(
                    cc.stoch_oversold as i128 - k as i128,
                    20,
                );
                Option::Some(
                    IndicatorVote {
                        indicator_name: ("STOCH_K").to_owned(),
                        direction: SignalDirection::Bullish,
                        strength,
                        value: k,
                    },
                )
            } else if k > cc.stoch_overbought {
                let strength = ratio_strength(
                    k as i128 - cc.stoch_overbought as i128,
                    20,
                );
                Option::Some(
                    IndicatorVote {
                        indicator_name: ("STOCH_K").to_owned(),
                        direction: SignalDirection::Bearish,
                        strength,
                        value: k,
                    },
                )
            } else {
                Option::None
            }
        },
    }
}

/// Evaluates the CCI vote.
fn cci_vote(cc: &ConfluenceConfig, vals: &DayValues) -> (o: Option<IndicatorVote>)
    requires
        vals.wf(),
    ensures
        opt_vote_view(o) == spec_cci_vote(*cc, vals@),
        vote_in_range(opt_vote_view(o)),
{
    let key = ("CCI_20").to_owned();
    match vals.get(&key) {
        Option::None => Option::None,
        Option::Some(cci) => {
            if cci < cc.cci_oversold {
                let strength = ratio_strength(
                    cc.cci_oversold as i128 - cci as i128,
                    100,
                );
                Option::Some(
                    IndicatorVote {
                        indicator_name: key,
                        direction: SignalDirection::Bullish,
                        strength,
                        value: cci,
                    },
                )
            } else if cci > cc.cci_overbought {
                let strength = ratio_strength(
                    cci as i128 - cc.cci_overbought as i128,
                    100,
                );
                Option::Some(
                    IndicatorVote {
                        indicator_name: key,
                        direction: SignalDirection::Bearish,
                        strength,
                        value: cci,
                    },
                )
            } else {
                Option::None
            }
        },
    }
}

/// Applies the capped ADX multiplier to a base strength.
fn adx_boost(base: i64, adx: i64) -> (r: i64)
    requires
        0 <= base <= SCALE,
    ensures
        r == spec_adx_boost(base as int, adx as int),
        0 <= r <= SCALE,
{
    if base <= 0 {
        0
    } else if adx <= 0 {
        0
    } else {
        let q: u64 = (adx as u64) / 25;
        let mult: u64 = if q > (2 * SCALE) as u64 {
            (2 * SCALE) as u64
        } else {
            q
        };
        let prod: i128 = widen_mul(base as i128, mult as i64);
        let scaled: u128 = (prod as u128) / (SCALE as u128);
        if scaled >= SCALE as u128 {
            SCALE
        } else {
            scaled as i64
        }
    }
}

/// Folds one source's vote into the tallies and the vote list.
fn tally_vote(
    o: Option<IndicatorVote>,
    votes: &mut Vec<IndicatorVote>,
    bullish_count: &mut usize,
    bearish_count: &mut usize,
    bullish_sum: &mut i64,
    bearish_sum: &mut i64,
)
    requires
        vote_in_range(opt_vote_view(o)),
        *old(bullish_count) + *old(bearish_count) <= 4,
        0 <= *old(bullish_sum) <= *old(bullish_count) * SCALE,
        0 <= *old(bearish_sum) <= *old(bearish_count) * SCALE,
    ensures
        votes_view(final(votes)@) == votes_view(old(votes)@) + opt_vote_seq(opt_vote_view(o)),
        *final(bullish_count) == *old(bullish_count) + vote_is(
            opt_vote_view(o),
            SignalDirection::Bullish,
        ),
        *final(bearish_count) == *old(bearish_count) + vote_is(
            opt_vote_view(o),
            SignalDirection::Bearish,
        ),
        *final(bullish_sum) == *old(bullish_sum) + vote_strength_toward(
            opt_vote_view(o),
            SignalDirection::Bullish,
        ),
        *final(bearish_sum) == *old(bearish_sum) + vote_strength_toward(
            opt_vote_view(o),
            SignalDirection::Bearish,
        ),
        0 <= *final(bullish_sum) <= *final(bullish_count) * SCALE,
        0 <= *final(bearish_sum) <= *final(bearish_count) * SCALE,
{
    match o {
        Option::Some(v) => {
            if matches!(v.direction, SignalDirection::Bullish) {
                *bullish_count += 1;
                *bullish_sum += v.strength;
            } else {
                *bearish_count += 1;
                *bearish_sum += v.strength;
            }
            votes.push(v);
            proof {
                assert(votes_view(votes@) =~= votes_view(old(votes)@) + opt_vote_seq(
                    opt_vote_view(o),
                ));
            }
        },
        Option::None => {
            proof {
                assert(votes_view(votes@) =~= votes_view(old(votes)@) + opt_vote_seq(
                    opt_vote_view(o),
                ));
            }
        },
    }
}

impl SignalEngine {
    /// Evaluates the confluence of one date's indicator map and closing
    /// price: the full vote set, the decision and the ADX boost.
    #[verifier::rlimit(50)]
    pub fn detect_confluence_signal(
        &self,
        symbol: &str,
        date: Date,
        price: i64,
        indicators: &DayValues,
    ) -> (r: Option<ConfluenceSignal>)
        requires
            indicators.wf(),
            self.confluence_config.wf(),
        ensures
            opt_conf_view(r) == spec_confluence(
                self.confluence_config,
                symbol@,
                date,
                price,
                indicators@,
            ),
    {
        let cc = &self.confluence_config;
        let ghost m = indicators@;

        let mut votes: Vec<IndicatorVote> = Vec::new();
        let mut bullish_count: usize = 0;
        let mut bearish_count: usize = 0;
        let mut bullish_sum: i64 = 0;
        let mut bearish_sum: i64 = 0;

        let v1 = rsi_vote(cc, indicators);
        tally_vote(v1, &mut votes, &mut bullish_count, &mut bearish_count, &mut bullish_sum,
            &mut bearish_sum);
        let v2 = macd_vote(price, indicators);
        tally_vote(v2, &mut votes, &mut bullish_count, &mut bearish_count, &mut bullish_sum,
            &mut bearish_sum);
        let v3 = bb_vote(price, indicators);
        tally_vote(v3, &mut votes, &mut bullish_count, &mut bearish_count, &mut bullish_sum,
            &mut bearish_sum);
        let v4 = stoch_vote(cc, indicators);
        tally_vote(v4, &mut votes, &mut bullish_count, &mut bearish_count, &mut bullish_sum,
            &mut bearish_sum);
        let v5 = cci_vote(cc, indicators);
        tally_vote(v5, &mut votes, &mut bullish_count, &mut bearish_count, &mut bullish_sum,
            &mut bearish_sum);

        proof {
            assert(votes_view(votes@) =~= spec_votes(*cc, price, m));
        }

        let key_adx = ("ADX_14").to_owned();
        let adx_confidence: Option<i64> = match indicators.get(&key_adx) {
            Option::Some(a) => if a > cc.adx_strong_trend {
                Option::Some(a)
            } else {
                Option::None
            },
            Option::None => Option::None,
        };

        let min_required = cc.min_agreeing_indicators;
        let direction: SignalDirection;
        let base_strength: i64;
        if bullish_count >= min_required {
            direction = SignalDirection::Bullish;
            base_strength = ((bullish_sum as u64) / (bullish_count as u64)) as i64;
            proof {
                lemma_div_is_ordered(
                    bullish_sum as int,
                    bullish_count * SCALE,
                    bullish_count as int,
                );
                lemma_div_multiples_vanish(SCALE as int, bullish_count as int);
            }
        } else if bearish_count >= min_required {
            direction = SignalDirection::Bearish;
            base_strength = ((bearish_sum as u64) / (bearish_count as u64)) as i64;
            proof {
                lemma_div_is_ordered(
                    bearish_sum as int,
                    bearish_count * SCALE,
                    bearish_count as int,
                );
                lemma_div_multiples_vanish(SCALE as int, bearish_count as int);
            }
        } else {
            return Option::None;
        }

        let final_strength: i64 = match adx_confidence {
            Option::Some(a) => adx_boost(base_strength, a),
            Option::None => base_strength,
        };

        Option::Some(
            ConfluenceSignal {
                id: 0,
                symbol: symbol.to_owned(),
                date,
                direction,
                strength: final_strength,
                contributing_indicators: votes,
                bullish_count,
                bearish_count,
                adx_confidence,
                price_at_signal: price,
                created_at: String::new(),
            },
        )
    }
}

} // verus!
