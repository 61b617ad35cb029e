//! The laws the engine obeys, proved over the same spec functions its
//! contracts use.

use vstd::prelude::*;
use crate::config::{ConfluenceConfig, SignalConfig};
use crate::confluence::{spec_adx_boost, spec_adx_confidence, spec_bb_vote, spec_cci_vote,
    spec_confluence, spec_macd_vote, spec_rsi_vote, spec_stoch_vote, spec_vote_count,
    spec_vote_sum, vote_in_range};
use crate::date::Date;
use crate::detectors::{make_signal, spec_single_cross};
use crate::engine::{spec_generate, spec_generate_confluences, spec_signals_at,
    spec_signals_upto, spec_confluences_upto};
use crate::fixed::{scaled_ratio, SCALE};
use crate::index::DayView;
use crate::types::{ConfluenceSignalV, DailyPrice, SignalDirection, SignalType, SignalV,
    TechnicalIndicator};
use crate::values::map_get;
use vstd::arithmetic::div_mod::{lemma_div_is_ordered, lemma_div_multiples_vanish,
    lemma_div_pos_is_pos};
use vstd::arithmetic::mul::lemma_mul_inequality;

verus! {

/// Determinism: what a run emits is a function of the configuration and the
/// input records alone, so two runs over the same inputs agree item for item.
/// The executable entry points promise exactly these spec values, which makes
/// repeated invocation reproducible.
pub proof fn lemma_generate_deterministic(
    cfg: SignalConfig,
    cc: ConfluenceConfig,
    sym: Seq<char>,
    inds: Seq<TechnicalIndicator>,
    prices: Seq<DailyPrice>,
    first: Seq<SignalV>,
    second: Seq<SignalV>,
    first_conf: Seq<ConfluenceSignalV>,
    second_conf: Seq<ConfluenceSignalV>,
)
    requires
        first == spec_generate(cfg, sym, inds, prices),
        second == spec_generate(cfg, sym, inds, prices),
        first_conf == spec_generate_confluences(cc, sym, inds, prices),
        second_conf == spec_generate_confluences(cc, sym, inds, prices),
    ensures
        first == second,
        first_conf == second_conf,
{
}

/// Crossing, not level: a single-value detector that saw its value beyond
/// the upper threshold yesterday stays silent today, however far beyond the
/// threshold today's value sits.  With the RSI parameters this says a
/// sustained overbought level emits nothing after the day it was entered.
pub proof fn lemma_single_cross_still_over(
    sym: Seq<char>,
    date: Date,
    price: i64,
    today: Map<Seq<char>, i64>,
    prev: Map<Seq<char>, i64>,
    key: Seq<char>,
    v: i64,
    p: i64,
    over_threshold: i64,
    over_div: i64,
    over_type: SignalType,
    over_dir: SignalDirection,
    under_threshold: i64,
    under_div: i64,
    under_type: SignalType,
    under_dir: SignalDirection,
)
    requires
        map_get(today, key) == Option::Some(v),
        map_get(prev, key) == Option::Some(p),
        v > over_threshold,
        p > over_threshold,
    ensures
        spec_single_cross(
            sym,
            date,
            price,
            today,
            Option::Some(prev),
            key,
            over_threshold,
            over_div,
            over_type,
            over_dir,
            under_threshold,
            under_div,
            under_type,
            under_dir,
        ) == Option::<SignalV>::None,
{
}

/// The mirror of [`lemma_single_cross_still_over`]: a value that already sat
/// below the lower threshold yesterday emits nothing today.
pub proof fn lemma_single_cross_still_under(
    sym: Seq<char>,
    date: Date,
    price: i64,
    today: Map<Seq<char>, i64>,
    prev: Map<Seq<char>, i64>,
    key: Seq<char>,
    v: i64,
    p: i64,
    over_threshold: i64,
    over_div: i64,
    over_type: SignalType,
    over_dir: SignalDirection,
    under_threshold: i64,
    under_div: i64,
    under_type: SignalType,
    under_dir: SignalDirection,
)
    requires
        map_get(today, key) == Option::Some(v),
        map_get(prev, key) == Option::Some(p),
        v < under_threshold,
        p < under_threshold,
        !(v > over_threshold),
    ensures
        spec_single_cross(
            sym,
            date,
            price,
            today,
            Option::Some(prev),
            key,
            over_threshold,
            over_div,
            over_type,
            over_dir,
            under_threshold,
            under_div,
            under_type,
            under_dir,
        ) == Option::<SignalV>::None,
{
}

/// Crossing, not level, for the MACD detector: when the line already sat on
/// today's side of its signal line yesterday, nothing is emitted today.
pub proof fn lemma_macd_no_repeat(
    sym: Seq<char>,
    date: Date,
    price: i64,
    today: Map<Seq<char>, i64>,
    prev: Map<Seq<char>, i64>,
    macd: i64,
    signal: i64,
    prev_macd: i64,
    prev_signal: i64,
)
    requires
        map_get(today, "MACD_12_26"@) == Option::Some(macd),
        map_get(today, "MACD_SIGNAL_9"@) == Option::Some(signal),
        map_get(prev, "MACD_12_26"@) == Option::Some(prev_macd),
        map_get(prev, "MACD_SIGNAL_9"@) == Option::Some(prev_signal),
        macd > signal ==> prev_macd > prev_signal,
        macd < signal ==> prev_macd < prev_signal,
    ensures
        crate::detectors::spec_macd_signal(sym, date, price, today, Option::Some(prev))
            == Option::<SignalV>::None,
{
}

/// Cold start: with no previous day at all, a value beyond the upper
/// threshold fires on the very first observed date, as if yesterday had not
/// been beyond it.
pub proof fn lemma_single_cross_cold_start(
    sym: Seq<char>,
    date: Date,
    price: i64,
    today: Map<Seq<char>, i64>,
    key: Seq<char>,
    v: i64,
    over_threshold: i64,
    over_div: i64,
    over_type: SignalType,
    over_dir: SignalDirection,
    under_threshold: i64,
    under_div: i64,
    under_type: SignalType,
    under_dir: SignalDirection,
)
    requires
        map_get(today, key) == Option::Some(v),
        v > over_threshold,
    ensures
        spec_single_cross(
            sym,
            date,
            price,
            today,
            Option::None,
            key,
            over_threshold,
            over_div,
            over_type,
            over_dir,
            under_threshold,
            under_div,
            under_type,
            under_dir,
        ) == Option::Some(
            make_signal(
                sym,
                over_type,
                over_dir,
                scaled_ratio(v - over_threshold, over_div as int),
                price,
                key,
                v,
                date,
            ),
        ),
{
}

/// Whether an optional signal carries a strength inside the unit interval.
pub open spec fn sig_unit(o: Option<SignalV>) -> bool {
    match o {
        Option::Some(s) => 0 <= s.strength <= SCALE,
        Option::None => true,
    }
}

/// Strength clamp, one date: every signal the nine detectors emit carries a
/// strength in `[0, SCALE]`.
pub proof fn lemma_signals_at_unit(
    cfg: SignalConfig,
    sym: Seq<char>,
    date: Date,
    price: i64,
    today: Map<Seq<char>, i64>,
    prev: Option<Map<Seq<char>, i64>>,
)
    ensures
        forall|i: int|
            0 <= i < spec_signals_at(cfg, sym, date, price, today, prev).len() ==> 0 <= (
            #[trigger] spec_signals_at(cfg, sym, date, price, today, prev)[i]).strength <= SCALE,
{
    assert(sig_unit(crate::detectors::spec_rsi_signal(cfg, sym, date, price, today, prev)));
    assert(sig_unit(crate::detectors::spec_macd_signal(sym, date, price, today, prev)));
    assert(sig_unit(crate::detectors::spec_bollinger_signal(sym, date, price, today)));
    assert(sig_unit(crate::detectors::spec_ma_crossover_signal(sym, date, price, today, prev)));
    assert(sig_unit(crate::detectors::spec_adx_signal(cfg, sym, date, price, today, prev)));
    assert(sig_unit(crate::detectors::spec_stochastic_signal(cfg, sym, date, price, today, prev)));
    assert(sig_unit(crate::detectors::spec_willr_signal(cfg, sym, date, price, today, prev)));
    assert(sig_unit(crate::detectors::spec_cci_signal(cfg, sym, date, price, today, prev)));
    assert(sig_unit(crate::detectors::spec_mfi_signal(cfg, sym, date, price, today, prev)));
}

/// Strength clamp over a run prefix.
pub proof fn lemma_signals_upto_unit(
    cfg: SignalConfig,
    sym: Seq<char>,
    days: Seq<DayView>,
    pm: Map<Date, i64>,
    n: int,
)
    ensures
        forall|i: int|
            0 <= i < spec_signals_upto(cfg, sym, days, pm, n).len() ==> 0 <= (
            #[trigger] spec_signals_upto(cfg, sym, days, pm, n)[i]).strength <= SCALE,
    decreases n,
{
    if n > 0 {
        lemma_signals_upto_unit(cfg, sym, days, pm, n - 1);
        lemma_signals_at_unit(
            cfg,
            sym,
            days[n - 1].date,
            crate::engine::spec_price_of(pm, days[n - 1].date),
            days[n - 1].values,
            crate::engine::day_prev(days, n - 1),
        );
    }
}

/// Strength clamp: every signal a whole run emits carries a strength in
/// `[0, SCALE]`, whatever the inputs.
pub proof fn lemma_generate_strength_unit(
    cfg: SignalConfig,
    sym: Seq<char>,
    inds: Seq<TechnicalIndicator>,
    prices: Seq<DailyPrice>,
)
    ensures
        forall|i: int|
            0 <= i < spec_generate(cfg, sym, inds, prices).len() ==> 0 <= (
            #[trigger] spec_generate(cfg, sym, inds, prices)[i]).strength <= SCALE,
{
    if prices.len() > 0 && inds.len() > 0 {
        let days = crate::index::spec_index_of(inds);
        lemma_signals_upto_unit(
            cfg,
            sym,
            days,
            crate::engine::spec_price_map(prices),
            days.len() as int,
        );
    }
}

/// The average strength of the votes cast toward one side stays in the unit
/// interval.
proof fn lemma_vote_average_unit(
    cc: ConfluenceConfig,
    price: i64,
    m: Map<Seq<char>, i64>,
    dir: SignalDirection,
)
    requires
        spec_vote_count(cc, price, m, dir) >= 1,
    ensures
        0 <= spec_vote_sum(cc, price, m, dir) / spec_vote_count(cc, price, m, dir) <= SCALE,
{
    let count = spec_vote_count(cc, price, m, dir);
    let total = spec_vote_sum(cc, price, m, dir);
    assert(vote_in_range(spec_rsi_vote(cc, m)));
    assert(vote_in_range(spec_macd_vote(price, m)));
    assert(vote_in_range(spec_bb_vote(price, m)));
    assert(vote_in_range(spec_stoch_vote(cc, m)));
    assert(vote_in_range(spec_cci_vote(cc, m)));
    assert(0 <= total <= count * SCALE);
    lemma_div_pos_is_pos(total, count);
    lemma_div_is_ordered(total, count * SCALE, count);
    lemma_div_multiples_vanish(SCALE as int, count);
}

/// Strength clamp for confluence: an emitted event's strength lies in
/// `[0, SCALE]`.
pub proof fn lemma_confluence_strength_unit(
    cc: ConfluenceConfig,
    sym: Seq<char>,
    date: Date,
    price: i64,
    m: Map<Seq<char>, i64>,
)
    requires
        cc.wf(),
    ensures
        match spec_confluence(cc, sym, date, price, m) {
            Option::Some(c) => 0 <= c.strength <= SCALE,
            Option::None => true,
        },
{
    let bullish = spec_vote_count(cc, price, m, SignalDirection::Bullish);
    let bearish = spec_vote_count(cc, price, m, SignalDirection::Bearish);
    if bullish >= cc.min_agreeing_indicators {
        lemma_vote_average_unit(cc, price, m, SignalDirection::Bullish);
    } else if bearish >= cc.min_agreeing_indicators {
        lemma_vote_average_unit(cc, price, m, SignalDirection::Bearish);
    }
}

/// Insufficient agreement: when neither side reaches the configured minimum,
/// no confluence event is produced, even if one side holds a plurality.
pub proof fn lemma_confluence_insufficient(
    cc: ConfluenceConfig,
    sym: Seq<char>,
    date: Date,
    price: i64,
    m: Map<Seq<char>, i64>,
)
    requires
        spec_vote_count(cc, price, m, SignalDirection::Bullish) < cc.min_agreeing_indicators,
        spec_vote_count(cc, price, m, SignalDirection::Bearish) < cc.min_agreeing_indicators,
    ensures
        spec_confluence(cc, sym, date, price, m) == Option::<ConfluenceSignalV>::None,
{
}

/// Agreement reached: enough bullish votes always produce a bullish event,
/// whatever the bearish side gathered — bullish is decided first.
pub proof fn lemma_confluence_bullish_priority(
    cc: ConfluenceConfig,
    sym: Seq<char>,
    date: Date,
    price: i64,
    m: Map<Seq<char>, i64>,
)
    requires
        spec_vote_count(cc, price, m, SignalDirection::Bullish) >= cc.min_agreeing_indicators,
    ensures
        spec_confluence(cc, sym, date, price, m) matches Option::Some(c)
            && c.direction == SignalDirection::Bullish
            && c.bullish_count == spec_vote_count(cc, price, m, SignalDirection::Bullish),
{
}

/// Agreement reached on the bearish side alone: a bearish event.
pub proof fn lemma_confluence_bearish(
    cc: ConfluenceConfig,
    sym: Seq<char>,
    date: Date,
    price: i64,
    m: Map<Seq<char>, i64>,
)
    requires
        spec_vote_count(cc, price, m, SignalDirection::Bullish) < cc.min_agreeing_indicators,
        spec_vote_count(cc, price, m, SignalDirection::Bearish) >= cc.min_agreeing_indicators,
    ensures
        spec_confluence(cc, sym, date, price, m) matches Option::Some(c)
            && c.direction == SignalDirection::Bearish
            && c.bearish_count == spec_vote_count(cc, price, m, SignalDirection::Bearish),
{
}

/// A strong-trend multiplier never weakens: once the raw ADX value reaches
/// the divisor's scale of twenty-five, the boosted strength is at least the
/// base strength.
pub proof fn lemma_adx_boost_strengthens(base: int, adx: int)
    requires
        0 <= base <= SCALE,
        adx >= 25 * SCALE,
    ensures
        spec_adx_boost(base, adx) >= base,
{
    if base > 0 {
        let mult = vstd::math::min(adx / 25, (2 * SCALE) as int);
        lemma_div_is_ordered(25 * SCALE, adx, 25);
        lemma_div_multiples_vanish(SCALE as int, 25);
        assert(adx / 25 >= SCALE);
        assert(mult >= SCALE);
        lemma_mul_inequality(SCALE as int, mult, base);
        assert(base * SCALE <= base * mult);
        lemma_div_is_ordered(base * SCALE, base * mult, SCALE as int);
        lemma_div_multiples_vanish(base, SCALE as int);
        lemma_div_pos_is_pos(base * mult, SCALE as int);
    }
}

/// ADX confidence: the same vote set evaluated under a weak trend carries no
/// confidence value and keeps its base strength; under a trend at or beyond
/// the multiplier's neutral point it carries the raw ADX value and a strength
/// at least as large.
pub proof fn lemma_strong_adx_boosts(
    cc: ConfluenceConfig,
    sym: Seq<char>,
    date: Date,
    price: i64,
    m_weak: Map<Seq<char>, i64>,
    m_strong: Map<Seq<char>, i64>,
    adx: i64,
)
    requires
        cc.wf(),
        spec_rsi_vote(cc, m_weak) == spec_rsi_vote(cc, m_strong),
        spec_macd_vote(price, m_weak) == spec_macd_vote(price, m_strong),
        spec_bb_vote(price, m_weak) == spec_bb_vote(price, m_strong),
        spec_stoch_vote(cc, m_weak) == spec_stoch_vote(cc, m_strong),
        spec_cci_vote(cc, m_weak) == spec_cci_vote(cc, m_strong),
        spec_adx_confidence(cc, m_weak) == Option::<i64>::None,
        spec_adx_confidence(cc, m_strong) == Option::Some(adx),
        adx >= 25 * SCALE,
    ensures
        match (spec_confluence(cc, sym, date, price, m_weak), spec_confluence(
            cc,
            sym,
            date,
            price,
            m_strong,
        )) {
            (Option::Some(weak), Option::Some(strong)) => {
                &&& strong.strength >= weak.strength
                &&& weak.adx_confidence is None
                &&& strong.adx_confidence is Some
            },
            (Option::None, Option::None) => true,
            _ => false,
        },
{
    let bullish = spec_vote_count(cc, price, m_weak, SignalDirection::Bullish);
    let bearish = spec_vote_count(cc, price, m_weak, SignalDirection::Bearish);
    assert(spec_vote_count(cc, price, m_strong, SignalDirection::Bullish) == bullish);
    assert(spec_vote_count(cc, price, m_strong, SignalDirection::Bearish) == bearish);
    assert(spec_vote_sum(cc, price, m_strong, SignalDirection::Bullish) == spec_vote_sum(
        cc,
        price,
        m_weak,
        SignalDirection::Bullish,
    ));
    assert(spec_vote_sum(cc, price, m_strong, SignalDirection::Bearish) == spec_vote_sum(
        cc,
        price,
        m_weak,
        SignalDirection::Bearish,
    ));
    if bullish >= cc.min_agreeing_indicators {
        lemma_vote_average_unit(cc, price, m_weak, SignalDirection::Bullish);
        lemma_adx_boost_strengthens(
            spec_vote_sum(cc, price, m_weak, SignalDirection::Bullish) / bullish,
            adx as int,
        );
    } else if bearish >= cc.min_agreeing_indicators {
        lemma_vote_average_unit(cc, price, m_weak, SignalDirection::Bearish);
        lemma_adx_boost_strengthens(
            spec_vote_sum(cc, price, m_weak, SignalDirection::Bearish) / bearish,
            adx as int,
        );
    }
}

/// How many votes of a list point the given way.
pub open spec fn count_direction(votes: Seq<crate::types::IndicatorVoteV>, dir: SignalDirection) -> int
    decreases votes.len(),
{
    if votes.len() == 0 {
        0
    } else {
        count_direction(votes.drop_last(), dir) + (if votes.last().direction == dir {
            1int
        } else {
            0int
        })
    }
}

/// Counting votes distributes over concatenation.
proof fn lemma_count_direction_concat(
    a: Seq<crate::types::IndicatorVoteV>,
    b: Seq<crate::types::IndicatorVoteV>,
    dir: SignalDirection,
)
    ensures
        count_direction(a + b, dir) == count_direction(a, dir) + count_direction(b, dir),
    decreases b.len(),
{
    if b.len() == 0 {
        assert(a + b =~= a);
    } else {
        lemma_count_direction_concat(a, b.drop_last(), dir);
        assert((a + b).drop_last() =~= a + b.drop_last());
        assert((a + b).last() == b.last());
    }
}

/// Audit consistency: the counts an emitted confluence event carries are the
/// directional counts of the vote list it carries.
pub proof fn lemma_confluence_counts_consistent(
    cc: ConfluenceConfig,
    sym: Seq<char>,
    date: Date,
    price: i64,
    m: Map<Seq<char>, i64>,
)
    ensures
        match spec_confluence(cc, sym, date, price, m) {
            Option::Some(c) => {
                &&& c.bullish_count == count_direction(
                    c.contributing_indicators,
                    SignalDirection::Bullish,
                )
                &&& c.bearish_count == count_direction(
                    c.contributing_indicators,
                    SignalDirection::Bearish,
                )
            },
            Option::None => true,
        },
{
    let s1 = crate::confluence::opt_vote_seq(spec_rsi_vote(cc, m));
    let s2 = crate::confluence::opt_vote_seq(spec_macd_vote(price, m));
    let s3 = crate::confluence::opt_vote_seq(spec_bb_vote(price, m));
    let s4 = crate::confluence::opt_vote_seq(spec_stoch_vote(cc, m));
    let s5 = crate::confluence::opt_vote_seq(spec_cci_vote(cc, m));
    lemma_count_direction_concat(s1, s2, SignalDirection::Bullish);
    lemma_count_direction_concat(s1 + s2, s3, SignalDirection::Bullish);
    lemma_count_direction_concat(s1 + s2 + s3, s4, SignalDirection::Bullish);
    lemma_count_direction_concat(s1 + s2 + s3 + s4, s5, SignalDirection::Bullish);
    lemma_count_direction_concat(s1, s2, SignalDirection::Bearish);
    lemma_count_direction_concat(s1 + s2, s3, SignalDirection::Bearish);
    lemma_count_direction_concat(s1 + s2 + s3, s4, SignalDirection::Bearish);
    lemma_count_direction_concat(s1 + s2 + s3 + s4, s5, SignalDirection::Bearish);
    lemma_count_direction_single(spec_rsi_vote(cc, m), SignalDirection::Bullish);
    lemma_count_direction_single(spec_macd_vote(price, m), SignalDirection::Bullish);
    lemma_count_direction_single(spec_bb_vote(price, m), SignalDirection::Bullish);
    lemma_count_direction_single(spec_stoch_vote(cc, m), SignalDirection::Bullish);
    lemma_count_direction_single(spec_cci_vote(cc, m), SignalDirection::Bullish);
    lemma_count_direction_single(spec_rsi_vote(cc, m), SignalDirection::Bearish);
    lemma_count_direction_single(spec_macd_vote(price, m), SignalDirection::Bearish);
    lemma_count_direction_single(spec_bb_vote(price, m), SignalDirection::Bearish);
    lemma_count_direction_single(spec_stoch_vote(cc, m), SignalDirection::Bearish);
    lemma_count_direction_single(spec_cci_vote(cc, m), SignalDirection::Bearish);
}

/// An abstention counts for nothing; a cast vote counts one toward its side.
proof fn lemma_count_direction_single(
    o: Option<crate::types::IndicatorVoteV>,
    dir: SignalDirection,
)
    ensures
        count_direction(crate::confluence::opt_vote_seq(o), dir) == crate::confluence::vote_is(
            o,
            dir,
        ),
{
    assert(count_direction(Seq::<crate::types::IndicatorVoteV>::empty(), dir) == 0);
    match o {
        Option::Some(v) => {
            assert(crate::confluence::opt_vote_seq(o).drop_last()
                =~= Seq::<crate::types::IndicatorVoteV>::empty());
            assert(crate::confluence::opt_vote_seq(o).last() == v);
        },
        Option::None => {},
    }
}

/// Strength clamp for a whole confluence run.
pub proof fn lemma_generate_confluences_unit(
    cc: ConfluenceConfig,
    sym: Seq<char>,
    inds: Seq<TechnicalIndicator>,
    prices: Seq<DailyPrice>,
)
    requires
        cc.wf(),
    ensures
        forall|i: int|
            0 <= i < spec_generate_confluences(cc, sym, inds, prices).len() ==> 0 <= (
            #[trigger] spec_generate_confluences(cc, sym, inds, prices)[i]).strength <= SCALE,
{
    let days = crate::index::spec_index_of(inds);
    lemma_confluences_upto_unit(
        cc,
        sym,
        days,
        crate::engine::spec_price_map(prices),
        days.len() as int,
    );
}

/// Strength clamp over a confluence run prefix.
proof fn lemma_confluences_upto_unit(
    cc: ConfluenceConfig,
    sym: Seq<char>,
    days: Seq<DayView>,
    pm: Map<Date, i64>,
    n: int,
)
    requires
        cc.wf(),
    ensures
        forall|i: int|
            0 <= i < spec_confluences_upto(cc, sym, days, pm, n).len() ==> 0 <= (
            #[trigger] spec_confluences_upto(cc, sym, days, pm, n)[i]).strength <= SCALE,
    decreases n,
{
    if n > 0 {
        lemma_confluences_upto_unit(cc, sym, days, pm, n - 1);
        lemma_confluence_strength_unit(
            cc,
            sym,
            days[n - 1].date,
            crate::engine::spec_price_of(pm, days[n - 1].date),
            days[n - 1].values,
        );
    }
}

} // verus!
