//! The signal engine: configuration and the per-symbol batch entry points.

use vstd::prelude::*;
use crate::config::{default_confluence_config, default_signal_config, ConfluenceConfig,
    SignalConfig};
use crate::confluence::{opt_conf_view, spec_confluence};
use crate::date::Date;
use crate::detectors::{opt_sig_view, opt_view, spec_adx_signal, spec_bollinger_signal,
    spec_cci_signal, spec_macd_signal, spec_ma_crossover_signal, spec_mfi_signal,
    spec_rsi_signal, spec_stochastic_signal, spec_willr_signal};
use crate::index::{spec_index_of, DayView, IndicatorIndex};
use crate::types::{confs_view, signals_view, ConfluenceSignal, ConfluenceSignalV, DailyPrice,
    Signal, SignalV, TechnicalIndicator};
use crate::values::DayValues;

verus! {

/// The closing price each date carries, later records overwriting earlier
/// ones.
pub open spec fn spec_price_map(prices: Seq<DailyPrice>) -> Map<Date, i64>
    decreases prices.len(),
{
    if prices.len() == 0 {
        Map::empty()
    } else {
        spec_price_map(prices.drop_last()).insert(prices.last().date, prices.last().close)
    }
}

/// The closing price on a date, or zero when none was recorded.
pub open spec fn spec_price_of(pm: Map<Date, i64>, d: Date) -> i64 {
    if pm.contains_key(d) {
        pm[d]
    } else {
        0
    }
}

/// Finds the closing price recorded for a date, the last record winning.
fn close_on(prices: &[DailyPrice], d: Date) -> (c: i64)
    ensures
        c == spec_price_of(spec_price_map(prices@), d),
{
    let mut j = prices.len();
    proof {
        assert(prices@.take(j as int) =~= prices@);
    }
    while j > 0
        invariant
            j <= prices@.len(),
            spec_price_of(spec_price_map(prices@), d) == spec_price_of(
                spec_price_map(prices@.take(j as int)),
                d,
            ),
        decreases j,
    {
        j -= 1;
        proof {
            assert(prices@.take(j + 1 as int).drop_last() =~= prices@.take(j as int));
            assert(prices@.take(j + 1 as int).last() == prices@[j as int]);
        }
        if prices[j].date.same(&d) {
            return prices[j].close;
        }
    }
    proof {
        assert(prices@.take(0) =~= Seq::<DailyPrice>::empty());
    }
    0
}

/// A detector's outcome as a sequence: one signal, or none.
pub open spec fn opt_signal_seq(o: Option<SignalV>) -> Seq<SignalV> {
    match o {
        Option::Some(s) => seq![s],
        Option::None => Seq::empty(),
    }
}

/// A confluence outcome as a sequence: one event, or none.
pub open spec fn opt_conf_seq(o: Option<ConfluenceSignalV>) -> Seq<ConfluenceSignalV> {
    match o {
        Option::Some(s) => seq![s],
        Option::None => Seq::empty(),
    }
}

/// Everything one date emits, the nine detectors run in their fixed order.
pub open spec fn spec_signals_at(
    cfg: SignalConfig,
    sym: Seq<char>,
    date: Date,
    price: i64,
    today: Map<Seq<char>, i64>,
    prev: Option<Map<Seq<char>, i64>>,
) -> Seq<SignalV> {
    opt_signal_seq(spec_rsi_signal(cfg, sym, date, price, today, prev)) + opt_signal_seq(
        spec_macd_signal(sym, date, price, today, prev),
    ) + opt_signal_seq(spec_bollinger_signal(sym, date, price, today)) + opt_signal_seq(
        spec_ma_crossover_signal(sym, date, price, today, prev),
    ) + opt_signal_seq(spec_adx_signal(cfg, sym, date, price, today, prev)) + opt_signal_seq(
        spec_stochastic_signal(cfg, sym, date, price, today, prev),
    ) + opt_signal_seq(spec_willr_signal(cfg, sym, date, price, today, prev)) + opt_signal_seq(
        spec_cci_signal(cfg, sym, date, price, today, prev),
    ) + opt_signal_seq(spec_mfi_signal(cfg, sym, date, price, today, prev))
}

/// The lookback map: the values of the nearest earlier date present in the
/// index, absent for the first.
pub open spec fn day_prev(days: Seq<DayView>, i: int) -> Option<Map<Seq<char>, i64>> {
    if i >= 1 {
        Option::Some(days[i - 1].values)
    } else {
        Option::None
    }
}

/// The signals of the first `n` dates of the index, in date order.
pub open spec fn spec_signals_upto(
    cfg: SignalConfig,
    sym: Seq<char>,
    days: Seq<DayView>,
    pm: Map<Date, i64>,
    n: int,
) -> Seq<SignalV>
    decreases n,
{
    if n <= 0 {
        Seq::empty()
    } else {
        spec_signals_upto(cfg, sym, days, pm, n - 1) + spec_signals_at(
            cfg,
            sym,
            days[n - 1].date,
            spec_price_of(pm, days[n - 1].date),
            days[n - 1].values,
            day_prev(days, n - 1),
        )
    }
}

/// Everything a run over a symbol's records emits: empty when either input
/// is empty, else every date of the index in ascending order through the
/// nine detectors.
pub open spec fn spec_generate(
    cfg: SignalConfig,
    sym: Seq<char>,
    inds: Seq<TechnicalIndicator>,
    prices: Seq<DailyPrice>,
) -> Seq<SignalV> {
    if prices.len() == 0 || inds.len() == 0 {
        Seq::empty()
    } else {
        let days = spec_index_of(inds);
        spec_signals_upto(cfg, sym, days, spec_price_map(prices), days.len() as int)
    }
}

/// The confluence events of the first `n` dates of the index.
pub open spec fn spec_confluences_upto(
    cc: ConfluenceConfig,
    sym: Seq<char>,
    days: Seq<DayView>,
    pm: Map<Date, i64>,
    n: int,
) -> Seq<ConfluenceSignalV>
    decreases n,
{
    if n <= 0 {
        Seq::empty()
    } else {
        spec_confluences_upto(cc, sym, days, pm, n - 1) + opt_conf_seq(
            spec_confluence(
                cc,
                sym,
                days[n - 1].date,
                spec_price_of(pm, days[n - 1].date),
                days[n - 1].values,
            ),
        )
    }
}

/// Every confluence event a run emits: one evaluation per date of the index.
pub open spec fn spec_generate_confluences(
    cc: ConfluenceConfig,
    sym: Seq<char>,
    inds: Seq<TechnicalIndicator>,
    prices: Seq<DailyPrice>,
) -> Seq<ConfluenceSignalV> {
    let days = spec_index_of(inds);
    spec_confluences_upto(cc, sym, days, spec_price_map(prices), days.len() as int)
}

/// Appends a detector's outcome, if any.
fn push_signal(signals: &mut Vec<Signal>, o: Option<Signal>)
    ensures
        signals_view(final(signals)@) == signals_view(old(signals)@) + opt_signal_seq(
            opt_sig_view(o),
        ),
{
    match o {
        Option::Some(s) => {
            signals.push(s);
            proof {
                assert(signals_view(signals@) =~= signals_view(old(signals)@) + opt_signal_seq(
                    opt_sig_view(o),
                ));
            }
        },
        Option::None => {
            proof {
                assert(signals_view(signals@) =~= signals_view(old(signals)@) + opt_signal_seq(
                    opt_sig_view(o),
                ));
            }
        },
    }
}

/// The view of a concatenation is the concatenation of the views.
proof fn lemma_signals_view_concat(a: Seq<Signal>, b: Seq<Signal>)
    ensures
        signals_view(a + b) == signals_view(a) + signals_view(b),
{
    assert(signals_view(a + b) =~= signals_view(a) + signals_view(b));
}

/// The signal generator: a configuration pair and nothing else, so every run
/// is a pure function of its arguments.
pub struct SignalEngine {
    pub config: SignalConfig,
    pub confluence_config: ConfluenceConfig,
}


/// Runs the nine detectors for one date, in their fixed order, and collects
/// whatever they emit.
fn day_signals(
    engine: &SignalEngine,
    symbol: &str,
    date: Date,
    price: i64,
    today: &DayValues,
    prev: Option<&DayValues>,
) -> (out: Vec<Signal>)
    requires
        today.wf(),
        crate::detectors::opt_wf(prev),
    ensures
        signals_view(out@) == spec_signals_at(
            engine.config,
            symbol@,
            date,
            price,
            today@,
            opt_view(prev),
        ),
{
    let mut out: Vec<Signal> = Vec::new();
    proof {
        assert(signals_view(out@) =~= Seq::<SignalV>::empty());
    }
    let o1 = engine.detect_rsi_signal(symbol, date, price, today, prev);
    push_signal(&mut out, o1);
    proof {
        assert(Seq::<SignalV>::empty() + opt_signal_seq(opt_sig_view(o1)) =~= opt_signal_seq(
            opt_sig_view(o1),
        ));
    }
    let o2 = engine.detect_macd_signal(symbol, date, price, today, prev);
    push_signal(&mut out, o2);
    let o3 = engine.detect_bollinger_signal(symbol, date, price, today);
    push_signal(&mut out, o3);
    let o4 = engine.detect_ma_crossover_signal(symbol, date, price, today, prev);
    push_signal(&mut out, o4);
    let o5 = engine.detect_adx_signal(symbol, date, price, today, prev);
    push_signal(&mut out, o5);
    let o6 = engine.detect_stochastic_signal(symbol, date, price, today, prev);
    push_signal(&mut out, o6);
    let o7 = engine.detect_willr_signal(symbol, date, price, today, prev);
    push_signal(&mut out, o7);
    let o8 = engine.detect_cci_signal(symbol, date, price, today, prev);
    push_signal(&mut out, o8);
    let o9 = engine.detect_mfi_signal(symbol, date, price, today, prev);
    push_signal(&mut out, o9);
    out
}

impl SignalEngine {
    /// An engine with the documented default thresholds.
    pub fn new() -> (e: SignalEngine)
        ensures
            e.config == default_signal_config(),
            e.confluence_config == default_confluence_config(),
            e.confluence_config.wf(),
    {
        SignalEngine {
            config: SignalConfig::default(),
            confluence_config: ConfluenceConfig::default(),
        }
    }

    /// An engine with the given detector thresholds and default confluence
    /// thresholds.
    pub fn with_config(config: SignalConfig) -> (e: SignalEngine)
        ensures
            e.config == config,
            e.confluence_config == default_confluence_config(),
            e.confluence_config.wf(),
    {
        SignalEngine { config, confluence_config: ConfluenceConfig::default() }
    }

    /// The same engine with the confluence thresholds replaced.
    pub fn with_confluence_config(self, confluence_config: ConfluenceConfig) -> (e: SignalEngine)
        ensures
            e.config == self.config,
            e.confluence_config == confluence_config,
    {
        SignalEngine { config: self.config, confluence_config }
    }

    /// Runs the nine detectors over every date of a symbol's indicator
    /// records, ascending, and collects what they emit.
    #[verifier::rlimit(100)]
    pub fn generate_signals(
        &self,
        symbol: &str,
        indicators: &[TechnicalIndicator],
        prices: &[DailyPrice],
    ) -> (signals: Vec<Signal>)
        ensures
            signals_view(signals@) == spec_generate(self.config, symbol@, indicators@, prices@),
    {
        let mut signals: Vec<Signal> = Vec::new();
        if prices.len() == 0 || indicators.len() == 0 {
            proof {
                assert(signals_view(signals@) =~= Seq::<SignalV>::empty());
            }
            return signals;
        }
        let index = IndicatorIndex::build(indicators);
        let ghost days = index@;
        let ghost pm = spec_price_map(prices@);
        let n = index.days.len();
        let mut i: usize = 0;
        proof {
            assert(signals_view(signals@) =~= Seq::<SignalV>::empty());
        }
        while i < n
            invariant
                index.wf(),
                index@ == days,
                days == spec_index_of(indicators@),
                n == index.days@.len(),
                0 <= i <= n,
                signals_view(signals@) == spec_signals_upto(
                    self.config,
                    symbol@,
                    days,
                    pm,
                    i as int,
                ),
                pm == spec_price_map(prices@),
            decreases n - i,
        {
            let ghost s_before = signals@;
            let day = &index.days[i];
            let price = close_on(prices, day.date);
            let prev: Option<&DayValues> = if i > 0 {
                Option::Some(&index.days[i - 1].values)
            } else {
                Option::None
            };
            proof {
                assert(days[i as int] == index.days@[i as int]@);
                assert(opt_view(prev) == day_prev(days, i as int));
            }
            let mut day_out = day_signals(self, symbol, day.date, price, &day.values, prev);
            let ghost d_out = day_out@;
            signals.append(&mut day_out);
            proof {
                lemma_signals_view_concat(s_before, d_out);
            }
            i += 1;
        }
        signals
    }

    /// Runs the detectors and, once per date, the confluence aggregator.
    pub fn generate_signals_with_confluence(
        &self,
        symbol: &str,
        indicators: &[TechnicalIndicator],
        prices: &[DailyPrice],
    ) -> (r: (Vec<Signal>, Vec<ConfluenceSignal>))
        requires
            self.confluence_config.wf(),
        ensures
            signals_view(r.0@) == spec_generate(self.config, symbol@, indicators@, prices@),
            confs_view(r.1@) == spec_generate_confluences(
                self.confluence_config,
                symbol@,
                indicators@,
                prices@,
            ),
    {
        let individual = self.generate_signals(symbol, indicators, prices);
        let index = IndicatorIndex::build(indicators);
        let ghost days = index@;
        let ghost pm = spec_price_map(prices@);
        let mut confluences: Vec<ConfluenceSignal> = Vec::new();
        let n = index.days.len();
        let mut i: usize = 0;
        proof {
            assert(confs_view(confluences@) =~= Seq::<ConfluenceSignalV>::empty());
        }
        while i < n
            invariant
                index.wf(),
                index@ == days,
                days == spec_index_of(indicators@),
                n == index.days@.len(),
                0 <= i <= n,
                self.confluence_config.wf(),
                confs_view(confluences@) == spec_confluences_upto(
                    self.confluence_config,
                    symbol@,
                    days,
                    pm,
                    i as int,
                ),
                pm == spec_price_map(prices@),
            decreases n - i,
        {
            let ghost before = confs_view(confluences@);
            let day = &index.days[i];
            let price = close_on(prices, day.date);
            proof {
                assert(days[i as int] == index.days@[i as int]@);
            }
            let o = self.detect_confluence_signal(symbol, day.date, price, &day.values);
            match o {
                Option::Some(c) => {
                    confluences.push(c);
                },
                Option::None => {},
            }
            proof {
                assert(confs_view(confluences@) =~= before + opt_conf_seq(opt_conf_view(o)));
            }
            i += 1;
        }
        (individual, confluences)
    }
}

impl Default for SignalEngine {
    fn default() -> (e: Self)
        ensures
            e.config == default_signal_config(),
            e.confluence_config == default_confluence_config(),
    {
        SignalEngine::new()
    }
}

} // verus!
