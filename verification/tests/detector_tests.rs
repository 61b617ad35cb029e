use signal_engine::date::Date;
use signal_engine::engine::SignalEngine;
use signal_engine::fixed::SCALE;
use signal_engine::types::{DailyPrice, SignalDirection, SignalType, TechnicalIndicator};

fn day(d: u8) -> Date {
    Date { year: 2024, month: 3, day: d }
}

fn bar(d: u8, close: i64) -> DailyPrice {
    DailyPrice { date: day(d), open: close, high: close, low: close, close, volume: 1000 }
}

fn ind(d: u8, name: &str, value: i64) -> TechnicalIndicator {
    TechnicalIndicator { date: day(d), indicator_name: name.to_string(), value }
}

#[test]
fn test_rsi_crossing_not_level() {
    // RSI 65, 72, 74, 68 on four consecutive dates: only the second date
    // crosses the overbought bound, the third merely stays above it.
    let engine = SignalEngine::new();
    let indicators = vec![
        ind(1, "RSI_14", 65 * SCALE),
        ind(2, "RSI_14", 72 * SCALE),
        ind(3, "RSI_14", 74 * SCALE),
        ind(4, "RSI_14", 68 * SCALE),
    ];
    let prices = vec![bar(1, 100 * SCALE), bar(2, 100 * SCALE), bar(3, 100 * SCALE), bar(
        4,
        100 * SCALE,
    )];
    let signals = engine.generate_signals("AAPL", &indicators, &prices);
    assert_eq!(signals.len(), 1);
    assert_eq!(signals[0].signal_type, SignalType::RsiOverbought);
    assert_eq!(signals[0].direction, SignalDirection::Bearish);
    assert_eq!(signals[0].timestamp, day(2));
    assert_eq!(signals[0].trigger_value, 72 * SCALE);
}

#[test]
fn test_rsi_cold_start() {
    // A single date with RSI 75 and no prior date fires on that first date,
    // strength (75 - 70) / 30 of the unit scale, floored.
    let engine = SignalEngine::new();
    let indicators = vec![ind(7, "RSI_14", 75 * SCALE)];
    let prices = vec![bar(7, 100 * SCALE)];
    let signals = engine.generate_signals("AAPL", &indicators, &prices);
    assert_eq!(signals.len(), 1);
    assert_eq!(signals[0].signal_type, SignalType::RsiOverbought);
    assert_eq!(signals[0].direction, SignalDirection::Bearish);
    assert_eq!(signals[0].strength, 1666);
    assert_eq!(signals[0].triggered_by, "RSI_14");
    assert_eq!(signals[0].id, 0);
    assert_eq!(signals[0].created_at, "");
    assert!(!signals[0].acknowledged);
}

#[test]
fn test_rsi_recross_fires_again() {
    // Dropping back under the bound and crossing again fires a second time.
    let engine = SignalEngine::new();
    let indicators = vec![
        ind(1, "RSI_14", 72 * SCALE),
        ind(2, "RSI_14", 65 * SCALE),
        ind(3, "RSI_14", 71 * SCALE),
    ];
    let prices = vec![bar(1, 100 * SCALE), bar(2, 100 * SCALE), bar(3, 100 * SCALE)];
    let signals = engine.generate_signals("AAPL", &indicators, &prices);
    assert_eq!(signals.len(), 2);
    assert_eq!(signals[0].timestamp, day(1));
    assert_eq!(signals[1].timestamp, day(3));
}

#[test]
fn test_macd_cross_strength() {
    // Yesterday the line sat under its signal, today above: a bullish cross
    // with strength |1.5 - 1.45| / 100 * 100 of the unit scale.
    let engine = SignalEngine::new();
    let indicators = vec![
        ind(1, "MACD_12_26", 1 * SCALE),
        ind(1, "MACD_SIGNAL_9", 2 * SCALE),
        ind(2, "MACD_12_26", 15 * SCALE / 10),
        ind(2, "MACD_SIGNAL_9", 145 * SCALE / 100),
    ];
    let prices = vec![bar(1, 100 * SCALE), bar(2, 100 * SCALE)];
    let signals = engine.generate_signals("AAPL", &indicators, &prices);
    assert_eq!(signals.len(), 1);
    assert_eq!(signals[0].signal_type, SignalType::MacdBullishCross);
    assert_eq!(signals[0].direction, SignalDirection::Bullish);
    assert_eq!(signals[0].strength, 500);
    assert_eq!(signals[0].triggered_by, "MACD");
}

#[test]
fn test_macd_needs_both_days() {
    // Without yesterday's values the MACD detector abstains.
    let engine = SignalEngine::new();
    let indicators = vec![
        ind(2, "MACD_12_26", 15 * SCALE / 10),
        ind(2, "MACD_SIGNAL_9", 1 * SCALE),
    ];
    let prices = vec![bar(2, 100 * SCALE)];
    let signals = engine.generate_signals("AAPL", &indicators, &prices);
    assert_eq!(signals.len(), 0);
}

#[test]
fn test_bollinger_level_break() {
    // A level test with no lookback: price 106 over the 105 band, against a
    // band half-width of 5, is a fifth of the unit scale.
    let engine = SignalEngine::new();
    let indicators = vec![
        ind(1, "BB_UPPER_20", 105 * SCALE),
        ind(1, "BB_MIDDLE_20", 100 * SCALE),
        ind(1, "BB_LOWER_20", 95 * SCALE),
    ];
    let prices = vec![bar(1, 106 * SCALE)];
    let signals = engine.generate_signals("AAPL", &indicators, &prices);
    assert_eq!(signals.len(), 1);
    assert_eq!(signals[0].signal_type, SignalType::BollingerUpperBreak);
    assert_eq!(signals[0].direction, SignalDirection::Bearish);
    assert_eq!(signals[0].strength, 2000);
    assert_eq!(signals[0].trigger_value, 105 * SCALE);
}

#[test]
fn test_ma_crossover_saturates() {
    // The golden-cross strength formula is an unnormalized percentage gap
    // and saturates at the clamp.
    let engine = SignalEngine::new();
    let indicators = vec![
        ind(1, "SMA_20", 99 * SCALE),
        ind(1, "SMA_50", 100 * SCALE),
        ind(2, "SMA_20", 101 * SCALE),
        ind(2, "SMA_50", 100 * SCALE),
    ];
    let prices = vec![bar(1, 100 * SCALE), bar(2, 100 * SCALE)];
    let signals = engine.generate_signals("AAPL", &indicators, &prices);
    assert_eq!(signals.len(), 1);
    assert_eq!(signals[0].signal_type, SignalType::MaCrossoverBullish);
    assert_eq!(signals[0].strength, SCALE);
    assert_eq!(signals[0].triggered_by, "SMA_20/50");
}

#[test]
fn test_adx_strong_trend_is_neutral() {
    let engine = SignalEngine::new();
    let indicators = vec![ind(1, "ADX_14", 20 * SCALE), ind(2, "ADX_14", 30 * SCALE)];
    let prices = vec![bar(1, 100 * SCALE), bar(2, 100 * SCALE)];
    let signals = engine.generate_signals("AAPL", &indicators, &prices);
    assert_eq!(signals.len(), 1);
    assert_eq!(signals[0].signal_type, SignalType::AdxTrendStrong);
    assert_eq!(signals[0].direction, SignalDirection::Neutral);
    assert_eq!(signals[0].strength, (30 - 25) * SCALE / 25);
}

#[test]
fn test_stochastic_bullish_cross() {
    // %K crosses %D inside the near-oversold band.
    let engine = SignalEngine::new();
    let indicators = vec![
        ind(1, "STOCH_K_14", 10 * SCALE),
        ind(1, "STOCH_D_3", 12 * SCALE),
        ind(2, "STOCH_K_14", 15 * SCALE),
        ind(2, "STOCH_D_3", 13 * SCALE),
    ];
    let prices = vec![bar(1, 100 * SCALE), bar(2, 100 * SCALE)];
    let signals = engine.generate_signals("AAPL", &indicators, &prices);
    assert_eq!(signals.len(), 1);
    assert_eq!(signals[0].signal_type, SignalType::StochBullishCross);
    assert_eq!(signals[0].strength, 2 * SCALE / 20);
    assert_eq!(signals[0].trigger_value, 15 * SCALE);
}

#[test]
fn test_willr_overbought_cross() {
    let engine = SignalEngine::new();
    let indicators = vec![ind(1, "WILLR_14", -30 * SCALE), ind(2, "WILLR_14", -15 * SCALE)];
    let prices = vec![bar(1, 100 * SCALE), bar(2, 100 * SCALE)];
    let signals = engine.generate_signals("AAPL", &indicators, &prices);
    assert_eq!(signals.len(), 1);
    assert_eq!(signals[0].signal_type, SignalType::WillrOverbought);
    assert_eq!(signals[0].direction, SignalDirection::Bearish);
    assert_eq!(signals[0].strength, 5 * SCALE / 20);
}

#[test]
fn test_cci_oversold_cold_start() {
    let engine = SignalEngine::new();
    let indicators = vec![ind(1, "CCI_20", -150 * SCALE)];
    let prices = vec![bar(1, 100 * SCALE)];
    let signals = engine.generate_signals("AAPL", &indicators, &prices);
    assert_eq!(signals.len(), 1);
    assert_eq!(signals[0].signal_type, SignalType::CciOversold);
    assert_eq!(signals[0].direction, SignalDirection::Bullish);
    assert_eq!(signals[0].strength, 50 * SCALE / 100);
}

#[test]
fn test_mfi_overbought_cross() {
    let engine = SignalEngine::new();
    let indicators = vec![ind(1, "MFI_14", 70 * SCALE), ind(2, "MFI_14", 90 * SCALE)];
    let prices = vec![bar(1, 100 * SCALE), bar(2, 100 * SCALE)];
    let signals = engine.generate_signals("AAPL", &indicators, &prices);
    assert_eq!(signals.len(), 1);
    assert_eq!(signals[0].signal_type, SignalType::MfiOverbought);
    assert_eq!(signals[0].strength, 10 * SCALE / 20);
}

#[test]
fn test_strength_clamp_randomized() {
    // Pseudo-random synthetic inputs: every reported strength stays inside
    // the unit interval.
    let engine = SignalEngine::new();
    let mut state: u64 = 0x2545F4914F6CDD1D;
    let mut next = move || {
        state ^= state << 13;
        state ^= state >> 7;
        state ^= state << 17;
        state
    };
    let names = [
        "RSI_14", "MACD_12_26", "MACD_SIGNAL_9", "BB_UPPER_20", "BB_MIDDLE_20", "BB_LOWER_20",
        "SMA_20", "SMA_50", "ADX_14", "STOCH_K_14", "STOCH_D_3", "WILLR_14", "CCI_20", "MFI_14",
    ];
    for round in 0..20 {
        let mut indicators = Vec::new();
        let mut prices = Vec::new();
        for d in 1..15u8 {
            for name in names.iter() {
                if next() % 4 != 0 {
                    let value = (next() % (400 * SCALE as u64)) as i64 - 200 * SCALE;
                    indicators.push(ind(d, name, value));
                }
            }
            let close = (next() % (300 * SCALE as u64)) as i64 - 50 * SCALE;
            prices.push(bar(d, close));
        }
        let (signals, confluences) =
            engine.generate_signals_with_confluence("RAND", &indicators, &prices);
        for s in &signals {
            assert!(0 <= s.strength && s.strength <= SCALE, "round {round}: signal strength");
        }
        for c in &confluences {
            assert!(0 <= c.strength && c.strength <= SCALE, "round {round}: confluence strength");
            for v in &c.contributing_indicators {
                assert!(0 <= v.strength && v.strength <= SCALE, "round {round}: vote strength");
            }
        }
    }
}
