use signal_engine::date::Date;
use signal_engine::engine::SignalEngine;
use signal_engine::fixed::SCALE;
use signal_engine::types::{DailyPrice, Signal, SignalType, TechnicalIndicator};
use signal_engine::values::DayValues;

fn day(d: u8) -> Date {
    Date { year: 2024, month: 5, day: d }
}

fn bar(d: u8, close: i64) -> DailyPrice {
    DailyPrice { date: day(d), open: close, high: close, low: close, close, volume: 500 }
}

fn ind(d: u8, name: &str, value: i64) -> TechnicalIndicator {
    TechnicalIndicator { date: day(d), indicator_name: name.to_string(), value }
}

fn same_signal(a: &Signal, b: &Signal) -> bool {
    a.id == b.id && a.symbol == b.symbol && a.signal_type == b.signal_type && a.direction
        == b.direction && a.strength == b.strength && a.price_at_signal == b.price_at_signal
        && a.triggered_by == b.triggered_by && a.trigger_value == b.trigger_value && a.timestamp
        == b.timestamp && a.created_at == b.created_at && a.acknowledged == b.acknowledged
}

#[test]
fn test_generate_deterministic() {
    // Two runs over the same inputs agree item for item.
    let engine = SignalEngine::new();
    let indicators = vec![
        ind(1, "RSI_14", 65 * SCALE),
        ind(2, "RSI_14", 75 * SCALE),
        ind(2, "CCI_20", 150 * SCALE),
        ind(3, "MFI_14", 10 * SCALE),
    ];
    let prices = vec![bar(1, 90 * SCALE), bar(2, 91 * SCALE), bar(3, 92 * SCALE)];
    let first = engine.generate_signals("NVDA", &indicators, &prices);
    let second = engine.generate_signals("NVDA", &indicators, &prices);
    assert_eq!(first.len(), second.len());
    for (a, b) in first.iter().zip(second.iter()) {
        assert!(same_signal(a, b));
    }
}

#[test]
fn test_generate_empty_inputs() {
    let engine = SignalEngine::new();
    let indicators = vec![ind(1, "RSI_14", 75 * SCALE)];
    let prices = vec![bar(1, 100 * SCALE)];
    assert!(engine.generate_signals("AAPL", &indicators, &[]).is_empty());
    assert!(engine.generate_signals("AAPL", &[], &prices).is_empty());
    assert!(engine.generate_signals("AAPL", &[], &[]).is_empty());
}

#[test]
fn test_duplicate_records_last_write_wins() {
    // Two records for the same date and name: the later one in input order
    // decides what the detector sees.
    let engine = SignalEngine::new();
    let indicators = vec![ind(1, "RSI_14", 65 * SCALE), ind(1, "RSI_14", 75 * SCALE)];
    let prices = vec![bar(1, 100 * SCALE)];
    let signals = engine.generate_signals("AAPL", &indicators, &prices);
    assert_eq!(signals.len(), 1);
    assert_eq!(signals[0].trigger_value, 75 * SCALE);
}

#[test]
fn test_dates_processed_ascending() {
    // Records arrive out of date order; the crossing logic still sees the
    // earlier date as the lookback of the later one, and the output is in
    // ascending date order.
    let engine = SignalEngine::new();
    let indicators = vec![
        ind(3, "RSI_14", 65 * SCALE),
        ind(1, "RSI_14", 75 * SCALE),
        ind(2, "RSI_14", 76 * SCALE),
    ];
    let prices = vec![bar(1, 100 * SCALE), bar(2, 100 * SCALE), bar(3, 100 * SCALE)];
    let signals = engine.generate_signals("AAPL", &indicators, &prices);
    // Only the first date crosses: the second stays above the bound.
    assert_eq!(signals.len(), 1);
    assert_eq!(signals[0].timestamp, day(1));
}

#[test]
fn test_gap_dates_use_previous_present_date() {
    // The lookback is the nearest earlier date present in the index, not the
    // calendar-previous day.
    let engine = SignalEngine::new();
    let indicators = vec![ind(1, "RSI_14", 72 * SCALE), ind(9, "RSI_14", 74 * SCALE)];
    let prices = vec![bar(1, 100 * SCALE), bar(9, 100 * SCALE)];
    let signals = engine.generate_signals("AAPL", &indicators, &prices);
    // The second date was already overbought on the nearest earlier date.
    assert_eq!(signals.len(), 1);
    assert_eq!(signals[0].timestamp, day(1));
}

#[test]
fn test_missing_price_defaults_to_zero() {
    // A date with indicators but no price bar evaluates at price zero.
    let engine = SignalEngine::new();
    let indicators = vec![
        ind(2, "BB_UPPER_20", -10 * SCALE),
        ind(2, "BB_MIDDLE_20", -20 * SCALE),
        ind(2, "BB_LOWER_20", -30 * SCALE),
    ];
    let prices = vec![bar(1, 100 * SCALE)];
    let signals = engine.generate_signals("AAPL", &indicators, &prices);
    assert_eq!(signals.len(), 1);
    assert_eq!(signals[0].signal_type, SignalType::BollingerUpperBreak);
    assert_eq!(signals[0].price_at_signal, 0);
}

#[test]
fn test_generate_with_confluence_parallel_lists() {
    let engine = SignalEngine::new();
    let indicators = vec![
        ind(1, "RSI_14", 25 * SCALE),
        ind(1, "MACD_12_26", 15 * SCALE / 10),
        ind(1, "MACD_SIGNAL_9", 1 * SCALE),
        ind(1, "STOCH_K_14", 15 * SCALE),
        ind(1, "CCI_20", -150 * SCALE),
    ];
    let prices = vec![bar(1, 100 * SCALE)];
    let (signals, confluences) =
        engine.generate_signals_with_confluence("AAPL", &indicators, &prices);
    // Individual crossings fire too (RSI, stochastic abstains without %D,
    // CCI), and one confluence event with four bullish votes.
    assert!(!signals.is_empty());
    assert_eq!(confluences.len(), 1);
    assert_eq!(confluences[0].bullish_count, 4);
    assert_eq!(confluences[0].price_at_signal, 100 * SCALE);
    assert_eq!(confluences[0].id, 0);
    assert_eq!(confluences[0].created_at, "");
}

#[test]
fn test_confluence_runs_without_prices() {
    // The confluence pass evaluates every date even with no price bars; the
    // individual pass returns nothing then.
    let engine = SignalEngine::new();
    let indicators = vec![
        ind(1, "RSI_14", 25 * SCALE),
        ind(1, "STOCH_K_14", 15 * SCALE),
        ind(1, "CCI_20", -150 * SCALE),
    ];
    let (signals, confluences) = engine.generate_signals_with_confluence("AAPL", &indicators, &[]);
    assert!(signals.is_empty());
    assert_eq!(confluences.len(), 1);
    assert_eq!(confluences[0].bullish_count, 3);
    // With a higher minimum the same three votes no longer suffice.
    let strict = engine.with_confluence_config(signal_engine::config::ConfluenceConfig {
        min_agreeing_indicators: 4,
        ..Default::default()
    });
    let (_, none_now) = strict.generate_signals_with_confluence("AAPL", &indicators, &[]);
    assert!(none_now.is_empty());
}

#[test]
fn test_day_values_lookup() {
    let mut vals = DayValues::new();
    assert_eq!(vals.get(&"RSI_14".to_string()), None);
    vals.set("RSI_14".to_string(), 10 * SCALE);
    vals.set("CCI_20".to_string(), 20 * SCALE);
    vals.set("RSI_14".to_string(), 30 * SCALE);
    assert_eq!(vals.get(&"RSI_14".to_string()), Some(30 * SCALE));
    assert_eq!(vals.get(&"CCI_20".to_string()), Some(20 * SCALE));
    assert_eq!(vals.get(&"MFI_14".to_string()), None);
}
