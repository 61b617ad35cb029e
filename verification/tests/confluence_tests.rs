use signal_engine::date::Date;
use signal_engine::engine::SignalEngine;
use signal_engine::fixed::SCALE;
use signal_engine::types::SignalDirection;
use signal_engine::values::DayValues;

#[test]
fn test_detect_confluence_bullish() {
    let engine = SignalEngine::new();
    let date = Date::from_ymd(2026, 1, 21);

    // Indicators that should trigger bullish confluence.
    let mut indicators = DayValues::new();
    indicators.set("RSI_14".to_string(), 25 * SCALE); // Below 30 = Bullish
    indicators.set("MACD_12_26".to_string(), 15 * SCALE / 10); // MACD > Signal = Bullish
    indicators.set("MACD_SIGNAL_9".to_string(), 1 * SCALE);
    indicators.set("STOCH_K_14".to_string(), 15 * SCALE); // Below 20 = Bullish
    indicators.set("CCI_20".to_string(), -150 * SCALE); // Below -100 = Bullish
    indicators.set("BB_UPPER_20".to_string(), 110 * SCALE);
    indicators.set("BB_LOWER_20".to_string(), 90 * SCALE);
    indicators.set("ADX_14".to_string(), 30 * SCALE); // Strong trend

    let price = 95 * SCALE; // Below BB_LOWER, adds a fifth bullish vote

    let result = engine.detect_confluence_signal("AAPL", date, price, &indicators);

    assert!(result.is_some(), "Confluence should fire with 5 bullish indicators");
    let confluence = result.unwrap();
    assert_eq!(confluence.direction, SignalDirection::Bullish);
    assert!(confluence.strength > 0, "Strength should be positive");
    assert!(confluence.bullish_count >= 3, "Should have at least 3 bullish votes");
    assert!(confluence.adx_confidence.is_some(), "ADX > 25 should provide confidence");
    assert_eq!(confluence.symbol, "AAPL");
}

#[test]
fn test_detect_confluence_bearish() {
    let engine = SignalEngine::new();
    let date = Date::from_ymd(2026, 1, 21);

    // Indicators that should trigger bearish confluence.
    let mut indicators = DayValues::new();
    indicators.set("RSI_14".to_string(), 80 * SCALE); // Above 70 = Bearish
    indicators.set("MACD_12_26".to_string(), 5 * SCALE / 10); // MACD < Signal = Bearish
    indicators.set("MACD_SIGNAL_9".to_string(), 1 * SCALE);
    indicators.set("STOCH_K_14".to_string(), 85 * SCALE); // Above 80 = Bearish
    indicators.set("CCI_20".to_string(), 150 * SCALE); // Above 100 = Bearish
    indicators.set("BB_UPPER_20".to_string(), 100 * SCALE);
    indicators.set("BB_LOWER_20".to_string(), 80 * SCALE);

    let price = 105 * SCALE; // Above BB_UPPER = Bearish

    let result = engine.detect_confluence_signal("TSLA", date, price, &indicators);

    assert!(result.is_some(), "Confluence should fire with bearish indicators");
    let confluence = result.unwrap();
    assert_eq!(confluence.direction, SignalDirection::Bearish);
    assert!(confluence.bearish_count >= 3, "Should have at least 3 bearish votes");
}

#[test]
fn test_detect_confluence_insufficient_agreement() {
    let engine = SignalEngine::new();
    let date = Date::from_ymd(2026, 1, 21);

    // Mixed signals: only 2 bullish, 1 bearish, so no confluence.
    let mut indicators = DayValues::new();
    indicators.set("RSI_14".to_string(), 25 * SCALE); // Bullish
    indicators.set("MACD_12_26".to_string(), 5 * SCALE / 10); // Bearish (MACD < Signal)
    indicators.set("MACD_SIGNAL_9".to_string(), 1 * SCALE);
    indicators.set("STOCH_K_14".to_string(), 15 * SCALE); // Bullish
    indicators.set("CCI_20".to_string(), 50 * SCALE); // Neutral (between -100 and 100)
    indicators.set("BB_UPPER_20".to_string(), 110 * SCALE);
    indicators.set("BB_LOWER_20".to_string(), 90 * SCALE);

    let price = 100 * SCALE; // Neutral (within bands)

    let result = engine.detect_confluence_signal("MSFT", date, price, &indicators);

    assert!(result.is_none(), "Confluence should NOT fire with only 2 agreeing indicators");
}

#[test]
fn test_confluence_adx_multiplier() {
    let engine = SignalEngine::new();
    let date = Date::from_ymd(2026, 1, 21);

    // The same bullish setup, with and without a strong ADX.
    let mut indicators_weak_adx = DayValues::new();
    indicators_weak_adx.set("RSI_14".to_string(), 25 * SCALE);
    indicators_weak_adx.set("MACD_12_26".to_string(), 15 * SCALE / 10);
    indicators_weak_adx.set("MACD_SIGNAL_9".to_string(), 1 * SCALE);
    indicators_weak_adx.set("STOCH_K_14".to_string(), 15 * SCALE);
    indicators_weak_adx.set("CCI_20".to_string(), -150 * SCALE);
    indicators_weak_adx.set("ADX_14".to_string(), 15 * SCALE); // Weak trend

    let mut indicators_strong_adx = DayValues::new();
    indicators_strong_adx.set("RSI_14".to_string(), 25 * SCALE);
    indicators_strong_adx.set("MACD_12_26".to_string(), 15 * SCALE / 10);
    indicators_strong_adx.set("MACD_SIGNAL_9".to_string(), 1 * SCALE);
    indicators_strong_adx.set("STOCH_K_14".to_string(), 15 * SCALE);
    indicators_strong_adx.set("CCI_20".to_string(), -150 * SCALE);
    indicators_strong_adx.set("ADX_14".to_string(), 40 * SCALE); // Strong trend

    let price = 100 * SCALE;

    let result_weak = engine.detect_confluence_signal("TEST", date, price, &indicators_weak_adx);
    let result_strong = engine.detect_confluence_signal("TEST", date, price, &indicators_strong_adx);

    assert!(result_weak.is_some());
    assert!(result_strong.is_some());

    let weak = result_weak.unwrap();
    let strong = result_strong.unwrap();

    assert!(weak.adx_confidence.is_none(), "Weak ADX should not provide confidence");
    assert!(strong.adx_confidence.is_some(), "Strong ADX should provide confidence");
    assert!(
        strong.strength >= weak.strength,
        "Strong ADX should boost strength"
    );
}

#[test]
fn test_confluence_vote_strengths_exact() {
    // Four bullish votes with hand-computed strengths:
    // RSI 25: (30-25)/30 of the unit scale; MACD gap 0.5 against price 100;
    // stochastic 15: (20-15)/20; CCI -150: (-100 - -150)/100.
    let engine = SignalEngine::new();
    let date = Date::from_ymd(2024, 6, 3);
    let mut indicators = DayValues::new();
    indicators.set("RSI_14".to_string(), 25 * SCALE);
    indicators.set("MACD_12_26".to_string(), 15 * SCALE / 10);
    indicators.set("MACD_SIGNAL_9".to_string(), 1 * SCALE);
    indicators.set("STOCH_K_14".to_string(), 15 * SCALE);
    indicators.set("CCI_20".to_string(), -150 * SCALE);
    let price = 100 * SCALE;

    let c = engine.detect_confluence_signal("XYZ", date, price, &indicators).unwrap();
    assert_eq!(c.bullish_count, 4);
    assert_eq!(c.bearish_count, 0);
    assert_eq!(c.contributing_indicators.len(), 4);
    assert_eq!(c.contributing_indicators[0].indicator_name, "RSI_14");
    assert_eq!(c.contributing_indicators[0].strength, 1666);
    assert_eq!(c.contributing_indicators[1].indicator_name, "MACD");
    assert_eq!(c.contributing_indicators[1].strength, 5000);
    assert_eq!(c.contributing_indicators[2].indicator_name, "STOCH_K");
    assert_eq!(c.contributing_indicators[2].strength, 2500);
    assert_eq!(c.contributing_indicators[3].indicator_name, "CCI_20");
    assert_eq!(c.contributing_indicators[3].strength, 5000);
    // No ADX: the strength is the plain average of the four votes.
    assert_eq!(c.adx_confidence, None);
    assert_eq!(c.strength, (1666 + 5000 + 2500 + 5000) / 4);
}

#[test]
fn test_adx_boost_exact() {
    // The same vote set as above with ADX 40: multiplier 40/25 = 1.6, so the
    // base average 3541 becomes 5665, and the raw ADX value is reported.
    let engine = SignalEngine::new();
    let date = Date::from_ymd(2024, 6, 3);
    let mut indicators = DayValues::new();
    indicators.set("RSI_14".to_string(), 25 * SCALE);
    indicators.set("MACD_12_26".to_string(), 15 * SCALE / 10);
    indicators.set("MACD_SIGNAL_9".to_string(), 1 * SCALE);
    indicators.set("STOCH_K_14".to_string(), 15 * SCALE);
    indicators.set("CCI_20".to_string(), -150 * SCALE);
    indicators.set("ADX_14".to_string(), 40 * SCALE);
    let price = 100 * SCALE;

    let c = engine.detect_confluence_signal("XYZ", date, price, &indicators).unwrap();
    assert_eq!(c.adx_confidence, Some(40 * SCALE));
    assert_eq!(c.strength, 3541 * 16000 / SCALE);
}

#[test]
fn test_confluence_bb_vote_value_is_price() {
    // The band vote reports the closing price as its raw value.
    let engine = SignalEngine::new();
    let date = Date::from_ymd(2024, 6, 4);
    let mut indicators = DayValues::new();
    indicators.set("BB_UPPER_20".to_string(), 110 * SCALE);
    indicators.set("BB_LOWER_20".to_string(), 90 * SCALE);
    indicators.set("RSI_14".to_string(), 20 * SCALE);
    indicators.set("STOCH_K_14".to_string(), 10 * SCALE);
    let price = 85 * SCALE; // below the lower band

    let c = engine.detect_confluence_signal("XYZ", date, price, &indicators).unwrap();
    assert_eq!(c.bullish_count, 3);
    let bb = c
        .contributing_indicators
        .iter()
        .find(|v| v.indicator_name == "BB_LOWER")
        .unwrap();
    assert_eq!(bb.value, price);
    // Overshoot 5 against half the band width 10: strength one half.
    assert_eq!(bb.strength, 5000);
}
