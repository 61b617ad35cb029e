use signal_engine::api::{QueueResponse, SchedulerStatusResponse};
use signal_engine::schedule::{et_offset_hours, execution_price, get_base_path, is_market_hours,
    is_market_open_window, parse_trade_action, TradeAction};

#[test]
fn test_et_offset_hours() {
    assert_eq!(et_offset_hours(1), 5);
    assert_eq!(et_offset_hours(3), 5);
    assert_eq!(et_offset_hours(4), 4);
    assert_eq!(et_offset_hours(7), 4);
    assert_eq!(et_offset_hours(10), 4);
    assert_eq!(et_offset_hours(11), 5);
}

#[test]
fn test_market_hours() {
    assert!(is_market_hours(true, 9, 30));
    assert!(is_market_hours(true, 12, 0));
    assert!(is_market_hours(true, 15, 59));
    assert!(!is_market_hours(true, 9, 29));
    assert!(!is_market_hours(true, 16, 0));
    assert!(!is_market_hours(false, 12, 0));
}

#[test]
fn test_market_open_window() {
    assert!(is_market_open_window(true, 9, 30, false));
    assert!(is_market_open_window(true, 9, 31, false));
    assert!(!is_market_open_window(true, 9, 32, false));
    assert!(!is_market_open_window(true, 9, 30, true));
    assert!(!is_market_open_window(false, 9, 30, false));
    assert!(!is_market_open_window(true, 10, 30, false));
}

#[test]
fn test_parse_trade_action() {
    assert_eq!(parse_trade_action(&"BUY".to_string()), Some(TradeAction::Buy));
    assert_eq!(parse_trade_action(&"SELL".to_string()), Some(TradeAction::Sell));
    assert_eq!(parse_trade_action(&"HOLD".to_string()), None);
    assert_eq!(parse_trade_action(&"buy".to_string()), None);
}

#[test]
fn test_execution_price() {
    assert_eq!(execution_price(Some(123), Some(456)), 123);
    assert_eq!(execution_price(None, Some(456)), 456);
    assert_eq!(execution_price(None, None), 0);
}

#[test]
fn test_base_path() {
    assert_eq!(get_base_path(), "/mnt/x/dev/carbyne-phinance/fp-tauri-dev");
}

#[test]
fn test_status_records_hold_plain_values() {
    let status = SchedulerStatusResponse {
        running: true,
        queued_count: 2,
        current_et_time: "2024-05-06 09:30:00 ET".to_string(),
        market_open: true,
        next_market_open: "NOW (market is open)".to_string(),
    };
    assert!(status.running && status.market_open);
    let resp = QueueResponse { id: 7, status: "queued".to_string(), message: "ok".to_string() };
    assert_eq!(resp.id, 7);
    assert_eq!(resp.status, "queued");
}
