//! The scheduler's decisions, separated from the loop that acts on them.
//!
//! The surrounding application reads the clock, sleeps and talks to the
//! store; everything it decides — the eastern-time offset, whether the
//! market is open, whether the execution window has arrived, how a queued
//! trade is to be executed — is computed here from plain values.

use vstd::prelude::*;

verus! {

/// The hours to subtract from UTC for approximate eastern time: four during
/// the daylight-saving months, five otherwise (a month-based heuristic).
pub open spec fn spec_et_offset_hours(month: u8) -> i64 {
    if 4 <= month <= 10 {
        4
    } else {
        5
    }
}

/// Computes the eastern-time offset for a month number.
pub fn et_offset_hours(month: u8) -> (h: i64)
    ensures
        h == spec_et_offset_hours(month),
{
    if month >= 4 && month <= 10 {
        4
    } else {
        5
    }
}

/// Whether the market is open at an eastern-time moment: a weekday between
/// half past nine and four.
pub fn is_market_hours(is_weekday: bool, hour: u8, minute: u8) -> (open: bool)
    ensures
        open == (is_weekday && ((hour == 9 && minute >= 30) || (10 <= hour < 16))),
{
    is_weekday && ((hour == 9 && minute >= 30) || (hour >= 10 && hour < 16))
}

/// Whether the queued trades are to be executed now: the first two minutes
/// after the open on a weekday, and not twice on one day.
pub fn is_market_open_window(
    is_weekday: bool,
    hour: u8,
    minute: u8,
    already_ran_today: bool,
) -> (fire: bool)
    ensures
        fire == (is_weekday && hour == 9 && 30 <= minute <= 31 && !already_ran_today),
{
    is_weekday && hour == 9 && minute >= 30 && minute <= 31 && !already_ran_today
}

/// How a queued trade's action reads.
#[derive(Clone, Copy, PartialEq, Eq, Structural, Debug)]
pub enum TradeAction {
    Buy,
    Sell,
}

/// Reads a queued trade's action field; anything but the two known words is
/// invalid and fails the trade.
pub fn parse_trade_action(action: &String) -> (r: Option<TradeAction>)
    ensures
        r == (if action@ == "BUY"@ {
            Option::Some(TradeAction::Buy)
        } else if action@ == "SELL"@ {
            Option::Some(TradeAction::Sell)
        } else {
            Option::<TradeAction>::None
        }),
{
    let buy = ("BUY").to_owned();
    let sell = ("SELL").to_owned();
    if *action == buy {
        Option::Some(TradeAction::Buy)
    } else if *action == sell {
        Option::Some(TradeAction::Sell)
    } else {
        Option::None
    }
}

/// The price a queued trade executes at: its target price when one was set,
/// else the latest stored price, else zero — and a zero or negative outcome
/// means no price could be determined, which fails the trade.
pub fn execution_price(target: Option<i64>, latest: Option<i64>) -> (p: i64)
    ensures
        p == (match target {
            Option::Some(t) => t,
            Option::None => match latest {
                Option::Some(l) => l,
                Option::None => 0,
            },
        }),
{
    match target {
        Option::Some(t) => t,
        Option::None => match latest {
            Option::Some(l) => l,
            Option::None => 0,
        },
    }
}

/// The base directory for file output.
pub fn get_base_path() -> (p: &'static str)
    ensures
        p@ == "/mnt/x/dev/carbyne-phinance/fp-tauri-dev"@,
{
    "/mnt/x/dev/carbyne-phinance/fp-tauri-dev"
}

} // verus!
