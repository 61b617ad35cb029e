//! The plain records exchanged with the surrounding application: news items
//! from the market-data provider, and the request and response bodies of the
//! read-only status endpoints.  They carry no behaviour of their own; the
//! application serialises its own copies of them at its edge.

use vstd::prelude::*;

verus! {

/// A news item from the market-data provider.
pub struct NewsItem {
    /// Category (company, general, forex, crypto, merger).
    pub category: String,
    /// Unix timestamp in seconds.
    pub datetime: i64,
    pub headline: String,
    /// The provider's news id.
    pub id: i64,
    /// Thumbnail image URL.
    pub image: Option<String>,
    /// Related stock symbols.
    pub related: String,
    pub source: String,
    pub summary: String,
    pub url: String,
}

/// A news item reduced to what the frontend shows.
pub struct SimpleNewsItem {
    pub headline: String,
    pub summary: String,
    pub source: String,
    pub url: String,
    pub date: String,
    pub symbol: String,
}

/// The response to a queue operation.
pub struct QueueResponse {
    pub id: i64,
    pub status: String,
    pub message: String,
}

/// The response to a batch queue operation.
pub struct BatchQueueResponse {
    pub queued: Vec<QueueResponse>,
    pub total: usize,
    pub success_count: usize,
    pub fail_count: usize,
}

/// Query parameters for listing the trade queue.
pub struct QueueQuery {
    pub status: Option<String>,
    pub limit: Option<usize>,
}

/// The scheduler's status.
pub struct SchedulerStatusResponse {
    pub running: bool,
    pub queued_count: i64,
    pub current_et_time: String,
    pub market_open: bool,
    pub next_market_open: String,
}

/// One report file on disk.
pub struct ReportItem {
    pub name: String,
    pub path: String,
    pub date: String,
    pub report_type: String,
    pub size_kb: u64,
}

/// Query parameters for a price history.
pub struct PriceHistoryQuery {
    pub limit: Option<i32>,
}

/// Query parameters for an indicator listing.
pub struct IndicatorQuery {
    pub limit: Option<i32>,
}

/// A request to refresh stored prices.
pub struct RefreshPricesRequest {
    /// When absent, every favorited symbol is refreshed.
    pub symbols: Option<Vec<String>>,
    /// A period such as a day or a week; the application picks a default.
    pub period: Option<String>,
}

/// The outcome of a price refresh.
pub struct RefreshPricesResponse {
    pub success_count: i32,
    pub fail_count: i32,
    pub symbols_refreshed: Vec<String>,
    pub errors: Vec<String>,
}

/// The decision layer's status.
pub struct AiStatusResponse {
    pub active_session: bool,
    pub session_id: Option<i64>,
    pub total_decisions: i64,
    pub executed_trades: i64,
}

/// Query parameters for reading one report.
pub struct ReportContentQuery {
    pub path: String,
}

/// One watchlist with its symbols.
pub struct WatchlistItem {
    pub id: i64,
    pub name: String,
    pub description: Option<String>,
    pub symbols: Vec<String>,
}

} // verus!
