//! A verified trading-signal detection engine.
//!
//! The library ingests per-symbol daily price bars and precomputed technical
//! indicator values and emits discrete signal events when an indicator crosses
//! a configured threshold, plus aggregate confluence events when several
//! independent indicators agree on a direction on the same date.
//!
//! All prices, indicator values, thresholds and strengths are fixed-point
//! numbers: an `i64` holding the real value times [`fixed::SCALE`].  The
//! engine itself performs no I/O; the surrounding application feeds it plain
//! records and stores what it returns.

pub mod fixed;

pub mod date;

pub mod types;

pub mod config;

pub mod values;

pub mod index;

pub mod engine;

pub mod detectors;

pub mod confluence;

pub mod props;

pub mod schedule;

pub mod api;
