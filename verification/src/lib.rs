//! Reporting tail of a performance-instrumentation pipeline: turns raw
//! per-function cache counters and latency histograms into display-ready
//! statistics tables, and dispatches metric events to their renderers.
//!
//! All arithmetic is exact: ratios are kept as numerator/denominator pairs
//! and only turned into decimal text by the unverified printing shell, so a
//! zero denominator (a non-finite ratio) is preserved rather than masked.
pub mod cache;
pub mod commons;
pub mod listener;
