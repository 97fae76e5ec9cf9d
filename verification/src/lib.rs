//! A verified core for a single-page asset downloader.
//!
//! Given one fetched web page, the library discovers the asset URLs the page
//! references, derives a filesystem-safe name for each, and models the retry
//! and scheduling decisions of the download run: exponential backoff on
//! transient failures, skip-if-present idempotence, and summary accounting
//! that partitions every asset into saved, skipped, or failed.

pub mod agent;
pub mod extract;
pub mod filename;
pub mod orchestrate;
pub mod retry;
pub mod schedule;
pub mod strutil;
pub mod urls;
