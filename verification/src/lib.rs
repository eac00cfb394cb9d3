//! A multi-threaded HTTP load-generation library.
//!
//! The library drives a target endpoint with a fixed number of concurrent
//! connections for a fixed wall-clock duration and aggregates latency
//! statistics grouped by outcome category. This crate holds the verified
//! core: outcome classification, configuration validation, the per-worker
//! duration policy, and the category-partitioned metrics store. Thread
//! spawning, command-line handling and report rendering live outside it.

pub mod config;
pub mod errors;
pub mod http;
pub mod logger;
pub mod storage;
pub mod worker;

pub use config::Arguments;
pub use config::HttpMethod;
pub use errors::AppResult;
pub use errors::ErrorType;
pub use http::HttpClientBlocking;
pub use http::StatusCodeCategory;
pub use logger::Logger;
pub use logger::ResultRow;
pub use storage::Bucket;
pub use storage::Storage;
pub use worker::Worker;
pub use worker::WorkerState;
