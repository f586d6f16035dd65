//! Huginn: a verified engine for collecting and distributing per-host network
//! traffic profiles.
//!
//! A stream of passively observed fingerprint events (TCP handshake, HTTP
//! request/response, TLS client hello, MTU and uptime estimates) is merged
//! into a table of per-IP [`profile::TrafficProfile`] records.  The table is
//! owned by a single-writer aggregation step, published to concurrent readers
//! through an atomically swappable snapshot, and every mutation is announced
//! to subscribers through a broadcast channel with lag detection.
//!
//! Confidence and completeness scores are carried in hundredths
//! (`0 ..= 100` for `0.00 ..= 1.00`); timestamps are milliseconds and are
//! handed in by the caller.

pub mod analyzer;
pub mod bridge;
pub mod broadcast;
pub mod collector;
pub mod config;
pub mod error;
pub mod events;
pub mod fingerprint;
pub mod handlers;
pub mod profile;
pub mod snapshot;
pub mod state;
pub mod table;
pub mod text;
pub mod websocket;

pub use analyzer::{AnalyzerConfig, HuginnAnalyzer};
pub use bridge::ChannelBridge;
pub use collector::{CollectorCommand, NetworkCollector, NetworkCollectorBuilder};
pub use config::CollectorConfig;
pub use error::{ApiError, CollectorError, HuginnError};
pub use events::{EventHandler, LoggingEventHandler, TrafficEvent};
pub use fingerprint::FingerprintEvent;
pub use profile::{HttpAnalysis, TcpAnalysis, TlsAnalysis, TrafficProfile};
pub use state::AppState;
