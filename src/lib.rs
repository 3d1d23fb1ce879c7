//! Event ingestion and alert dispatch for an error-tracking backend.
pub mod aggregate;
pub mod alerting;
pub mod api_types;
pub mod billing;
pub mod clock;
pub mod config;
pub mod digest;
pub mod dispatch;
pub mod fingerprint;
pub mod ingest;
pub mod models;
pub mod notify;
pub mod rate_limit;
pub mod sdk;
pub mod text;
pub mod tiers;
