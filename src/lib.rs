//! Core of a local media library: path handling, content classification,
//! cached dimension probing, ingestion, directory sweeping and clip planning.
pub mod classify;
pub mod clip;
pub mod http_server;
pub mod ingest;
pub mod library;
pub mod metadata;
pub mod paths;
pub mod sweep;
