//! Sahl: the verified core of a point-of-sale system made of a till that keeps selling offline,
//! and a server that accepts the till's hash-chained event log when it reconnects.

pub mod text;
pub mod codec;
pub mod protocol;
pub mod plan;
pub mod backoff;
pub mod device;
pub mod printer;
pub mod config;
pub mod engine;
pub mod scheduler;
pub mod ingest;
pub mod routes;
pub mod keys;
pub mod transport;
pub mod store;
pub mod till;
pub mod commands;
pub mod cli;
