//! Exporter core for a NunDB node: builds the administrative command, parses
//! the statistics line the node answers with, and keeps the published gauge
//! snapshot consistent.

pub mod command;
pub mod config;
pub mod metrics;
pub mod parser;
pub mod request;
pub mod text;
