//! Building blocks for DuckDB extensions: secret entries, TLS provider
//! auditing, configuration option builders and chunk row tracking.

pub mod error;
mod status;
pub mod text;
pub mod secrets;
pub mod warning;
pub mod tls;
pub mod chunk_writer;
pub mod types;
pub mod config_option;
pub mod table_description;
pub mod client_context;
