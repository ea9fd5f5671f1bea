//! Configuration of a command-line program from its command line and,
//! optionally, from a file that an environment variable names.
//!
//! An application describes its options in a [`Configuration`]. Options
//! given in the file are read as if they stood on the command line, before
//! what was typed there, so that the command line takes precedence.

pub mod builder;
pub mod engine;
pub mod laws;
pub mod loader;
pub mod resolved;
pub mod schema;
pub mod text;
pub mod tls_config;

pub use builder::{ConfigBuilder, ConfigError, Configurable, MatchError, Resolution};
pub use loader::{
    args, config_path, parse_line, parse_reader, Environment, FileRead, FileTokens, LineError,
    ParsedLine,
};
pub use resolved::{ResolvedConfig, ResolvedValue};
pub use schema::{ConfigOption, Configuration, SchemaError};
pub use tls_config::TlsConfig;
