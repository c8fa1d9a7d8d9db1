//! Reading a one-line configuration, `threads=<count>`.
//!
//! `fields` cuts a line at its separator, `decimal` reads a signed decimal
//! literal, and `config` puts the two together.

pub mod config;
pub mod decimal;
pub mod fields;

pub use config::{parse_config, try_parse_config, ConfigError, ERROR_SENTINEL, SEPARATOR};
