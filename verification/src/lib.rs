//! A minimal literal text search library: it splits file contents into
//! lines and returns the lines that contain a query string, optionally
//! ignoring ASCII case, together with a resolver that turns command-line
//! tokens and an environment value into a validated configuration.

pub mod config;
pub mod laws;
pub mod lines;
pub mod matcher;
pub mod text;

pub use config::Config;
pub use config::ConfigError;
pub use matcher::search;
pub use matcher::search_case_insensitive;
pub use matcher::search_matching;
