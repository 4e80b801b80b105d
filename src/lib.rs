//! Environment-bound configuration: resolve the active environment, build the
//! defaults of every environment, and check a TOML document against them.

pub mod basic_config;
pub mod document;
pub mod env_config;
pub mod environment;
pub mod error;
pub mod paths;
pub mod text;

pub use basic_config::{BasicConfig, BasicConfigView, Database, DatabaseView};
pub use document::{Document, DocumentView};
pub use env_config::{EnvConfig, EnvConfigView, Search, SearchView};
pub use environment::{Environment, CONFIG_ENV};
pub use error::{ConfigError, ErrorView};
