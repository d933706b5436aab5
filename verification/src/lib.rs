//! A lightweight publish/subscribe messaging substrate for topic-addressed
//! modules: a positional wire codec for messages, the pure decision layer of
//! the module connection and peer-discovery protocol, and a config-driven
//! topic routing engine.

pub mod config;
pub mod config_message;
pub mod connection;
pub mod cron;
pub mod error;
pub mod kv;
pub mod message;
pub mod module;
pub mod repo;
pub mod router;
pub mod text;

pub use module::AlfredModule;
pub use module::ModuleDetails;
pub use module::ModuleDetailsBuilder;
