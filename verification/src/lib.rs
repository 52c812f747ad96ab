//! Message intake and processing pipeline for a chat-completion service.
//!
//! The crate holds the bounded work queue, the per-user admission gate, the
//! conversation lifecycle and the retry policy around the upstream call.
//! Every function carries a contract that Verus proves.

pub mod clock;
pub mod config;
pub mod constants;
pub mod db;
pub mod error;
pub mod handler;
pub mod handlers;
pub mod ids;
pub mod models;
pub mod processing;
pub mod prompt;
pub mod queue;
pub mod rate_limit;
pub mod services;
pub mod sessions;
pub mod table;
pub mod text;
pub mod version;

pub use crate::config::Config;
pub use crate::error::ServiceError;
pub use crate::handler::MessageHandler;
