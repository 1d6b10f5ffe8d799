//! Encrypted, self-describing image references over a chat-message blob store:
//! the authenticated envelope, the upload rules, the job table and the
//! per-client admission control, each with its contract.

pub mod text;
pub mod error;
pub mod models;
pub mod crypto;
pub mod rate_limit;
pub mod config;
pub mod services;
pub mod worker;
pub mod handlers;
