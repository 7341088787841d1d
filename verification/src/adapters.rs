//! How the gateway reaches the bot backend over HTTP.
pub mod auth;
pub mod http;
