//! The data that the bot protocol exchanges.
pub mod basic_type;
pub mod event;
pub mod message;
