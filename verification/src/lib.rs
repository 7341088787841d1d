//! The relay core of a bot gateway: it decodes the requests that clients send
//! as text frames, correlates each with the reply of a single command
//! processor by an opaque echo token, and relays broadcast events to every
//! connected client.
//!
//! The library decides and encodes; it performs no input or output itself.
//! A host feeds it frames, channel outcomes and events, and carries out the
//! actions it returns.
pub mod decimal;
pub mod json;
pub mod response;
pub mod action;
pub mod event;
pub mod ws;
pub mod processor;
pub mod correlation;
pub mod broadcast;
pub mod adapters;
pub mod models;
pub mod api;
pub mod adapter;
pub mod server;
