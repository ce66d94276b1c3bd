//! Client-side dispatch engine for the WhatsApp Cloud API.
//!
//! The crate holds the decisions of a rate-limited HTTP client: when a request
//! may leave, how a response is classified, whether a failed attempt is tried
//! again and after how long. Every function is proved against its contract.
//! Sockets, clocks and sleeping are left to the caller, who feeds the current
//! time and the transport results in and carries the returned actions out.

pub mod classify;
pub mod client;
pub mod dispatch;
pub mod error;
pub mod json;
pub mod rate_limiter;
pub mod retry;
pub mod types;

pub use client::{create_client, ClientConfig, WhatsAppClient};
