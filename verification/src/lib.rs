//! Typed client logic for an e-commerce order-creation endpoint.
//!
//! The crate holds everything about creating an order that can be decided
//! without the network: checking the base URL, writing the request as JSON,
//! computing the `Authorization` header, and mapping the status of the answer
//! to a typed failure.

pub mod auth;
pub mod client;
pub mod error;
pub mod json;
pub mod prelude;
pub mod types;

pub use client::Client;
pub use error::Error;
