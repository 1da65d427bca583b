//! The decision logic of a small REST service and of a gas-price fetcher:
//! which provider endpoint serves a chain, how a provider quote becomes a
//! four-tier estimation, how a paymaster lookup becomes a response, and the
//! fixed configuration the HTTP server is assembled from.
//!
//! Sockets, the database and the JSON codec live with the caller, which
//! hands over what it read and sends what comes back. The one outside value
//! built here is the rate limiter's configuration.

pub mod uint;
pub mod gas;
pub mod paymaster;
pub mod server;
pub mod limiter;
