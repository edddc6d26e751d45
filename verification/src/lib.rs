//! Endpoint catalog and request construction for the public market-data
//! surface of the Bybit v5 REST API.
//!
//! The crate decides *what* is asked of the exchange: which wire path an
//! operation resolves to and which request is handed to the component that
//! talks to the network. It performs no I/O itself.

pub mod bybit;
pub mod endpoints;
