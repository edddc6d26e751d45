//! The client side of the exchange's REST API.

pub mod http_manager;
pub mod market;
