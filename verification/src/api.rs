//! The connectors, one module for each exchange.
pub mod okx;
