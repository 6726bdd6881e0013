//! What all connectors share: the trading vocabulary and the messages.
pub mod defs;
pub mod msgs;
