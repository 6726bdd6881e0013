//! Connectivity to a cryptocurrency exchange for algorithmic trading: the
//! model of instruments and messages, the notation of the exchange, and the
//! rules by which its streaming clients and its order gateway work.
pub mod api;
pub mod common;
pub mod prelude;
pub mod text;
