//! An oracle relay: a gateway that keeps a registry of pending data requests,
//! and the requester services that receive the fetched data through a callback.

pub mod delivery;
pub mod gateway;
pub mod quote;
pub mod symbols;
pub mod trade_volume;
pub mod client;
