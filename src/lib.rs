//! Settlement core of a two-way token bridge: token registry, fee engine,
//! replay guard, nonce sequencer and the four settlement operations.

pub mod u256;
pub mod address;
pub mod fee;
pub mod error;
pub mod registry;
pub mod replay;
pub mod roles;
pub mod events;
pub mod validation;
pub mod bridge;
