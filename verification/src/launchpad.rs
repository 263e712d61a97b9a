//! The concrete deployment built on the engine: its configuration
//! types, the protocol messages between the engine's owner and a
//! user interface, the declared network and volume resources, and
//! the readiness checker of the base node.

pub mod checkers;
pub mod config;
pub mod local_state;
pub mod networks;
pub mod state;
pub mod volumes;
