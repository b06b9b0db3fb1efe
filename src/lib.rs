//! Supervision of a bundled bridge process from a tray application, the
//! command rules of the tray menu, and the pairing code that lets a second
//! device reach the bridge over the local network.

pub mod controller;
pub mod error;
pub mod pairing;
pub mod platform;
pub mod supervisor;
pub mod text;

pub use error::BridgeError;
