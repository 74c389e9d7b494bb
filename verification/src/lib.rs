//! Verified core of a single-master instrumentation controller.
//!
//! A set of addressable modules (thermocouple readers, current sources,
//! current/voltage ADCs) share one half-duplex register bus. This crate
//! holds the logic worth proving: register/unit codecs, the session rules
//! for the shared bus, startup enumeration, and the cyclic control-loop
//! state machine with its fail-safe shutdown. The transport itself (serial
//! port, network gateway) is driven by unverified glue around this crate.

pub mod bus;
pub mod codec;
pub mod commission;
pub mod control;
pub mod devices;
pub mod enumeration;
pub mod errors;
pub mod logging;
pub mod registry;
pub mod sensing;
pub mod setpoint;

pub use codec::registers_to_i32;
