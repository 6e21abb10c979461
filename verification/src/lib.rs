//! Bridges physical rotary dials to per-application audio volume control.
//!
//! The device samples analog dial positions, encodes each as a 16-bit
//! fixed-point fraction, and streams them to the host over a fixed-length,
//! big-endian byte frame. The host matches live audio sessions to configured
//! dial bindings in order, aggregates the mute state of the sessions bound to
//! each dial, and reports one mute flag per dial back to the device.

pub mod aggregate;
pub mod computer_state;
pub mod config;
pub mod data;
pub mod matcher;
pub mod pattern;
pub mod percentage;
pub mod sync;
pub mod wire;
