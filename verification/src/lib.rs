//! Command protocol for a USB throttle peripheral.
//!
//! A host application drives a small motorized throttle over USB with a
//! compact, strongly typed command protocol.  This crate holds the protocol
//! itself and its two endpoints: the wire codec, the device-side dispatch
//! logic (bounded command queue, reply table, actuator register), and the
//! host-side transport client state.  The USB transfers themselves are
//! performed by the surrounding application; everything that decides or
//! computes lives here, with its behaviour stated in contracts.

pub mod codec;
pub mod device;
pub mod host;
pub mod mapping;
pub mod protocol;
