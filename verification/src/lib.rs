//! Marking an open socket's outgoing traffic with a DSCP (Differentiated
//! Services Code Point) value through the operating system's QoS facility.
//!
//! The OS calls themselves are performed by an unverified driver outside this
//! crate; what stands here is everything that can be decided without them:
//! the ToS-to-DSCP conversion, the linear flow-setup pipeline (which call to
//! issue next, and what each call's outcome means), and the exact shape of
//! the structured failure handed to the caller when a checked call fails.

pub mod error;
pub mod flow;
pub mod laws;
pub mod text;
