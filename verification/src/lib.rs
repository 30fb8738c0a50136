//! Verified core of a camera streaming node.
//!
//! The node associates with a wireless network and then serves a continuous
//! motion-JPEG stream over HTTP. The two hard pieces live here, fully
//! verified: the network join state machine (scan, select, associate, verify
//! reachability, all with bounded waits) and the streaming frame pipeline
//! (exclusive capture/release of hardware frame buffers and exact chunked
//! multipart framing). Hardware and transport calls stay outside; they hand
//! this library plain values and drive its state machines.

pub mod encoder;
pub mod frame;
pub mod join;
pub mod server;
pub mod session;
