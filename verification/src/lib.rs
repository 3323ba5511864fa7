//! Lifecycle layer for a depth-sensing camera and its body-tracking pipeline.
//!
//! The native sensor engine hands out raw handles (device, capture, image,
//! tracker, frame) whose creation and release must follow a strict order.
//! This crate models that lifecycle: a device session with its configuration,
//! a FIFO queue of in-flight captures, lazy decoding of 16-bit depth buffers,
//! and a teardown discipline that releases every handle exactly once, children
//! before parents.  The native calls themselves happen outside the library;
//! their outcomes enter as plain values and every decision taken on them is
//! specified and proved here.

pub mod capture;
pub mod config;
pub mod depth;
pub mod serial;
pub mod session;
pub mod status;
