//! Host-side exception bridge for an embedded interpreter.
//!
//! The interpreter owns its values and its single pending-fault register. This
//! library holds the host's part: handles that must be locked before their
//! address may cross into a native call, the closed model of the faults the
//! interpreter reports, the capture protocol over an explicit register value,
//! and the marshalling of every fault-raising entry point into a
//! [`api::native::NativeCall`] that the caller then performs.

pub mod api;
pub mod error;
pub mod string;
