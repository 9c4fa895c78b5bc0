//! Bridge between a native rigid-body physics pipeline and a host runtime
//! that supplies per-pair decision callbacks.
//!
//! The simulation core asks the host, once per candidate pair and per step,
//! whether a colliding pair should produce contact response, whether a sensor
//! overlap should be reported, and whether the solver contacts prepared for a
//! pair should be kept or discarded.  The host can only be reached through a
//! narrow, value-based calling convention, so this crate defines the encoding
//! of entity handles and vector data into plain numeric values, and the
//! interpretation of the host's answers back into pipeline decisions,
//! including the fallback decision for every way a host call can fail.

pub mod handle;
pub mod hooks;
pub mod pack;
