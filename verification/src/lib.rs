//! A verified core for a GPU compute resource manager built over a native
//! driver interface.
//!
//! The core discovers compute devices, retains and releases each device's
//! primary execution context, allocates device memory with deterministic
//! lifetime, and drives a just-in-time link session that turns PTX source
//! into a loadable binary.
//!
//! The native driver is an external collaborator and is never called from
//! this crate. Callers perform each native call and hand the observed status
//! codes, attribute values and handle addresses to the functions here, which
//! make every decision: which query comes next, when construction aborts,
//! how a status code maps into the error taxonomy, and when a teardown call
//! is owed. Each owning type (`Device`, `Buffer`, `LinkSession`) releases its
//! native resource exactly once, by consuming the owner.

pub mod cuda;
pub mod cuda_api;
pub mod cuda_result;
pub mod link;
pub mod text;
