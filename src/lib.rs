//! Finalization protocol for a controller-owned finalizer on a custom
//! resource: decide from the handler's answer whether to persist status and
//! retry later or to strip the finalizer, and report the outcome to the
//! controller loop.

pub mod finalize;
pub mod patch;
pub mod protocol;
pub mod report;
pub mod resource;
