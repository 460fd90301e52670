//! A safe, typed handle to a kernel-managed hardware performance counter.
//!
//! The handle owns exactly one kernel-object reference and funnels every
//! interaction with the kernel object through a narrow control-call
//! interface, so that the handle's own logic is ordinary, safe code with
//! explicit failure kinds.

pub mod control;
pub mod desc;
pub mod errors;
pub mod fake;
pub mod fd;
pub mod lifecycle;
