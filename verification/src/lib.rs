//! Building blocks for seL4 user-level systems: a transport bridge for an
//! unbuffered TLS engine, the capability-distribution specification data
//! model, and helpers for supervising faulting threads.

pub mod async_io;
pub mod block_io;
pub mod capdl;
pub mod newlib;
pub mod psci;
pub mod sel4;
pub mod supervising;
