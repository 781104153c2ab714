//! Read-only introspection of other running processes on the host: listing
//! process identifiers, opening a capability-scoped handle to one process,
//! resolving its executable's base name, walking its virtual-memory regions,
//! and reading raw bytes out of its address space.
//!
//! The operating-system calls themselves (the enumerate / open / query /
//! read / close primitives) are blocking foreign calls that an unverified
//! front end performs; this crate holds everything that can be decided on
//! plain values: the retry-on-truncation protocol for enumeration, the
//! handle lifecycle, name decoding, the terminating region walk, and the
//! buffer-length discipline for memory reads, each with a contract.

pub mod enumerate;
pub mod error;
pub mod memory;
pub mod name;
pub mod process;
pub mod region;
