//! Memory marshaling between a sandboxed guest program and the host runtime
//! that drives it.
//!
//! Only fixed-width integers cross the guest/host boundary. A buffer crosses it
//! as a handle: one 64-bit signed integer that packs the buffer's address and
//! its length. The guest keeps a table of every buffer that was allocated on
//! the host's behalf and gives a buffer out exactly once.
//!
//! - [`state`]: the recoverable errors.
//! - [`handle`]: the bit layout of a handle, packing and unpacking.
//! - [`tracker`]: the table of outstanding allocations.
//! - [`memory`]: pointers, allocation requests, reclamation and
//!   deserialization of reclaimed bytes.

pub mod handle;
pub mod memory;
pub mod state;
pub mod tracker;
