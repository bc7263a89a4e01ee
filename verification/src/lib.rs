//! A user-space interface to the kernel's asynchronous I/O submission and
//! completion rings.
//!
//! Callers describe an I/O operation (read, write, vectored and fixed-buffer
//! variants, splice, open, close, fsync, no-op) as a fixed-size submission
//! record ([`entry::Sqe`]), push records into a ring ([`ring::IoUring`]), hand
//! the batch to the kernel, and later harvest fixed-size completion records
//! ([`ring::Cqe`]) correlated by an opaque caller-supplied tag.
//!
//! The record layout and the ring index protocol are a cross-process binary
//! contract with the kernel: a wrong field, wrong zeroing, or wrong index
//! silently corrupts kernel state. The contracts in this crate pin down, for
//! every operation kind, exactly which fields an encoder sets, and for the
//! ring, exactly when an enqueue is refused as full, when a reap is refused
//! as empty, and that records pass through both queues unchanged and in
//! order.
//!
//! The kernel itself (ring setup, the blocking enter call, the shared memory
//! mappings) stays outside this crate: the ring exposes the pure state
//! transitions and an unverified shim performs the system calls around them.

pub mod entry;
pub mod fd;
pub mod ring;
