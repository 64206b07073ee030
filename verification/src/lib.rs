//! Control core for a minimal hardware-virtualization monitor.
//!
//! The library holds the verifiable part of the control plane: the numeric
//! ioctl command encoding and the fixed binary layouts shared with the kernel
//! facility, the decode of raw exit payloads into safe tagged values, the
//! rules that accept or reject guest-physical memory regions, the guest-RAM
//! byte store, and the exit-dispatch state machine that drives the run loop.
//! The raw system calls themselves (open, ioctl, mmap) are unsafe and live in
//! the unverified front end, which feeds their outcomes to this crate as
//! plain values.

pub mod bindings;
pub mod exit;
pub mod dispatcher;
pub mod machine;
pub mod memory;
