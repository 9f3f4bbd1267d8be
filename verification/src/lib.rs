//! Guest lifecycle driver for a kernel-fuzzing harness: boots a virtual
//! machine under QEMU, probes it for liveness over SSH, ships and runs
//! binaries inside it, and captures crash diagnostics from a non-blocking
//! log pipe.

pub mod cli;
pub mod fatal;
pub mod guest;
pub mod picoc;
pub mod pipe;
pub mod proc;
pub mod text;
