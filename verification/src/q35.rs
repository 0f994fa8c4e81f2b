//! Resources for the QEMU Q35 (x86-64) machine type.

pub mod synthetic;
pub mod timer;
