//! Resources for the QEMU SBSA (Arm) machine type.

pub mod component;
