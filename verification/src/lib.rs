//! Platform resources for QEMU virtual machines.
//!
//! The heart of this crate is the Q35 timer calibration routine: it derives
//! the frequency of the processor's free-running cycle counter by sampling it
//! over a bounded window of a fixed-rate reference timer, with wraparound-safe
//! tick arithmetic and timeout fallbacks so that a malfunctioning reference
//! timer can never hang or crash the boot path. The SBSA module holds the
//! platform's SMBIOS record provider component.

pub mod q35;
pub mod sbsa;
