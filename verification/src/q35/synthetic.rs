//! Deterministic synthetic timer sources.
//!
//! The calibrator reaches its counters only through the
//! [`TimerSource`](crate::q35::timer::TimerSource) capability, so it can be
//! exercised against a deterministic synthetic clock instead of real
//! hardware. A [`SyntheticClock`] drives both counters from one shared,
//! simulated time line: every read, of either counter, costs a fixed number
//! of simulated nanoseconds, and each counter shows the value its configured
//! frequency dictates at the instant it is read.

use crate::q35::timer::{wrap32, wrap64, TimerSource};
use vstd::arithmetic::mul::lemma_mul_upper_bound;
use vstd::prelude::*;

verus! {

/// Bound on the synthetic counter frequencies (2^40 Hz, beyond any hardware
/// rate this crate models) that keeps the simulated arithmetic within 128
/// bits.
pub const MAX_SYNTHETIC_FREQUENCY_HZ: u64 = 0x100_0000_0000;

/// Bound on the simulated cost of one read (2^20 ns, about a millisecond).
pub const MAX_SYNTHETIC_STEP_NS: u64 = 0x10_0000;

/// A noise-free pair of simulated counters: a 32-bit wrapping reference
/// timer and a 64-bit cycle counter, both advancing linearly in a shared
/// simulated time that moves `step_ns` nanoseconds per read.
pub struct SyntheticClock {
    /// Ticks per second of the simulated reference timer.
    pub reference_frequency_hz: u64,
    /// Ticks per second of the simulated cycle counter.
    pub cycle_frequency_hz: u64,
    /// Simulated nanoseconds that each read takes.
    pub step_ns: u64,
    /// Reads made so far, of either counter.
    pub reads_made: u64,
}

impl SyntheticClock {
    /// A synthetic clock at simulated time zero.
    pub fn new(reference_frequency_hz: u64, cycle_frequency_hz: u64, step_ns: u64) -> (clock:
        SyntheticClock)
        requires
            reference_frequency_hz <= MAX_SYNTHETIC_FREQUENCY_HZ,
            cycle_frequency_hz <= MAX_SYNTHETIC_FREQUENCY_HZ,
            step_ns <= MAX_SYNTHETIC_STEP_NS,
        ensures
            clock == (SyntheticClock {
                reference_frequency_hz,
                cycle_frequency_hz,
                step_ns,
                reads_made: 0,
            }),
            clock.wf(),
            clock.reads() == 0,
    {
        SyntheticClock { reference_frequency_hz, cycle_frequency_hz, step_ns, reads_made: 0 }
    }

    /// The simulated instant of read number `n`, in nanoseconds.
    pub open spec fn instant_ns(&self, n: nat) -> int {
        n * self.step_ns
    }
}

impl TimerSource for SyntheticClock {
    open spec fn wf(&self) -> bool {
        &&& self.reference_frequency_hz <= MAX_SYNTHETIC_FREQUENCY_HZ
        &&& self.cycle_frequency_hz <= MAX_SYNTHETIC_FREQUENCY_HZ
        &&& self.step_ns <= MAX_SYNTHETIC_STEP_NS
    }

    open spec fn reads(&self) -> nat {
        self.reads_made as nat
    }

    open spec fn reference_at(&self, n: nat) -> u32 {
        wrap32(self.instant_ns(n) * self.reference_frequency_hz / 1_000_000_000)
    }

    open spec fn cycles_at(&self, n: nat) -> u64 {
        wrap64(self.instant_ns(n) * self.cycle_frequency_hz / 1_000_000_000)
    }

    fn read_reference(&mut self) -> (tick: u32) {
        proof {
            lemma_mul_upper_bound(
                self.reads_made as int,
                0xFFFF_FFFF_FFFF_FFFFint,
                self.step_ns as int,
                0x10_0000int,
            );
        }
        let instant_ns: u128 = (self.reads_made as u128) * (self.step_ns as u128);
        proof {
            lemma_mul_upper_bound(
                instant_ns as int,
                0xFFFF_FFFF_FFFF_FFFFint * 0x10_0000int,
                self.reference_frequency_hz as int,
                0x100_0000_0000int,
            );
        }
        let ticks: u128 = instant_ns * (self.reference_frequency_hz as u128) / 1_000_000_000;
        self.reads_made = self.reads_made + 1;
        (ticks % 0x1_0000_0000) as u32
    }

    fn read_cycles(&mut self) -> (count: u64) {
        proof {
            lemma_mul_upper_bound(
                self.reads_made as int,
                0xFFFF_FFFF_FFFF_FFFFint,
                self.step_ns as int,
                0x10_0000int,
            );
        }
        let instant_ns: u128 = (self.reads_made as u128) * (self.step_ns as u128);
        proof {
            lemma_mul_upper_bound(
                instant_ns as int,
                0xFFFF_FFFF_FFFF_FFFFint * 0x10_0000int,
                self.cycle_frequency_hz as int,
                0x100_0000_0000int,
            );
        }
        let cycles: u128 = instant_ns * (self.cycle_frequency_hz as u128) / 1_000_000_000;
        self.reads_made = self.reads_made + 1;
        (cycles % 0x1_0000_0000_0000_0000) as u64
    }
}

} // verus!
