//! Cycle-counter frequency calibration against the ACPI PM timer.
//!
//! QEMU Q35 machines expose the ACPI power-management timer, a free-running
//! counter driven by a fixed 3.579545 MHz oscillator. During early boot no
//! operating-system timekeeping exists yet, so the frequency of the
//! processor's own cycle counter is unknown; this module derives it by
//! sampling both counters over a bounded reference-time window.
//!
//! The routine is total: a stuck or absent reference timer makes it fall back
//! to the reference frequency itself after a bounded number of polls, so the
//! boot path can never hang on a division by zero or an endless wait.

use vstd::arithmetic::div_mod::{
    lemma_div_by_self, lemma_div_is_ordered, lemma_div_multiples_vanish,
    lemma_fundamental_div_mod, lemma_mod_division_less_than_divisor, lemma_small_mod,
};
use vstd::prelude::*;

verus! {

/// Oscillation rate of the ACPI PM timer in ticks per second.
pub const DEFAULT_ACPI_TIMER_FREQUENCY: u64 = 3_579_545;

/// The fraction of a second over which to measure: a divisor of 20 gives a
/// window of about 50 ms, long enough to average out read jitter and short
/// enough not to stall boot.
pub const TARGET_INTERVAL_SIZE: u64 = 20;

/// Bound on the iterations of each polling loop, so that a malfunctioning
/// reference timer cannot hang calibration forever.
pub const MAX_WAIT_CYCLES: u64 = 1_000_000;

/// The value a 32-bit counter shows after `x` ticks from zero.
pub open spec fn wrap32(x: int) -> u32
    recommends
        x >= 0,
{
    (x % 0x1_0000_0000) as u32
}

/// The value a 64-bit counter shows after `x` ticks from zero.
pub open spec fn wrap64(x: int) -> u64
    recommends
        x >= 0,
{
    (x % 0x1_0000_0000_0000_0000) as u64
}

/// Modular difference between two samples of a 32-bit wrapping counter:
/// the number of ticks from `start` to `end`, assuming fewer than 2^32
/// ticks elapsed between the two samples.
pub open spec fn tick_delta_spec(end: u32, start: u32) -> u32 {
    if end >= start {
        (end - start) as u32
    } else {
        ((0x1_0000_0000 + end) - start) as u32
    }
}

/// Modular difference between two samples of a 64-bit wrapping counter.
pub open spec fn cycle_delta_spec(end: u64, start: u64) -> u64 {
    if end >= start {
        (end - start) as u64
    } else {
        ((0x1_0000_0000_0000_0000 + end) - start) as u64
    }
}

/// Wraparound-safe subtraction of two 32-bit reference-counter samples.
pub fn tick_delta(end: u32, start: u32) -> (delta: u32)
    ensures
        delta == tick_delta_spec(end, start),
{
    if end >= start {
        end - start
    } else {
        ((0x1_0000_0000u64 + end as u64) - start as u64) as u32
    }
}

/// Wraparound-safe subtraction of two 64-bit cycle-counter samples.
pub fn cycle_delta(end: u64, start: u64) -> (delta: u64)
    ensures
        delta == cycle_delta_spec(end, start),
{
    if end >= start {
        end - start
    } else {
        ((0x1_0000_0000_0000_0000u128 + end as u128) - start as u128) as u64
    }
}

/// Modular subtraction recovers the true elapsed tick count, including
/// across a wraparound boundary: if a 32-bit counter standing at `start`
/// advances by `elapsed` ticks (fewer than 2^32), the delta computed from
/// the wrapped end value equals `elapsed` exactly.
pub proof fn lemma_tick_delta_counts_elapsed(start: u32, elapsed: int)
    requires
        0 <= elapsed < 0x1_0000_0000,
    ensures
        tick_delta_spec(wrap32(start + elapsed), start) == elapsed,
{
    let m = 0x1_0000_0000int;
    let sum = start + elapsed;
    if sum < m {
        lemma_small_mod(sum as nat, m as nat);
    } else {
        lemma_small_mod((sum - m) as nat, m as nat);
        assert(sum % m == (sum - m) % m) by {
            vstd::arithmetic::div_mod::lemma_mod_sub_multiples_vanish(sum - m, m);
        }
    }
}

/// The corresponding fact for the 64-bit cycle counter.
pub proof fn lemma_cycle_delta_counts_elapsed(start: u64, elapsed: int)
    requires
        0 <= elapsed < 0x1_0000_0000_0000_0000,
    ensures
        cycle_delta_spec(wrap64(start + elapsed), start) == elapsed,
{
    let m = 0x1_0000_0000_0000_0000int;
    let sum = start + elapsed;
    if sum < m {
        lemma_small_mod(sum as nat, m as nat);
    } else {
        lemma_small_mod((sum - m) as nat, m as nat);
        assert(sum % m == (sum - m) % m) by {
            vstd::arithmetic::div_mod::lemma_mod_sub_multiples_vanish(sum - m, m);
        }
    }
}

/// Configuration of a calibration run: the reference timer's fixed rate, the
/// size of the measurement window as a fraction of a second, and the two
/// polling budgets. The defaults fit the Q35 ACPI PM timer; tests and other
/// hardware may override them.
pub struct CalibrationConfig {
    /// Ticks per second of the reference timer.
    pub reference_frequency_hz: u64,
    /// The measurement window is one `window_divisor`-th of a second.
    pub window_divisor: u64,
    /// Bound on the iterations of the edge-alignment wait.
    pub max_align_iterations: u64,
    /// Bound on the iterations of the measurement wait.
    pub max_measure_iterations: u64,
}

impl CalibrationConfig {
    /// A usable configuration: the reference rate fits in the 32-bit tick
    /// register's arithmetic (and in a nanosecond: at most 1 GHz), the
    /// window is a positive number of ticks, and both polling budgets are
    /// positive.
    pub open spec fn wf(&self) -> bool {
        &&& 1 <= self.window_divisor
        &&& self.window_divisor <= self.reference_frequency_hz
        &&& self.reference_frequency_hz <= 1_000_000_000
        &&& 1 <= self.max_align_iterations
        &&& 1 <= self.max_measure_iterations
    }

    /// The number of reference ticks in one measurement window.
    pub open spec fn spec_target_ticks(&self) -> u32 {
        ((self.reference_frequency_hz / self.window_divisor) as u32)
    }

    /// Computes the target tick count for the measurement window, narrowed
    /// to the reference register's 32-bit width.
    pub fn target_ticks(&self) -> (target: u32)
        requires
            self.wf(),
        ensures
            target == self.spec_target_ticks(),
            target as int == self.reference_frequency_hz as int / self.window_divisor as int,
            1 <= target,
    {
        proof {
            self.lemma_target_ticks_positive();
        }
        (self.reference_frequency_hz / self.window_divisor) as u32
    }

    /// A well-formed window always spans at least one reference tick.
    pub proof fn lemma_target_ticks_positive(&self)
        requires
            self.wf(),
        ensures
            1 <= self.spec_target_ticks(),
            self.spec_target_ticks() as int == self.reference_frequency_hz as int
                / self.window_divisor as int,
    {
        let f = self.reference_frequency_hz as int;
        let d = self.window_divisor as int;
        lemma_div_is_ordered(d, f, d);
        lemma_div_by_self(d);
    }

    /// The configuration for the Q35 ACPI PM timer with the default window
    /// and polling budgets.
    pub fn q35_acpi() -> (config: CalibrationConfig)
        ensures
            config == (CalibrationConfig {
                reference_frequency_hz: DEFAULT_ACPI_TIMER_FREQUENCY,
                window_divisor: TARGET_INTERVAL_SIZE,
                max_align_iterations: MAX_WAIT_CYCLES,
                max_measure_iterations: MAX_WAIT_CYCLES,
            }),
            config.wf(),
    {
        CalibrationConfig {
            reference_frequency_hz: DEFAULT_ACPI_TIMER_FREQUENCY,
            window_divisor: TARGET_INTERVAL_SIZE,
            max_align_iterations: MAX_WAIT_CYCLES,
            max_measure_iterations: MAX_WAIT_CYCLES,
        }
    }
}

impl Default for CalibrationConfig {
    /// The Q35 ACPI PM timer configuration.
    fn default() -> (config: CalibrationConfig)
        ensures
            config == (CalibrationConfig {
                reference_frequency_hz: DEFAULT_ACPI_TIMER_FREQUENCY,
                window_divisor: TARGET_INTERVAL_SIZE,
                max_align_iterations: MAX_WAIT_CYCLES,
                max_measure_iterations: MAX_WAIT_CYCLES,
            }),
            config.wf(),
    {
        CalibrationConfig::q35_acpi()
    }
}

/// A pair of counters the calibrator samples: the fixed-rate reference timer
/// (a 32-bit wrapping register) and the processor's 64-bit cycle counter.
///
/// The model is deterministic: each read, of either counter, marks one
/// instant, numbered by `reads`; `reference_at(n)` and `cycles_at(n)` give
/// the value each counter shows at instant `n`. Hardware implementations
/// live outside this crate; the calibrator is verified against this model,
/// and so is exact for every source that honours it, such as the synthetic
/// clocks used in tests.
pub trait TimerSource {
    /// The source is in a state in which it may still be read.
    open spec fn wf(&self) -> bool {
        true
    }

    /// How many reads (of either counter) have been made so far.
    open spec fn reads(&self) -> nat {
        0
    }

    /// The reference-timer value observed by a read at instant `n`.
    open spec fn reference_at(&self, n: nat) -> u32 {
        0
    }

    /// The cycle-counter value observed by a read at instant `n`.
    open spec fn cycles_at(&self, n: nat) -> u64 {
        0
    }

    /// One direct, synchronous read of the reference timer register.
    fn read_reference(&mut self) -> (tick: u32)
        requires
            old(self).wf(),
            old(self).reads() < 0xFFFF_FFFF_FFFF_FFFF,
        ensures
            final(self).wf(),
            final(self).reads() == old(self).reads() + 1,
            tick == old(self).reference_at(old(self).reads()),
            forall|n: nat| #[trigger] final(self).reference_at(n) == old(self).reference_at(n),
            forall|n: nat| #[trigger] final(self).cycles_at(n) == old(self).cycles_at(n),
    ;

    /// One read of the processor cycle counter.
    fn read_cycles(&mut self) -> (count: u64)
        requires
            old(self).wf(),
            old(self).reads() < 0xFFFF_FFFF_FFFF_FFFF,
        ensures
            final(self).wf(),
            final(self).reads() == old(self).reads() + 1,
            count == old(self).cycles_at(old(self).reads()),
            forall|n: nat| #[trigger] final(self).reference_at(n) == old(self).reference_at(n),
            forall|n: nat| #[trigger] final(self).cycles_at(n) == old(self).cycles_at(n),
    ;
}

/// Number of reads the edge-alignment wait makes, reading the reference
/// timer at instants `next`, `next + 1`, ...: it stops at the first value
/// that differs from `first`, or when the budget runs out.
pub open spec fn spec_align_reads<T: TimerSource>(
    source: T,
    next: nat,
    first: u32,
    budget: nat,
) -> nat
    recommends
        1 <= budget,
    decreases budget,
{
    if budget <= 1 || source.reference_at(next) != first {
        1
    } else {
        1 + spec_align_reads(source, next + 1, first, (budget - 1) as nat)
    }
}

/// Number of reads the measurement wait makes, reading the reference timer
/// at instants `next`, `next + 1`, ... until the modular tick delta from
/// `start` reaches `target`: `Some` of the count on success, `None` when the
/// budget runs out first.
pub open spec fn spec_measure_reads<T: TimerSource>(
    source: T,
    next: nat,
    start: u32,
    target: u32,
    budget: nat,
) -> Option<nat>
    recommends
        1 <= budget,
    decreases budget,
{
    if budget < 1 {
        None
    } else if tick_delta_spec(source.reference_at(next), start) >= target {
        Some(1nat)
    } else if budget == 1 {
        None
    } else {
        match spec_measure_reads(source, next + 1, start, target, (budget - 1) as nat) {
            Some(k) => Some((k + 1) as nat),
            None => None,
        }
    }
}

/// The elapsed time, in nanoseconds, that `delta_ticks` reference ticks
/// represent at `reference_frequency_hz` ticks per second.
pub open spec fn spec_elapsed_ns(delta_ticks: u32, reference_frequency_hz: u64) -> int {
    delta_ticks * 1_000_000_000 / (reference_frequency_hz as int)
}

/// The cycle-counter frequency derived from the two deltas of a completed
/// measurement window, saturated to 64 bits.
pub open spec fn spec_frequency(delta_ticks: u32, delta_cycles: u64, reference_frequency_hz: u64) -> u64
    recommends
        1 <= reference_frequency_hz <= 1_000_000_000,
        1 <= delta_ticks,
{
    let elapsed_ns = spec_elapsed_ns(delta_ticks, reference_frequency_hz);
    let frequency = delta_cycles * 1_000_000_000 / elapsed_ns;
    if frequency > u64::MAX {
        u64::MAX as u64
    } else {
        frequency as u64
    }
}

/// What a calibration run returns on `source` under `config`: the frequency
/// derived from the measurement window, or the reference frequency itself
/// when the measurement wait exhausts its budget.
pub open spec fn spec_calibrate<T: TimerSource>(source: T, config: CalibrationConfig) -> u64
    recommends
        config.wf(),
{
    let p = source.reads();
    let first = source.reference_at(p);
    let a = spec_align_reads(source, p + 1, first, config.max_align_iterations as nat);
    let start_pm = source.reference_at(p + a);
    let start_cycles = source.cycles_at(p + a + 1);
    let target = config.spec_target_ticks();
    match spec_measure_reads(
        source,
        p + a + 2,
        start_pm,
        target,
        config.max_measure_iterations as nat,
    ) {
        None => config.reference_frequency_hz,
        Some(k) => {
            let end_pm = source.reference_at(p + a + 1 + k);
            let end_cycles = source.cycles_at(p + a + 2 + k);
            spec_frequency(
                tick_delta_spec(end_pm, start_pm),
                cycle_delta_spec(end_cycles, start_cycles),
                config.reference_frequency_hz,
            )
        },
    }
}

/// Calibrates the processor cycle counter's frequency, in Hz, against the
/// reference timer presented by `source`.
///
/// The routine waits for a reference tick edge (bounded by
/// `max_align_iterations`; running out merely costs precision), samples the
/// cycle counter, polls the reference timer with wraparound-safe arithmetic
/// until the measurement window has passed (bounded by
/// `max_measure_iterations`), samples the cycle counter again, and converts
/// the two deltas to a frequency. If the measurement wait exhausts its
/// budget, the reference timer is unresponsive and a ratio cannot safely be
/// computed, so `reference_frequency_hz` itself is returned as a
/// conservative fallback. The routine is total: it never panics and always
/// returns a usable value, pinned exactly by [`spec_calibrate`].
pub fn calibrate_tsc_frequency<T: TimerSource>(
    source: &mut T,
    config: &CalibrationConfig,
) -> (frequency_hz: u64)
    requires
        old(source).wf(),
        config.wf(),
        old(source).reads() + config.max_align_iterations + config.max_measure_iterations + 3
            < 0xFFFF_FFFF_FFFF_FFFF,
    ensures
        final(source).wf(),
        frequency_hz == spec_calibrate(*old(source), *config),
        forall|n: nat| #[trigger] final(source).reference_at(n) == old(source).reference_at(n),
        forall|n: nat| #[trigger] final(source).cycles_at(n) == old(source).cycles_at(n),
        final(source).reads() <= old(source).reads() + config.max_align_iterations
            + config.max_measure_iterations + 3,
{
    let ghost source0 = *source;
    let ghost p = source0.reads();

    // Wait for a reference timer edge, so the window starts at a tick
    // boundary instead of partway into a tick.
    let first_pm = source.read_reference();
    let mut next_pm: u32;
    let mut calibration_cycles_left: u64 = config.max_align_iterations;
    let ghost mut done: nat = 0;
    loop
        invariant_except_break
            source.wf(),
            config.wf(),
            p + config.max_align_iterations + config.max_measure_iterations + 3
                < 0xFFFF_FFFF_FFFF_FFFF,
            forall|n: nat| #[trigger] source.reference_at(n) == source0.reference_at(n),
            forall|n: nat| #[trigger] source.cycles_at(n) == source0.cycles_at(n),
            done <= config.max_align_iterations - 1,
            source.reads() == p + 1 + done,
            calibration_cycles_left == config.max_align_iterations - done,
            spec_align_reads(source0, p + 1, first_pm, config.max_align_iterations as nat) == done
                + spec_align_reads(
                source0,
                p + 1 + done,
                first_pm,
                (config.max_align_iterations - done) as nat,
            ),
        ensures
            source.wf(),
            forall|n: nat| #[trigger] source.reference_at(n) == source0.reference_at(n),
            forall|n: nat| #[trigger] source.cycles_at(n) == source0.cycles_at(n),
            ({
                let a = spec_align_reads(
                    source0,
                    p + 1,
                    first_pm,
                    config.max_align_iterations as nat,
                );
                &&& 1 <= a <= config.max_align_iterations
                &&& source.reads() == p + a + 1
                &&& next_pm == source0.reference_at(p + a)
            }),
        decreases calibration_cycles_left,
    {
        next_pm = source.read_reference();
        if next_pm != first_pm {
            proof {
                assert(spec_align_reads(
                    source0,
                    p + 1 + done,
                    first_pm,
                    (config.max_align_iterations - done) as nat,
                ) == 1);
            }
            break;
        }
        calibration_cycles_left = calibration_cycles_left - 1;
        // Avoid an infinite hang by giving up after too many polls: the
        // window then starts away from a tick edge, which only reduces
        // accuracy, so calibration proceeds with the last sample read.
        if calibration_cycles_left == 0 {
            proof {
                assert(spec_align_reads(source0, p + 1 + done, first_pm, 1nat) == 1);
            }
            break;
        }
        proof {
            assert(spec_align_reads(
                source0,
                p + 1 + done,
                first_pm,
                (config.max_align_iterations - done) as nat,
            ) == 1 + spec_align_reads(
                source0,
                p + 2 + done,
                first_pm,
                (config.max_align_iterations - done - 1) as nat,
            ));
            done = done + 1;
        }
    }
    let start_pm = next_pm;
    let ghost a = spec_align_reads(source0, p + 1, first_pm, config.max_align_iterations as nat);

    // Sample the cycle counter as close to the edge as possible.
    let start_cycles = source.read_cycles();

    let target_ticks = config.target_ticks();

    // Poll until the reference timer has advanced by a full window.
    let mut end_pm: u32 = start_pm;
    let mut timed_out = false;
    calibration_cycles_left = config.max_measure_iterations;
    let ghost m0 = p + a + 2;
    let ghost mut measured: nat = 0;
    loop
        invariant_except_break
            source.wf(),
            config.wf(),
            !timed_out,
            p + config.max_align_iterations + config.max_measure_iterations + 3
                < 0xFFFF_FFFF_FFFF_FFFF,
            1 <= a <= config.max_align_iterations,
            m0 == p + a + 2,
            forall|n: nat| #[trigger] source.reference_at(n) == source0.reference_at(n),
            forall|n: nat| #[trigger] source.cycles_at(n) == source0.cycles_at(n),
            measured <= config.max_measure_iterations - 1,
            source.reads() == m0 + measured,
            calibration_cycles_left == config.max_measure_iterations - measured,
            spec_measure_reads(
                source0,
                m0,
                start_pm,
                target_ticks,
                config.max_measure_iterations as nat,
            ) == (match spec_measure_reads(
                source0,
                m0 + measured,
                start_pm,
                target_ticks,
                (config.max_measure_iterations - measured) as nat,
            ) {
                Some(k) => Some((k + measured) as nat),
                None => None::<nat>,
            }),
        ensures
            source.wf(),
            forall|n: nat| #[trigger] source.reference_at(n) == source0.reference_at(n),
            forall|n: nat| #[trigger] source.cycles_at(n) == source0.cycles_at(n),
            ({
                let outcome = spec_measure_reads(
                    source0,
                    m0,
                    start_pm,
                    target_ticks,
                    config.max_measure_iterations as nat,
                );
                if timed_out {
                    &&& outcome is None
                    &&& source.reads() <= m0 + config.max_measure_iterations
                } else {
                    &&& outcome matches Some(k)
                    &&& 1 <= k <= config.max_measure_iterations
                    &&& source.reads() == m0 + k
                    &&& end_pm == source0.reference_at((m0 + k - 1) as nat)
                    &&& tick_delta_spec(end_pm, start_pm) >= target_ticks
                }
            }),
        decreases calibration_cycles_left,
    {
        end_pm = source.read_reference();
        let delta = tick_delta(end_pm, start_pm);
        if delta >= target_ticks {
            proof {
                assert(spec_measure_reads(
                    source0,
                    m0 + measured,
                    start_pm,
                    target_ticks,
                    (config.max_measure_iterations - measured) as nat,
                ) == Some(1nat));
            }
            break;
        }
        calibration_cycles_left = calibration_cycles_left - 1;
        // A reference timer that never completes the window is
        // malfunctioning or unsupported: computing a ratio would divide by a
        // zero or near-zero elapsed time, so give up and fall back.
        if calibration_cycles_left == 0 {
            proof {
                assert(spec_measure_reads(source0, m0 + measured, start_pm, target_ticks, 1nat)
                    is None);
            }
            timed_out = true;
            break;
        }
        proof {
            assert(spec_measure_reads(
                source0,
                m0 + measured,
                start_pm,
                target_ticks,
                (config.max_measure_iterations - measured) as nat,
            ) == (match spec_measure_reads(
                source0,
                m0 + measured + 1,
                start_pm,
                target_ticks,
                (config.max_measure_iterations - measured - 1) as nat,
            ) {
                Some(k) => Some((k + 1) as nat),
                None => None::<nat>,
            }));
            measured = measured + 1;
        }
    }
    if timed_out {
        return config.reference_frequency_hz;
    }

    // Sample the cycle counter at the end of the window.
    let end_cycles = source.read_cycles();

    // Elapsed time in nanoseconds, from the reference tick delta.
    let delta_pm: u64 = tick_delta(end_pm, start_pm) as u64;
    let delta_time_ns: u64 = (delta_pm * 1_000_000_000) / config.reference_frequency_hz;
    proof {
        let f = config.reference_frequency_hz as int;
        lemma_div_is_ordered(f, delta_pm * 1_000_000_000, f);
        lemma_div_by_self(f);
    }

    // Cycle-counter ticks over the same window.
    let delta_tsc: u64 = cycle_delta(end_cycles, start_cycles);

    // Frequency = cycle ticks / elapsed time, saturated to 64 bits.
    let frequency_wide: u128 = ((delta_tsc as u128) * 1_000_000_000) / (delta_time_ns as u128);
    if frequency_wide > u64::MAX as u128 {
        u64::MAX
    } else {
        frequency_wide as u64
    }
}

proof fn lemma_align_reads_all_equal<T: TimerSource>(source: T, next: nat, first: u32, budget: nat)
    requires
        1 <= budget,
        forall|n: nat| #[trigger] source.reference_at(n) == first,
    ensures
        spec_align_reads(source, next, first, budget) == budget,
    decreases budget,
{
    if budget > 1 {
        lemma_align_reads_all_equal(source, next + 1, first, (budget - 1) as nat);
    }
}

proof fn lemma_measure_reads_never_reach<T: TimerSource>(
    source: T,
    next: nat,
    start: u32,
    target: u32,
    budget: nat,
)
    requires
        forall|n: nat| tick_delta_spec(#[trigger] source.reference_at(n), start) < target,
    ensures
        spec_measure_reads(source, next, start, target, budget) is None,
    decreases budget,
{
    if budget > 1 {
        lemma_measure_reads_never_reach(source, next + 1, start, target, (budget - 1) as nat);
    }
}

/// A stuck reference timer cannot hang calibration, and is answered by the
/// fallback: when every read of the reference timer returns the same value,
/// both polling waits exhaust their bounded budgets and the run returns the
/// configured reference frequency, exactly.
pub proof fn lemma_stuck_reference_falls_back<T: TimerSource>(source: T, config: CalibrationConfig)
    requires
        config.wf(),
        forall|n: nat| #[trigger] source.reference_at(n) == source.reference_at(0),
    ensures
        spec_calibrate(source, config) == config.reference_frequency_hz,
{
    let p = source.reads();
    let first = source.reference_at(p);
    lemma_align_reads_all_equal(source, p + 1, first, config.max_align_iterations as nat);
    let a = spec_align_reads(source, p + 1, first, config.max_align_iterations as nat);
    let start_pm = source.reference_at(p + a);
    config.lemma_target_ticks_positive();
    assert(forall|n: nat|
        tick_delta_spec(#[trigger] source.reference_at(n), start_pm)
            < config.spec_target_ticks());
    lemma_measure_reads_never_reach(
        source,
        p + a + 2,
        start_pm,
        config.spec_target_ticks(),
        config.max_measure_iterations as nat,
    );
}

/// Noise-free measurements recover a synthetic cycle rate exactly: if the
/// window spans `delta_ticks` reference ticks amounting to a whole number of
/// nanoseconds, and the cycle counter advanced by exactly the cycles a
/// counter of `rate` Hz produces over those ticks, the derived frequency is
/// `rate` itself. Windows that do not divide evenly differ only by the
/// rounding of the two integer divisions.
pub proof fn lemma_frequency_recovers_exact_rate(
    delta_ticks: u32,
    delta_cycles: u64,
    rate: u64,
    reference_frequency_hz: u64,
)
    requires
        1 <= reference_frequency_hz <= 1_000_000_000,
        1 <= delta_ticks,
        (delta_ticks as int * 1_000_000_000) % (reference_frequency_hz as int) == 0,
        delta_cycles as int * reference_frequency_hz as int == delta_ticks as int * rate as int,
    ensures
        spec_frequency(delta_ticks, delta_cycles, reference_frequency_hz) == rate,
{
    let f = reference_frequency_hz as int;
    let d = delta_ticks as int;
    let c = delta_cycles as int;
    let r = rate as int;
    let g = 1_000_000_000int;
    let e = spec_elapsed_ns(delta_ticks, reference_frequency_hz);
    lemma_fundamental_div_mod(d * g, f);
    assert(d * g == f * e);
    assert(d * g >= g) by (nonlinear_arith)
        requires
            d >= 1,
            g == 1_000_000_000,
    ;
    lemma_div_is_ordered(f, d * g, f);
    lemma_div_by_self(f);
    assert((c * g) * f == (e * r) * f) by (nonlinear_arith)
        requires
            c * f == d * r,
            d * g == f * e,
    ;
    assert(c * g == e * r) by (nonlinear_arith)
        requires
            (c * g) * f == (e * r) * f,
            f >= 1,
    ;
    lemma_div_multiples_vanish(r, e);
}

/// With ideal, noise-free counters the derived frequency is within the
/// rounding error of the two integer divisions: if the cycle counter
/// advanced by exactly the cycles a counter of `rate` Hz produces over the
/// window's ticks, the result is never below `rate`, and overestimates it by
/// at most a factor of the window over the window less one reference tick —
/// for the default 50 ms window, well under one part in ten million.
pub proof fn lemma_frequency_within_rounding_of_rate(
    delta_ticks: u32,
    delta_cycles: u64,
    rate: u64,
    reference_frequency_hz: u64,
)
    requires
        1 <= reference_frequency_hz <= 1_000_000_000,
        1 <= delta_ticks,
        delta_cycles as int * reference_frequency_hz as int == delta_ticks as int * rate as int,
    ensures
        rate <= spec_frequency(delta_ticks, delta_cycles, reference_frequency_hz),
        spec_frequency(delta_ticks, delta_cycles, reference_frequency_hz) as int * (delta_ticks
            as int * 1_000_000_000 - reference_frequency_hz as int + 1) <= rate as int
            * (delta_ticks as int * 1_000_000_000),
{
    let f = reference_frequency_hz as int;
    let d = delta_ticks as int;
    let c = delta_cycles as int;
    let r = rate as int;
    let g = 1_000_000_000int;
    let e = spec_elapsed_ns(delta_ticks, reference_frequency_hz);
    lemma_fundamental_div_mod(d * g, f);
    lemma_mod_division_less_than_divisor(d * g, f);
    let rem_window = (d * g) % f;
    assert(d * g >= g) by (nonlinear_arith)
        requires
            d >= 1,
            g == 1_000_000_000,
    ;
    lemma_div_is_ordered(f, d * g, f);
    lemma_div_by_self(f);
    let q = c * g / e;
    assert((c * g) * f >= (r * e) * f) by (nonlinear_arith)
        requires
            c * f == d * r,
            d * g == f * e + rem_window,
            rem_window >= 0,
            r >= 0,
    ;
    assert(c * g >= r * e) by (nonlinear_arith)
        requires
            (c * g) * f >= (r * e) * f,
            f >= 1,
    ;
    lemma_div_is_ordered(r * e, c * g, e);
    lemma_div_multiples_vanish(r, e);
    lemma_fundamental_div_mod(c * g, e);
    lemma_mod_division_less_than_divisor(c * g, e);
    let rem_cycles = (c * g) % e;
    assert((c * g) * f == (d * r) * g) by (nonlinear_arith)
        requires
            c * f == d * r,
    ;
    assert(q * (d * g - f + 1) <= r * (d * g)) by (nonlinear_arith)
        requires
            q >= 0,
            f >= 1,
            e >= 1,
            c * g == e * q + rem_cycles,
            rem_cycles >= 0,
            d * g == f * e + rem_window,
            rem_window <= f - 1,
            (c * g) * f == (d * r) * g,
    ;
    let result = spec_frequency(delta_ticks, delta_cycles, reference_frequency_hz) as int;
    assert(result <= q);
    assert(result * (d * g - f + 1) <= q * (d * g - f + 1)) by (nonlinear_arith)
        requires
            result <= q,
            d * g - f + 1 >= 0,
    ;
}

proof fn lemma_align_reads_congruent<T1: TimerSource, T2: TimerSource>(
    s1: T1,
    s2: T2,
    next: nat,
    first: u32,
    budget: nat,
)
    requires
        forall|n: nat| #[trigger] s1.reference_at(n) == s2.reference_at(n),
    ensures
        spec_align_reads(s1, next, first, budget) == spec_align_reads(s2, next, first, budget),
    decreases budget,
{
    if budget > 1 {
        lemma_align_reads_congruent(s1, s2, next + 1, first, (budget - 1) as nat);
    }
}

proof fn lemma_measure_reads_congruent<T1: TimerSource, T2: TimerSource>(
    s1: T1,
    s2: T2,
    next: nat,
    start: u32,
    target: u32,
    budget: nat,
)
    requires
        forall|n: nat| #[trigger] s1.reference_at(n) == s2.reference_at(n),
    ensures
        spec_measure_reads(s1, next, start, target, budget) == spec_measure_reads(
            s2,
            next,
            start,
            target,
            budget,
        ),
    decreases budget,
{
    if budget > 1 {
        lemma_measure_reads_congruent(s1, s2, next + 1, start, target, (budget - 1) as nat);
    }
}

/// Calibration is repeatable: two runs under the same configuration, over
/// sources that present identical, noise-free read sequences from the same
/// read position, return identical results.
pub proof fn lemma_calibration_repeatable<T1: TimerSource, T2: TimerSource>(
    s1: T1,
    s2: T2,
    config: CalibrationConfig,
)
    requires
        s1.reads() == s2.reads(),
        forall|n: nat| #[trigger] s1.reference_at(n) == s2.reference_at(n),
        forall|n: nat| #[trigger] s1.cycles_at(n) == s2.cycles_at(n),
    ensures
        spec_calibrate(s1, config) == spec_calibrate(s2, config),
{
    let p = s1.reads();
    let first = s1.reference_at(p);
    lemma_align_reads_congruent(s1, s2, p + 1, first, config.max_align_iterations as nat);
    let a = spec_align_reads(s1, p + 1, first, config.max_align_iterations as nat);
    lemma_measure_reads_congruent(
        s1,
        s2,
        p + a + 2,
        s1.reference_at(p + a),
        config.spec_target_ticks(),
        config.max_measure_iterations as nat,
    );
}

} // verus!
