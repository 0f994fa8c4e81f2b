use qemu_resources::q35::synthetic::SyntheticClock;
use qemu_resources::q35::timer::{
    calibrate_tsc_frequency, cycle_delta, tick_delta, CalibrationConfig,
    DEFAULT_ACPI_TIMER_FREQUENCY, MAX_WAIT_CYCLES, TARGET_INTERVAL_SIZE,
};

fn acpi_config() -> CalibrationConfig {
    CalibrationConfig::q35_acpi()
}

#[test]
fn tick_delta_without_wraparound() {
    assert_eq!(tick_delta(100, 40), 60);
    assert_eq!(tick_delta(40, 40), 0);
    assert_eq!(tick_delta(0xFFFF_FFFF, 0), 0xFFFF_FFFF);
}

#[test]
fn tick_delta_across_wraparound() {
    // A 32-bit counter that advances 0x20 ticks from 0xFFFFFFF0 wraps to
    // 0x00000010; modular subtraction recovers the elapsed 0x20 exactly.
    assert_eq!(tick_delta(0x0000_0010, 0xFFFF_FFF0), 0x20);
    assert_eq!(tick_delta(0, 0xFFFF_FFFF), 1);
}

#[test]
fn cycle_delta_without_wraparound() {
    assert_eq!(cycle_delta(2_000_000_000, 500_000_000), 1_500_000_000);
    assert_eq!(cycle_delta(7, 7), 0);
}

#[test]
fn cycle_delta_across_wraparound() {
    assert_eq!(cycle_delta(0x10, 0xFFFF_FFFF_FFFF_FFF0), 0x20);
}

#[test]
fn default_config_is_the_acpi_pm_timer() {
    let config = CalibrationConfig::default();
    assert_eq!(config.reference_frequency_hz, DEFAULT_ACPI_TIMER_FREQUENCY);
    assert_eq!(config.reference_frequency_hz, 3_579_545);
    assert_eq!(config.window_divisor, TARGET_INTERVAL_SIZE);
    assert_eq!(config.window_divisor, 20);
    assert_eq!(config.max_align_iterations, MAX_WAIT_CYCLES);
    assert_eq!(config.max_measure_iterations, 1_000_000);
}

#[test]
fn target_ticks_for_acpi_frequency() {
    // 3,579,545 Hz over a twentieth of a second is exactly 178,977 ticks.
    assert_eq!(acpi_config().target_ticks(), 178_977);
}

#[test]
fn stuck_reference_timer_returns_fallback() {
    // A reference frequency of zero leaves the simulated register stuck at
    // its first value forever: calibration must terminate within its budgets
    // and return the configured reference frequency exactly.
    let mut clock = SyntheticClock::new(0, 1_000_000, 100);
    let frequency = calibrate_tsc_frequency(&mut clock, &acpi_config());
    assert_eq!(frequency, DEFAULT_ACPI_TIMER_FREQUENCY);
}

fn assert_within_one_percent(measured: u64, expected: u64) {
    let tolerance = expected / 100;
    assert!(
        measured >= expected - tolerance && measured <= expected + tolerance,
        "measured {measured} Hz, expected within 1% of {expected} Hz"
    );
}

#[test]
fn recovers_synthetic_rate_of_one_gigahertz() {
    let mut clock = SyntheticClock::new(3_579_545, 1_000_000_000, 100);
    let frequency = calibrate_tsc_frequency(&mut clock, &acpi_config());
    assert_within_one_percent(frequency, 1_000_000_000);
}

#[test]
fn recovers_synthetic_rate_of_two_point_four_gigahertz() {
    let mut clock = SyntheticClock::new(3_579_545, 2_400_000_000, 100);
    let frequency = calibrate_tsc_frequency(&mut clock, &acpi_config());
    assert_within_one_percent(frequency, 2_400_000_000);
}

#[test]
fn end_to_end_two_gigahertz_cycle_counter() {
    // Reference counter at 3,579,545 Hz, cycle counter at 2 GHz, both read
    // through the simulated clock: the result must land within 1% of 2 GHz.
    let mut clock = SyntheticClock::new(3_579_545, 2_000_000_000, 100);
    let frequency = calibrate_tsc_frequency(&mut clock, &acpi_config());
    assert_within_one_percent(frequency, 2_000_000_000);
}

#[test]
fn repeated_runs_on_identical_inputs_agree() {
    // Two fresh, noise-free synthetic clocks present the same read sequence,
    // so two calibration calls must return identical results.
    let config = acpi_config();
    let mut first_clock = SyntheticClock::new(3_579_545, 1_000_000_000, 100);
    let mut second_clock = SyntheticClock::new(3_579_545, 1_000_000_000, 100);
    let first = calibrate_tsc_frequency(&mut first_clock, &config);
    let second = calibrate_tsc_frequency(&mut second_clock, &config);
    assert_eq!(first, second);
}

#[test]
fn small_window_scenario_is_exact() {
    // A fully hand-checked run. The reference register gains 2 ticks per
    // read and the cycle counter 1000 per read (1 ms of simulated time per
    // read). With a 1-tick window over a 20 Hz reference: the edge is seen
    // at the second read (register 0 -> 2), the window closes on the next
    // poll with a 4-tick delta (register 2 -> 6), the cycle counter gains
    // 2000 between its two samples, and 4 ticks at 20 Hz are 200 ms, giving
    // 2000 cycles / 0.2 s = 10,000 Hz.
    let config = CalibrationConfig {
        reference_frequency_hz: 20,
        window_divisor: 20,
        max_align_iterations: 2,
        max_measure_iterations: 2,
    };
    let mut clock = SyntheticClock::new(2_000, 1_000_000, 1_000_000);
    let frequency = calibrate_tsc_frequency(&mut clock, &config);
    assert_eq!(frequency, 10_000);
}

#[test]
fn degraded_alignment_still_calibrates() {
    // The reference gains about a third of a tick per read, so a two-poll
    // edge wait runs out before any edge is seen. Failing to align is not
    // fatal: measurement proceeds from the last sample and the result is
    // merely a little less precise, still well within 1%.
    let config = CalibrationConfig {
        reference_frequency_hz: 3_579_545,
        window_divisor: 20,
        max_align_iterations: 2,
        max_measure_iterations: 1_000_000,
    };
    let mut clock = SyntheticClock::new(3_579_545, 2_000_000_000, 100);
    let frequency = calibrate_tsc_frequency(&mut clock, &config);
    assert_within_one_percent(frequency, 2_000_000_000);
}

#[test]
fn measured_frequency_is_deterministic_mid_stream() {
    // Restarting from the same read position gives the same answer even
    // when the first window did not start at time zero.
    let config = acpi_config();
    let mut first_clock = SyntheticClock::new(3_579_545, 1_000_000_000, 100);
    first_clock.reads_made = 12_345;
    let mut second_clock = SyntheticClock::new(3_579_545, 1_000_000_000, 100);
    second_clock.reads_made = 12_345;
    let first = calibrate_tsc_frequency(&mut first_clock, &config);
    let second = calibrate_tsc_frequency(&mut second_clock, &config);
    assert_eq!(first, second);
    assert_within_one_percent(first, 1_000_000_000);
}
