use orbital_pulse::flog::fine_log;
use orbital_pulse::gate::gate_step_exec;
use orbital_pulse::median::median_of_samples;
use orbital_pulse::ring::compute_delta;
use orbital_pulse::state::{mode_from_raw, mode_to_raw, CalibrationPolicy, Mode};
use orbital_pulse::transition::{initialize, try_transition};

#[test]
fn delta_is_absolute_difference() {
    assert_eq!(compute_delta(10, 3), 7);
    assert_eq!(compute_delta(3, 10), 7);
    assert_eq!(compute_delta(5, 5), 0);
    assert_eq!(compute_delta(u64::MAX, 0), u64::MAX);
    assert_eq!(compute_delta(0, u64::MAX), u64::MAX);
}

#[test]
fn fine_log_exact_values() {
    assert_eq!(fine_log(0), 0);
    assert_eq!(fine_log(1), 256);
    assert_eq!(fine_log(5), 3 * 256);
    assert_eq!(fine_log(255), 8 * 256);
    assert_eq!(fine_log(256), 9 * 256 + 128);
    assert_eq!(fine_log(300), 9 * 256 + 150);
    assert_eq!(fine_log(2500), 12 * 256 + 156);
    assert_eq!(fine_log(u64::MAX as u128), 64 * 256 + 255);
}

#[test]
fn fine_log_monotonic_spot_checks() {
    let mut prev = fine_log(0);
    for v in [1u128, 2, 3, 7, 8, 9, 255, 256, 257, 1000, 65535, 65536, 1 << 40, u128::MAX] {
        let f = fine_log(v);
        assert!(f >= prev, "fine log fell at {v}");
        prev = f;
    }
}

#[test]
fn median_of_known_batch() {
    let deltas: Vec<u64> = vec![5, 1, 9, 3, 7, 2, 8, 4, 6, 10, 11, 12, 13, 14, 15, 0];
    assert_eq!(median_of_samples(&deltas), 8);
}

#[test]
fn median_with_equal_keys() {
    let deltas: Vec<u64> = vec![4; 16];
    assert_eq!(median_of_samples(&deltas), 4);
    let mut halves: Vec<u64> = vec![1; 8];
    halves.extend(vec![9u64; 8]);
    assert_eq!(median_of_samples(&halves), 9);
}

#[test]
fn mode_raw_round_trip() {
    assert_eq!(mode_to_raw(Mode::Aligned), 0);
    assert_eq!(mode_to_raw(Mode::Controlling), 1);
    assert_eq!(mode_to_raw(Mode::Evolving), 2);
    assert_eq!(mode_to_raw(Mode::Calibrating), 255);
    assert_eq!(mode_from_raw(0), Mode::Aligned);
    assert_eq!(mode_from_raw(1), Mode::Controlling);
    assert_eq!(mode_from_raw(2), Mode::Evolving);
    assert_eq!(mode_from_raw(255), Mode::Calibrating);
    // Any byte that encodes no mode recovers to Evolving.
    assert_eq!(mode_from_raw(3), Mode::Evolving);
    assert_eq!(mode_from_raw(77), Mode::Evolving);
}

#[test]
fn gate_enters_evolving_only_above_twice_epsilon() {
    // vi just above epsilon: rest is kept.
    let (mode, xc) = gate_step_exec(Mode::Aligned, 101, 100, 0, 0, 0);
    assert_eq!(mode, Mode::Aligned);
    assert_eq!(xc, 0);
    // vi just above twice epsilon: pressure starts ramping.
    let (mode, xc) = gate_step_exec(Mode::Aligned, 201, 100, 0, 0, 0);
    assert_eq!(mode, Mode::Evolving);
    assert_eq!(xc, 20);
}

#[test]
fn gate_hysteresis_band_does_not_chatter() {
    // Crossing the entry bound and falling straight back into the band
    // must not exit Evolving in the same or the following step.
    let (mode1, _) = gate_step_exec(Mode::Aligned, 201, 100, 0, 0, 0);
    assert_eq!(mode1, Mode::Evolving);
    let (mode2, _) = gate_step_exec(mode1, 101, 100, -100, 20, 2);
    assert_ne!(mode2, Mode::Aligned);
}

#[test]
fn gate_evolving_ramps_to_controlling() {
    let mut mode = Mode::Evolving;
    let mut xc: u64 = 0;
    let mut steps = 0;
    while mode == Mode::Evolving && steps < 20 {
        let r = gate_step_exec(mode, 50, 100, 0, xc, 0);
        mode = r.0;
        xc = r.1;
        steps += 1;
    }
    assert_eq!(mode, Mode::Controlling);
    assert!(xc >= 90);
}

#[test]
fn gate_evolving_returns_to_rest_below_epsilon() {
    let (mode, xc) = gate_step_exec(Mode::Evolving, 50, 100, 1, 40, 5);
    assert_eq!(mode, Mode::Aligned);
    assert_eq!(xc, 0);
}

#[test]
fn gate_controlling_releases_or_reenters_evolving() {
    // Calm: index back inside the band and not rising.
    let (mode, xc) = gate_step_exec(Mode::Controlling, 150, 100, -5, 200, 10);
    assert_eq!(mode, Mode::Aligned);
    assert_eq!(xc, 0);
    // Sharp rise: back to ramping at half pressure.
    let (mode, xc) = gate_step_exec(Mode::Controlling, 300, 100, 50, 300, 10);
    assert_eq!(mode, Mode::Evolving);
    assert_eq!(xc, 150);
    // Otherwise pressure is pinned at the ceiling.
    let (mode, xc) = gate_step_exec(Mode::Controlling, 300, 100, 10, 123, 10);
    assert_eq!(mode, Mode::Controlling);
    assert_eq!(xc, 300);
}

#[test]
fn gate_recovers_from_out_of_range_mode() {
    let (mode, _) = gate_step_exec(Mode::Calibrating, 0, 100, 0, 0, 0);
    assert_eq!(mode, Mode::Evolving);
}

#[test]
fn initialize_clamps_threshold_percent() {
    let low = initialize(vec![1], CalibrationPolicy::DecayOnly, 0, 10);
    assert_eq!(low.gradient_threshold_percent, 1);
    let high = initialize(vec![1], CalibrationPolicy::DecayOnly, 99, 10);
    assert_eq!(high.gradient_threshold_percent, 10);
    let mid = initialize(vec![1], CalibrationPolicy::DecayOnly, 7, 10);
    assert_eq!(mid.gradient_threshold_percent, 7);
}

#[test]
fn corrupted_record_is_rejected_unchanged() {
    let mut s = initialize(vec![1], CalibrationPolicy::DecayOnly, 5, 1000);
    s.current_depth = 0;
    let before = s.clone();
    let r = try_transition(&mut s, 42);
    assert_eq!(r, Err(orbital_pulse::state::ErrorCode::InvalidWindowDepth));
    assert_eq!(s, before);
    assert!(!s.validate());
}

#[test]
fn live_cycle_recovers_out_of_range_mode() {
    // A persisted record can carry a mode byte that decodes to the
    // warm-up state even though the controller is born; the next live
    // cycle resolves it to Evolving instead of running warm-up logic.
    let mut s = initialize(vec![1], CalibrationPolicy::DecayOnly, 5, 1000);
    s.mode = Mode::Calibrating;
    assert!(s.validate());
    let d = try_transition(&mut s, 42).expect("record is well formed");
    assert!(!d.fire);
    assert_eq!(s.mode, Mode::Evolving);
}

#[test]
fn validate_rejects_each_corruption() {
    let fresh = || initialize(vec![1], CalibrationPolicy::DecayOnly, 5, 1000);
    let mut a = fresh();
    a.filled = 17;
    assert!(!a.validate());
    let mut b = fresh();
    b.gradient_threshold_percent = 0;
    assert!(!b.validate());
    let mut c = fresh();
    c.current_orbit = 7;
    assert!(!c.validate());
    let mut d = fresh();
    d.head = 16;
    assert!(!d.validate());
    let mut e = fresh();
    e.variance_index = 40_000;
    assert!(!e.validate());
}

#[test]
fn authority_comparison() {
    let s = initialize(vec![9, 8, 7], CalibrationPolicy::DecayOnly, 5, 1000);
    assert!(s.authority_matches(&vec![9, 8, 7]));
    assert!(!s.authority_matches(&vec![9, 8]));
    assert!(!s.authority_matches(&vec![9, 8, 6]));
}

#[test]
fn validate_accepts_fresh_records() {
    let a = initialize(vec![1], CalibrationPolicy::DecayOnly, 5, 1000);
    assert!(a.validate());
    let b = initialize(vec![1], CalibrationPolicy::MedianWarmup, 5, 0);
    assert!(b.validate());
}
