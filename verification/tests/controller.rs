use orbital_pulse::state::{CalibrationPolicy, Mode, PulseState};
use orbital_pulse::transition::{initialize, try_transition};

fn step(s: &mut PulseState, sample: u64) -> bool {
    try_transition(s, sample).expect("well-formed record").fire
}

fn new_decay(epsilon: u64, threshold_percent: u64) -> PulseState {
    initialize(vec![1, 2, 3], CalibrationPolicy::DecayOnly, threshold_percent, epsilon)
}

#[test]
fn median_warmup_births_with_lower_median() {
    let mut s = initialize(vec![1], CalibrationPolicy::MedianWarmup, 5, 0);
    // Samples chosen so the sixteen warm-up deltas are
    // [5,1,9,3,7,2,8,4,6,10,11,12,13,14,15,0]; sorted that is [0..=15],
    // whose element at index eight is 8.
    let deltas: [u64; 16] = [5, 1, 9, 3, 7, 2, 8, 4, 6, 10, 11, 12, 13, 14, 15, 0];
    let mut sample: u64 = 0;
    for (k, d) in deltas.iter().enumerate() {
        sample += d;
        assert!(!s.is_born);
        assert_eq!(s.mode, Mode::Calibrating);
        let fired = step(&mut s, sample);
        assert!(!fired, "no gate fire during warm-up (step {k})");
        // The buffer is filled positionally and stays frozen: no variance
        // estimation or window adaptation runs before birth.
        assert_eq!(s.variance_index, 0);
        assert_eq!(s.current_depth, 11);
        assert_eq!(s.head, 0);
    }
    assert!(s.is_born);
    assert_eq!(s.epsilon, 8);
    assert_eq!(s.mode, Mode::Aligned);
    assert_eq!(s.calib_count, 16);
}

#[test]
fn first_live_cycle_exact_values() {
    let mut s = new_decay(1000, 5);
    // Step one: delta 100, a single valid window entry, variance zero.
    let fired = step(&mut s, 100);
    assert!(fired);
    assert_eq!(s.variance_index, 0);
    assert_eq!(s.last_fine_log, 0);
    assert_eq!(s.current_depth, 11);
    assert_eq!(s.epsilon, 990);
    assert_eq!(s.current_orbit, 1);
    assert_eq!(s.last_noise, 100);
    // Step two: delta 0, window [0, 100], variance 2500, fine log
    // 12*256 + 156 = 3228, smoothed index 3228/5 = 645; the rising
    // gradient widens the window.
    let fired = step(&mut s, 100);
    assert!(fired);
    assert_eq!(s.last_fine_log, 3228);
    assert_eq!(s.variance_index, 645);
    assert_eq!(s.prev_variance_index, 0);
    assert_eq!(s.current_depth, 12);
    assert_eq!(s.epsilon, 981);
    assert_eq!(s.current_orbit, 2);
}

#[test]
fn depth_and_head_stay_in_their_bands() {
    let mut s = new_decay(5000, 3);
    let mut sample: u64 = 0;
    // A crude deterministic scramble to sweep volatility up and down.
    for k in 0u64..500 {
        sample = sample.wrapping_mul(6364136223846793005).wrapping_add(k * k + 1);
        let _ = step(&mut s, sample % 100_000);
        assert!((7..=15).contains(&s.current_depth), "depth left [7,15]");
        assert!(s.head < 16, "head left [0,16)");
        assert!(s.validate());
    }
}

#[test]
fn window_widens_then_shrinks_with_volatility() {
    let mut s = new_decay(u64::MAX, 10);
    // Volatile phase: large, varying deltas push the smoothed index up,
    // and the rising gradient widens the trailing window.
    let mut sample: u64 = 0;
    for k in 0u64..50 {
        sample = sample.wrapping_add((k * 7919) % 100_000 + 1);
        let _ = step(&mut s, sample);
    }
    let peak = s.current_depth;
    assert!(peak > 7, "volatile stream did not widen the window");
    // Still phase: the variance collapses, the falling gradient shrinks
    // the window back to its floor.
    for _ in 0..100 {
        let _ = step(&mut s, sample);
    }
    assert_eq!(s.current_depth, 7);
}

#[test]
fn replay_is_deterministic() {
    let samples: Vec<u64> = (0u64..200)
        .map(|k| k.wrapping_mul(2654435761).rotate_left((k % 31) as u32))
        .collect();
    let mut a = new_decay(123_456, 4);
    let mut b = new_decay(123_456, 4);
    for x in &samples {
        let fa = step(&mut a, *x);
        let fb = step(&mut b, *x);
        assert_eq!(fa, fb);
        assert_eq!(a, b, "states diverged on the same stream");
    }
}

#[test]
fn decay_is_monotonic_and_exact() {
    let mut s = new_decay(1_000_000, 5);
    // A constant sample gives delta zero after the first step: variance
    // stays zero, the mode rests, and every step fires and decays.
    let mut prev_eps = s.epsilon;
    let fired = step(&mut s, 7);
    assert!(fired);
    assert_eq!(s.epsilon, 990_000);
    prev_eps = prev_eps.min(s.epsilon);
    for _ in 0..300 {
        let fired = step(&mut s, 7);
        assert!(fired);
        assert!(s.epsilon <= prev_eps, "epsilon grew after a fire");
        prev_eps = s.epsilon;
    }
    assert!(s.epsilon > 0);
}

#[test]
fn decay_stops_at_small_epsilon() {
    let mut s = new_decay(50, 5);
    for _ in 0..50 {
        let fired = step(&mut s, 0);
        assert!(fired);
        // Below one hundred the truncated one percent is zero: epsilon
        // converges toward but never crosses below its floor.
        assert_eq!(s.epsilon, 50);
    }
}

#[test]
fn orbit_advances_once_per_fire_and_wraps() {
    let mut s = new_decay(1_000_000, 5);
    let mut expected: u8 = 0;
    for _ in 0..12 {
        let fired = step(&mut s, 7);
        assert!(fired);
        expected = (expected + 1) % 5;
        assert_eq!(s.current_orbit, expected);
    }
    // Twelve fires: the counter wrapped 4 -> 0 twice on the way.
    assert_eq!(s.current_orbit, 2);
}

#[test]
fn end_to_end_quiet_then_still() {
    let mut s = new_decay(1000, 5);
    // Loud phase: every delta is 1500, at or above which a reward can
    // never fire, whatever the mode does.
    let mut sample: u64 = 0;
    for _ in 0..40 {
        sample += 1500;
        let fired = step(&mut s, sample);
        assert!(!fired, "gate fired on a delta above epsilon");
        assert_eq!(s.current_orbit, 0);
        assert_eq!(s.epsilon, 1000);
    }
    // Still phase: delta zero from here on. The variance and the smoothed
    // index fall, the mode settles back to rest, and the reward fires.
    let mut fires = 0u32;
    let mut steps_until_first = None;
    let mut orbit_before = s.current_orbit;
    for k in 0..200 {
        let fired = step(&mut s, sample);
        if fired {
            fires += 1;
            if steps_until_first.is_none() {
                steps_until_first = Some(k);
            }
            assert_eq!(s.current_orbit, (orbit_before + 1) % 5, "orbit must advance by one");
        } else {
            assert_eq!(s.current_orbit, orbit_before);
        }
        orbit_before = s.current_orbit;
        if fires >= 6 {
            break;
        }
    }
    assert!(steps_until_first.is_some(), "gate never fired once the signal went still");
    assert!(fires >= 6, "gate did not keep firing on a still signal");
}
