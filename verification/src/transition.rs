//! Creation of a controller record and the one-invocation state
//! transition: ingest a sample, update the rolling statistics, drive the
//! hysteresis gate and decide whether the reward fires.

use vstd::prelude::*;
use crate::state::{
    CalibrationPolicy, Decision, ErrorCode, Mode, PulseState, StateModel, FINE_LOG_MAX,
    HISTORY_LEN, INITIAL_DEPTH, MAX_DEPTH, MAX_THRESHOLD_PERCENT, MIN_DEPTH,
    MIN_THRESHOLD_PERCENT, ORBIT_MODULUS, REWARD_AMOUNT,
};
use crate::ring::{compute_delta, delta_of, window_seq};
use crate::stats::{compute_window_variance, variance_of};
use crate::flog::{fine_log, fine_log_of, lemma_fine_log_le_max};
use crate::median::{median_of, median_of_samples};
use crate::gate::{
    adapt_depth, gate_step, gate_step_exec, ewma_next, lemma_ewma_bounded, threshold_of,
};

verus! {

/// The configured threshold percentage, clamped to its legal band.
pub open spec fn clamp_threshold(t: u64) -> u64 {
    if t < MIN_THRESHOLD_PERCENT {
        MIN_THRESHOLD_PERCENT
    } else if t > MAX_THRESHOLD_PERCENT {
        MAX_THRESHOLD_PERCENT
    } else {
        t
    }
}

/// The record a freshly created controller holds. Under the median
/// warm-up policy the baseline starts at zero and the controller is not
/// yet born; under the decay-only policy the supplied baseline is taken
/// as it is and the live cycle starts at once, resting.
pub open spec fn init_spec(
    authority: Seq<u8>,
    policy: CalibrationPolicy,
    threshold_percent: u64,
    initial_epsilon: u64,
) -> StateModel {
    StateModel {
        authority: authority,
        last_noise: 0u64,
        epsilon: if policy == CalibrationPolicy::DecayOnly {
            initial_epsilon
        } else {
            0u64
        },
        history: Seq::new(HISTORY_LEN as nat, |i: int| 0u64),
        filled: 0u8,
        current_depth: INITIAL_DEPTH,
        head: 0u8,
        variance_index: 0u64,
        prev_variance_index: 0u64,
        last_fine_log: 0u64,
        gradient_threshold_percent: clamp_threshold(threshold_percent),
        x_control: 0u64,
        mode: if policy == CalibrationPolicy::DecayOnly {
            Mode::Aligned
        } else {
            Mode::Calibrating
        },
        calib_count: 0u8,
        is_born: policy == CalibrationPolicy::DecayOnly,
        current_orbit: 0u8,
        policy: policy,
    }
}

/// One warm-up step of the median calibration: the delta is recorded
/// positionally, and the sixteenth one sorts the collected batch, sets
/// the baseline to its lower median and births the controller into the
/// Aligned mode.
pub open spec fn calib_step(s: StateModel, sample: u64) -> StateModel {
    let delta = delta_of(sample, s.last_noise);
    let h2 = s.history.update(s.calib_count as int, delta);
    if s.calib_count + 1 == HISTORY_LEN as u8 {
        StateModel {
            history: h2,
            calib_count: HISTORY_LEN as u8,
            filled: HISTORY_LEN as u8,
            epsilon: median_of(h2),
            is_born: true,
            mode: Mode::Aligned,
            last_noise: sample,
            ..s
        }
    } else {
        StateModel {
            history: h2,
            calib_count: (s.calib_count + 1) as u8,
            filled: (s.calib_count + 1) as u8,
            last_noise: sample,
            ..s
        }
    }
}

/// One live cycle: record the delta in the ring, estimate the volatility
/// over the trailing window (never reading more entries than have been
/// written), compress and smooth it, adapt the window depth, step the
/// hysteresis gate, and decide the reward. On a fire the cyclic orbit
/// counter advances, and under the decay-only policy the baseline shrinks
/// by one percent.
pub open spec fn live_step(s: StateModel, sample: u64) -> (StateModel, bool) {
    let delta = delta_of(sample, s.last_noise);
    let h2 = s.history.update(s.head as int, delta);
    let head2 = (((s.head as int) + 1) % 16) as u8;
    let filled2 = if s.filled < HISTORY_LEN as u8 {
        (s.filled + 1) as u8
    } else {
        s.filled
    };
    let w_len = if s.current_depth <= filled2 {
        s.current_depth
    } else {
        filled2
    };
    let m_v = variance_of(window_seq(h2, head2 as int, w_len as int));
    let f_log = fine_log_of(m_v as u128);
    let prev = s.variance_index;
    let vi = ewma_next(prev, f_log);
    let grad = vi as int - prev as int;
    let thr = threshold_of(vi, s.gradient_threshold_percent);
    let depth2 = adapt_depth(s.current_depth, grad, thr);
    let gate = gate_step(s.mode, vi, s.epsilon, grad, s.x_control, thr);
    let fire = gate.0 == Mode::Aligned && delta < s.epsilon;
    let eps2 = if fire && s.policy == CalibrationPolicy::DecayOnly {
        (s.epsilon - s.epsilon / 100) as u64
    } else {
        s.epsilon
    };
    let orbit2 = if fire {
        (((s.current_orbit as int) + 1) % (ORBIT_MODULUS as int)) as u8
    } else {
        s.current_orbit
    };
    (
        StateModel {
            last_noise: sample,
            epsilon: eps2,
            history: h2,
            filled: filled2,
            current_depth: depth2,
            head: head2,
            variance_index: vi,
            prev_variance_index: prev,
            last_fine_log: f_log,
            x_control: gate.1,
            mode: gate.0,
            current_orbit: orbit2,
            ..s
        },
        fire,
    )
}

/// The whole transition: a warm-up step while the controller is not yet
/// born, a live cycle afterwards. The reward can fire only in a live
/// cycle.
pub open spec fn transition_spec(s: StateModel, sample: u64) -> (StateModel, bool) {
    if !s.is_born {
        (calib_step(s, sample), false)
    } else {
        live_step(s, sample)
    }
}

/// A transition preserves well-formedness, never unbirths a controller,
/// and once the controller is born its baseline never grows: a gate fire
/// under the decay-only policy shrinks it, and nothing else touches it.
pub proof fn lemma_transition_wf(s: StateModel, sample: u64)
    requires
        s.wf(),
    ensures
        transition_spec(s, sample).0.wf(),
        s.is_born ==> transition_spec(s, sample).0.is_born,
        s.is_born ==> transition_spec(s, sample).0.epsilon <= s.epsilon,
        transition_spec(s, sample).0.authority == s.authority,
        transition_spec(s, sample).0.policy == s.policy,
{
    if !s.is_born {
        assert(calib_step(s, sample).wf());
    } else {
        let m_v = live_step_m_v(s, sample);
        lemma_fine_log_le_max(m_v);
        lemma_ewma_bounded(s.variance_index, fine_log_of(m_v));
        assert(live_step(s, sample).0.wf());
    }
}

/// The raw variance a live cycle computes, named for proofs.
pub open spec fn live_step_m_v(s: StateModel, sample: u64) -> u128 {
    let delta = delta_of(sample, s.last_noise);
    let h2 = s.history.update(s.head as int, delta);
    let head2 = (((s.head as int) + 1) % 16) as u8;
    let filled2 = if s.filled < HISTORY_LEN as u8 {
        (s.filled + 1) as u8
    } else {
        s.filled
    };
    let w_len = if s.current_depth <= filled2 {
        s.current_depth
    } else {
        filled2
    };
    variance_of(window_seq(h2, head2 as int, w_len as int)) as u128
}

/// The reward fires at most once per invocation, and only in a live
/// cycle that ends at rest with the fresh delta strictly under the
/// baseline; a warm-up step never fires.
pub proof fn lemma_fire_conditions(s: StateModel, sample: u64)
    ensures
        transition_spec(s, sample).1 ==> {
            &&& s.is_born
            &&& transition_spec(s, sample).0.mode == Mode::Aligned
            &&& delta_of(sample, s.last_noise) < s.epsilon
        },
{
}

/// The cyclic orbit counter advances by exactly one per fire, wrapping
/// at five, and does not move on an invocation that does not fire.
pub proof fn lemma_orbit_advances_per_fire(s: StateModel, sample: u64)
    ensures
        transition_spec(s, sample).1 ==> transition_spec(s, sample).0.current_orbit == (
        (s.current_orbit + 1) % (ORBIT_MODULUS as int)) as u8,
        !transition_spec(s, sample).1 ==> transition_spec(s, sample).0.current_orbit
            == s.current_orbit,
{
}

/// The state after replaying a whole sequence of samples, one transition
/// per element.
pub open spec fn replay(s: StateModel, samples: Seq<u64>) -> StateModel
    decreases samples.len(),
{
    if samples.len() == 0 {
        s
    } else {
        replay(transition_spec(s, samples[0]).0, samples.drop_first())
    }
}

/// The controller is deterministic: the resulting record is a pure
/// function of the starting record and the sample sequence, so two
/// independently constructed controllers in the same initial state replay
/// the same samples to identical states.
pub proof fn lemma_replay_deterministic(s1: StateModel, s2: StateModel, samples: Seq<u64>)
    requires
        s1 == s2,
    ensures
        replay(s1, samples) == replay(s2, samples),
{
}

/// Reward-gate decay is monotonic: over any number of consecutive
/// transitions of a born controller, the baseline never increases, so it
/// converges toward — and, shrinking by a truncated one percent, never
/// crosses below — zero.
pub proof fn lemma_replay_epsilon_monotonic(s: StateModel, samples: Seq<u64>)
    requires
        s.wf(),
        s.is_born,
    ensures
        replay(s, samples).wf(),
        replay(s, samples).is_born,
        replay(s, samples).epsilon <= s.epsilon,
    decreases samples.len(),
{
    if samples.len() > 0 {
        lemma_transition_wf(s, samples[0]);
        lemma_replay_epsilon_monotonic(transition_spec(s, samples[0]).0, samples.drop_first());
    }
}

/// Creates a controller record for one authority: defaults everywhere,
/// the threshold percentage clamped to its band, and the baseline either
/// supplied (decay-only) or awaiting the median warm-up.
pub fn initialize(
    authority: Vec<u8>,
    policy: CalibrationPolicy,
    threshold_percent: u64,
    initial_epsilon: u64,
) -> (s: PulseState)
    ensures
        s@ == init_spec(authority@, policy, threshold_percent, initial_epsilon),
        s@.wf(),
{
    let mut history: Vec<u64> = Vec::new();
    let mut i: usize = 0;
    while i < HISTORY_LEN
        invariant
            i <= HISTORY_LEN,
            history@.len() == i,
            forall|k: int| 0 <= k < i ==> history@[k] == 0u64,
        decreases HISTORY_LEN - i,
    {
        history.push(0u64);
        i = i + 1;
    }
    proof {
        assert(history@ =~= Seq::new(HISTORY_LEN as nat, |k: int| 0u64));
    }
    let threshold = if threshold_percent < MIN_THRESHOLD_PERCENT {
        MIN_THRESHOLD_PERCENT
    } else if threshold_percent > MAX_THRESHOLD_PERCENT {
        MAX_THRESHOLD_PERCENT
    } else {
        threshold_percent
    };
    let decay_only = match policy {
        CalibrationPolicy::DecayOnly => true,
        CalibrationPolicy::MedianWarmup => false,
    };
    let s = PulseState {
        authority,
        last_noise: 0,
        epsilon: if decay_only {
            initial_epsilon
        } else {
            0
        },
        history,
        filled: 0,
        current_depth: INITIAL_DEPTH,
        head: 0,
        variance_index: 0,
        prev_variance_index: 0,
        last_fine_log: 0,
        gradient_threshold_percent: threshold,
        x_control: 0,
        mode: if decay_only {
            Mode::Aligned
        } else {
            Mode::Calibrating
        },
        calib_count: 0,
        is_born: decay_only,
        current_orbit: 0,
        policy,
    };
    proof {
        assert(s@ =~= init_spec(s.authority@, policy, threshold_percent, initial_epsilon));
    }
    s
}

/// One warm-up step: record the delta positionally and, on the sixteenth,
/// sort the batch, set the baseline to the lower median and birth the
/// controller.
fn calibration_step(state: &mut PulseState, sample: u64)
    requires
        old(state)@.wf(),
        !old(state)@.is_born,
    ensures
        final(state)@ == calib_step(old(state)@, sample),
{
    let delta = compute_delta(sample, state.last_noise);
    let idx = state.calib_count as usize;
    state.history.set(idx, delta);
    state.calib_count = state.calib_count + 1;
    state.filled = state.calib_count;
    if state.calib_count == HISTORY_LEN as u8 {
        let eps = median_of_samples(&state.history);
        state.epsilon = eps;
        state.is_born = true;
        state.mode = Mode::Aligned;
    }
    state.last_noise = sample;
    proof {
        assert(state@ =~= calib_step(old(state)@, sample));
    }
}

/// One live cycle over the executable record; returns whether the reward
/// gate fired.
fn live_transition(state: &mut PulseState, sample: u64) -> (fire: bool)
    requires
        old(state)@.wf(),
        old(state)@.is_born,
    ensures
        final(state)@ == live_step(old(state)@, sample).0,
        fire == live_step(old(state)@, sample).1,
{
    let ghost s0 = state@;
    let delta = compute_delta(sample, state.last_noise);
    let h_idx = state.head as usize;
    state.history.set(h_idx, delta);
    state.head = (state.head + 1) % 16;
    if state.filled < HISTORY_LEN as u8 {
        state.filled = state.filled + 1;
    }
    let w_len = if state.current_depth <= state.filled {
        state.current_depth
    } else {
        state.filled
    };
    let m_v = compute_window_variance(&state.history, state.head, w_len);
    proof {
        assert(m_v == live_step_m_v(s0, sample));
    }
    let f_log = fine_log(m_v);
    let prev = state.variance_index;
    proof {
        lemma_ewma_bounded(prev, f_log);
    }
    let vi = (prev * 4 + f_log) / 5;
    proof {
        assert(vi == ewma_next(prev, f_log));
    }
    state.prev_variance_index = prev;
    state.variance_index = vi;
    state.last_fine_log = f_log;
    let grad: i64 = vi as i64 - prev as i64;
    proof {
        assert(vi * state.gradient_threshold_percent <= 330230) by (nonlinear_arith)
            requires
                vi <= 33023,
                state.gradient_threshold_percent <= 10,
        ;
    }
    let thr = vi * state.gradient_threshold_percent / 100;
    proof {
        assert(thr as int == threshold_of(vi, s0.gradient_threshold_percent));
        assert(thr <= FINE_LOG_MAX);
    }
    if grad < -(thr as i64) && state.current_depth > MIN_DEPTH {
        state.current_depth = state.current_depth - 1;
    } else if grad > thr as i64 && state.current_depth < MAX_DEPTH {
        state.current_depth = state.current_depth + 1;
    }
    proof {
        assert(state.current_depth == adapt_depth(
            s0.current_depth,
            grad as int,
            thr as int,
        ));
    }
    let stepped = gate_step_exec(state.mode, vi, state.epsilon, grad, state.x_control, thr);
    state.mode = stepped.0;
    state.x_control = stepped.1;
    let fire = match state.mode {
        Mode::Aligned => delta < state.epsilon,
        _ => false,
    };
    if fire {
        state.current_orbit = (state.current_orbit + 1) % ORBIT_MODULUS;
        let decay = match state.policy {
            CalibrationPolicy::DecayOnly => true,
            CalibrationPolicy::MedianWarmup => false,
        };
        if decay {
            state.epsilon = state.epsilon - state.epsilon / 100;
        }
    }
    state.last_noise = sample;
    proof {
        assert(state@ =~= live_step(s0, sample).0);
    }
    fire
}

/// The whole invocation over a loaded record: rejects a corrupted record
/// unchanged, runs a warm-up step or a live cycle on a sound one, and
/// returns the pure reward decision. The external ledger call, and any
/// rollback should it fail, are the host's task.
pub fn try_transition(state: &mut PulseState, sample: u64) -> (r: Result<Decision, ErrorCode>)
    ensures
        r is Ok <==> old(state)@.wf(),
        !old(state)@.wf() ==> r == Err::<Decision, ErrorCode>(ErrorCode::InvalidWindowDepth)
            && *final(state) == *old(state),
        old(state)@.wf() ==> {
            &&& final(state)@ == transition_spec(old(state)@, sample).0
            &&& final(state)@.wf()
            &&& (r matches Ok(d) ==> {
                &&& d.fire == transition_spec(old(state)@, sample).1
                &&& d.amount == if d.fire {
                    REWARD_AMOUNT
                } else {
                    0u64
                }
            })
            &&& old(state)@.is_born ==> final(state)@.epsilon <= old(state)@.epsilon
        },
{
    if !state.validate() {
        return Err(ErrorCode::InvalidWindowDepth);
    }
    proof {
        lemma_transition_wf(state@, sample);
    }
    let fire = if !state.is_born {
        calibration_step(state, sample);
        false
    } else {
        live_transition(state, sample)
    };
    let amount = if fire {
        REWARD_AMOUNT
    } else {
        0
    };
    Ok(Decision { fire, amount })
}

} // verus!
