//! The controller's long-lived record, its mathematical model and its
//! well-formedness invariant.

use vstd::prelude::*;

verus! {

/// Number of slots in the delta ring buffer.
pub const HISTORY_LEN: usize = 16;

/// Smallest trailing-window depth the adaptive controller may select.
pub const MIN_DEPTH: u8 = 7;

/// Largest trailing-window depth the adaptive controller may select.
pub const MAX_DEPTH: u8 = 15;

/// Window depth a freshly created controller starts with.
pub const INITIAL_DEPTH: u8 = 11;

/// Lower clamp of the gradient threshold percentage.
pub const MIN_THRESHOLD_PERCENT: u64 = 1;

/// Upper clamp of the gradient threshold percentage.
pub const MAX_THRESHOLD_PERCENT: u64 = 10;

/// The cyclic gate-fire counter wraps at this modulus.
pub const ORBIT_MODULUS: u8 = 5;

/// Fixed amount credited by the ledger on each gate fire.
pub const REWARD_AMOUNT: u64 = 100_000_000;

/// Largest value the fixed-point log transform can produce: the raw
/// variance is at most 128 bits long, so the packed form is at most
/// `128 * 256 + 255`.
pub const FINE_LOG_MAX: u64 = 33023;

/// State of the three-state hysteresis gate, plus the transient warm-up
/// state a median-calibrating controller is created in.
#[derive(Clone, Copy, Debug, PartialEq, Eq, Structural)]
pub enum Mode {
    /// Resting, low volatility; the only state in which the reward gate
    /// may fire.
    Aligned,
    /// Maximum control pressure, monitoring for release.
    Controlling,
    /// Volatility rising, control pressure ramping up.
    Evolving,
    /// Median warm-up has not completed yet; no live cycle runs.
    Calibrating,
}

/// How the baseline threshold `epsilon` is established. A controller picks
/// exactly one policy at creation and never mixes the two.
#[derive(Clone, Copy, Debug, PartialEq, Eq, Structural)]
pub enum CalibrationPolicy {
    /// `epsilon` is set once, to the lower median of the first sixteen
    /// deltas; no live cycle runs until then, and `epsilon` never changes
    /// afterwards.
    MedianWarmup,
    /// `epsilon` is supplied at creation and shrinks by one percent on
    /// every gate fire; there is no warm-up phase.
    DecayOnly,
}

/// Mathematical model of a controller record: every field of the
/// executable state as a plain value, with the ring buffer as a sequence.
#[verifier::ext_equal]
pub ghost struct StateModel {
    /// Identity bytes of the sole party permitted to drive transitions.
    pub authority: Seq<u8>,
    /// Previous raw sample; read only to form the next delta.
    pub last_noise: u64,
    /// Baseline noise threshold below which the signal counts as stable.
    pub epsilon: u64,
    /// Ring of the sixteen most recent deltas.
    pub history: Seq<u64>,
    /// How many ring slots have ever been written, saturating at sixteen.
    pub filled: u8,
    /// Trailing-window depth used for the variance, adaptive in [7, 15].
    pub current_depth: u8,
    /// Next ring write position, wraps modulo sixteen.
    pub head: u8,
    /// Smoothed, log-compressed volatility estimate.
    pub variance_index: u64,
    /// The smoothed estimate before the most recent update.
    pub prev_variance_index: u64,
    /// Unsmoothed per-step log-compressed variance (diagnostic).
    pub last_fine_log: u64,
    /// Configured gradient threshold percentage, clamped to [1, 10].
    pub gradient_threshold_percent: u64,
    /// Ramp variable: accumulated control pressure off the Aligned state.
    pub x_control: u64,
    /// Current state of the hysteresis gate.
    pub mode: Mode,
    /// Warm-up bookkeeping: deltas collected so far, at most sixteen.
    pub calib_count: u8,
    /// Whether calibration has completed and the live cycle runs.
    pub is_born: bool,
    /// Cyclic count of gate fires, modulo five; purely observational.
    pub current_orbit: u8,
    /// The calibration policy fixed at creation.
    pub policy: CalibrationPolicy,
}

impl StateModel {
    /// Well-formedness of a controller record. Creation establishes it and
    /// every transition preserves it; a persisted record that fails it is
    /// corrupted and must be rejected before any transition runs.
    pub open spec fn wf(self) -> bool {
        &&& self.history.len() == HISTORY_LEN
        &&& self.head < HISTORY_LEN as u8
        &&& MIN_DEPTH <= self.current_depth <= MAX_DEPTH
        &&& MIN_THRESHOLD_PERCENT <= self.gradient_threshold_percent
            <= MAX_THRESHOLD_PERCENT
        &&& self.calib_count <= HISTORY_LEN as u8
        &&& self.filled <= HISTORY_LEN as u8
        &&& self.variance_index <= FINE_LOG_MAX
        &&& self.prev_variance_index <= FINE_LOG_MAX
        &&& self.last_fine_log <= FINE_LOG_MAX
        &&& self.current_orbit < ORBIT_MODULUS
        &&& !self.is_born ==> {
            &&& self.calib_count < HISTORY_LEN as u8
            &&& self.mode == Mode::Calibrating
            &&& self.filled == self.calib_count
        }
        &&& self.policy == CalibrationPolicy::DecayOnly ==> self.is_born
    }
}

/// One controller record. All statistics are integer-only; re-running the
/// same sample sequence from the same initial record reproduces the same
/// record bit for bit.
#[derive(Clone, Debug, PartialEq)]
pub struct PulseState {
    /// Identity bytes of the sole permitted caller. Immutable.
    pub authority: Vec<u8>,
    /// Previous raw sample.
    pub last_noise: u64,
    /// Baseline noise threshold.
    pub epsilon: u64,
    /// Ring of the sixteen most recent deltas.
    pub history: Vec<u64>,
    /// Ring slots ever written, saturating at sixteen.
    pub filled: u8,
    /// Trailing-window depth in [7, 15].
    pub current_depth: u8,
    /// Next ring write position, in [0, 16).
    pub head: u8,
    /// Smoothed volatility estimate.
    pub variance_index: u64,
    /// Previous smoothed estimate.
    pub prev_variance_index: u64,
    /// Unsmoothed per-step estimate.
    pub last_fine_log: u64,
    /// Gradient threshold percentage in [1, 10].
    pub gradient_threshold_percent: u64,
    /// Control pressure ramp variable.
    pub x_control: u64,
    /// Hysteresis gate state.
    pub mode: Mode,
    /// Warm-up deltas collected so far.
    pub calib_count: u8,
    /// Whether the live cycle runs.
    pub is_born: bool,
    /// Cyclic gate-fire counter, modulo five.
    pub current_orbit: u8,
    /// Calibration policy fixed at creation.
    pub policy: CalibrationPolicy,
}

impl View for PulseState {
    type V = StateModel;

    open spec fn view(&self) -> StateModel {
        StateModel {
            authority: self.authority@,
            last_noise: self.last_noise,
            epsilon: self.epsilon,
            history: self.history@,
            filled: self.filled,
            current_depth: self.current_depth,
            head: self.head,
            variance_index: self.variance_index,
            prev_variance_index: self.prev_variance_index,
            last_fine_log: self.last_fine_log,
            gradient_threshold_percent: self.gradient_threshold_percent,
            x_control: self.x_control,
            mode: self.mode,
            calib_count: self.calib_count,
            is_born: self.is_born,
            current_orbit: self.current_orbit,
            policy: self.policy,
        }
    }
}

impl PulseState {
    /// Checks the well-formedness invariant of a record, as a persistence
    /// layer must before handing it to a transition. Returns exactly
    /// whether the model invariant holds.
    pub fn validate(&self) -> (r: bool)
        ensures
            r == self@.wf(),
    {
        self.history.len() == HISTORY_LEN
            && self.head < HISTORY_LEN as u8
            && MIN_DEPTH <= self.current_depth && self.current_depth <= MAX_DEPTH
            && MIN_THRESHOLD_PERCENT <= self.gradient_threshold_percent
            && self.gradient_threshold_percent <= MAX_THRESHOLD_PERCENT
            && self.calib_count <= HISTORY_LEN as u8
            && self.filled <= HISTORY_LEN as u8
            && self.variance_index <= FINE_LOG_MAX
            && self.prev_variance_index <= FINE_LOG_MAX
            && self.last_fine_log <= FINE_LOG_MAX
            && self.current_orbit < ORBIT_MODULUS
            && (self.is_born
                || (self.calib_count < HISTORY_LEN as u8
                    && self.mode == Mode::Calibrating
                    && self.filled == self.calib_count))
            && (!(self.policy == CalibrationPolicy::DecayOnly) || self.is_born)
    }

    /// True exactly when `caller` holds the authority bytes of this
    /// record. The host's authorization collaborator decides with this
    /// before driving a transition.
    pub fn authority_matches(&self, caller: &Vec<u8>) -> (r: bool)
        ensures
            r == (self@.authority == caller@),
    {
        if self.authority.len() != caller.len() {
            assert(self@.authority != caller@);
            return false;
        }
        let n = self.authority.len();
        let mut i: usize = 0;
        while i < n
            invariant
                i <= n,
                n == self.authority.len(),
                n == caller.len(),
                forall|k: int| 0 <= k < i ==> self.authority@[k] == caller@[k],
            decreases n - i,
        {
            if self.authority[i] != caller[i] {
                assert(self@.authority != caller@);
                return false;
            }
            i += 1;
        }
        assert(self@.authority =~= caller@);
        true
    }
}

/// Raw byte encoding of a gate mode, as a persisted record stores it.
pub open spec fn mode_raw(m: Mode) -> u8 {
    match m {
        Mode::Aligned => 0,
        Mode::Controlling => 1,
        Mode::Evolving => 2,
        Mode::Calibrating => 255,
    }
}

/// Gate mode decoded from a raw byte. Any byte that encodes no mode
/// resolves to `Evolving`: the defensive recovery for an out-of-range
/// persisted value, not a normal transition.
pub open spec fn mode_of_raw(r: u8) -> Mode {
    if r == 0 {
        Mode::Aligned
    } else if r == 1 {
        Mode::Controlling
    } else if r == 255 {
        Mode::Calibrating
    } else {
        Mode::Evolving
    }
}

/// Encodes a gate mode as the byte a persisted record stores.
pub fn mode_to_raw(m: Mode) -> (r: u8)
    ensures
        r == mode_raw(m),
{
    match m {
        Mode::Aligned => 0,
        Mode::Controlling => 1,
        Mode::Evolving => 2,
        Mode::Calibrating => 255,
    }
}

/// Decodes a persisted mode byte, recovering to `Evolving` on any value
/// that encodes no mode.
pub fn mode_from_raw(r: u8) -> (m: Mode)
    ensures
        m == mode_of_raw(r),
{
    if r == 0 {
        Mode::Aligned
    } else if r == 1 {
        Mode::Controlling
    } else if r == 255 {
        Mode::Calibrating
    } else {
        Mode::Evolving
    }
}

/// Why an invocation failed. Every failure leaves the persisted record
/// unchanged; the host may retry the whole invocation.
#[derive(Clone, Copy, Debug, PartialEq, Eq, Structural)]
pub enum ErrorCode {
    /// The entropy collaborator could not supply or decode a sample.
    SampleUnavailable,
    /// The caller does not hold the record's authority.
    Unauthorized,
    /// The record is corrupted: an internal invariant does not hold.
    InvalidWindowDepth,
    /// The ledger rejected the reward credit; the whole invocation rolls
    /// back so the controller's history matches the granted rewards.
    LedgerCreditFailed,
}

/// The pure outcome of one transition: whether the reward gate fired and
/// the amount the ledger is to credit. The external ledger call itself is
/// the host's task.
#[derive(Clone, Copy, Debug, PartialEq, Eq, Structural)]
pub struct Decision {
    /// Whether the reward gate fired this invocation.
    pub fire: bool,
    /// Amount to credit: the fixed reward when fired, zero otherwise.
    pub amount: u64,
}

} // verus!
