//! The smoother, the adaptive window controller and the three-state
//! hysteresis gate.

use vstd::prelude::*;
use crate::state::{Mode, FINE_LOG_MAX, MIN_DEPTH, MAX_DEPTH};

verus! {

/// Saturation at the largest 64-bit value.
pub open spec fn sat_u64(x: int) -> u64 {
    if x > u64::MAX {
        u64::MAX
    } else if x < 0 {
        0u64
    } else {
        x as u64
    }
}

/// Absolute value of an integer.
pub open spec fn abs_of(x: int) -> int {
    if x >= 0 {
        x
    } else {
        -x
    }
}

/// The exponentially-weighted moving average of the variance index:
/// weight four on history, one on the new fine log, truncating division.
pub open spec fn ewma_next(prev: u64, f: u64) -> u64 {
    ((sat_u64(sat_u64(prev as int * 4) as int + f as int) as int) / 5) as u64
}

/// The smoothed estimate never outgrows the largest value the fine-log
/// transform can feed it.
pub proof fn lemma_ewma_bounded(prev: u64, f: u64)
    requires
        prev <= FINE_LOG_MAX,
        f <= FINE_LOG_MAX,
    ensures
        ewma_next(prev, f) <= FINE_LOG_MAX,
        ewma_next(prev, f) == (prev * 4 + f) / 5,
{
}

/// The gradient threshold: the configured percentage of the current
/// variance index.
pub open spec fn threshold_of(vi: u64, gtp: u64) -> int {
    (sat_u64(vi as int * gtp as int) as int) / 100
}

/// The adaptive window controller's next depth: shrink below a falling
/// gradient, widen above a rising one, clamped to [7, 15].
pub open spec fn adapt_depth(depth: u8, grad: int, thr: int) -> u8 {
    if grad < -thr && depth > MIN_DEPTH {
        (depth - 1) as u8
    } else if grad > thr && depth < MAX_DEPTH {
        (depth + 1) as u8
    } else {
        depth
    }
}

/// Upper hysteresis bound: twice the baseline, saturating.
pub open spec fn phi_crit_of(eps: u64) -> u64 {
    sat_u64(eps as int * 2)
}

/// Ceiling of the control ramp: the larger of the variance index and the
/// baseline.
pub open spec fn x_max_of(vi: u64, eps: u64) -> u64 {
    if vi >= eps {
        vi
    } else {
        eps
    }
}

/// One step of the three-state hysteresis gate: from the current mode,
/// the fresh variance index, the baseline, the gradient and its
/// threshold, to the next mode and control-pressure value. Entry into
/// Evolving demands the index above twice the baseline while return to
/// Aligned demands it below the baseline, so the mode machine does not chatter
/// when the signal hovers between the two bounds. An out-of-range
/// persisted mode recovers to Evolving.
pub open spec fn gate_step(mode: Mode, vi: u64, eps: u64, grad: int, xc: u64, thr: int) -> (
    Mode,
    u64,
) {
    let phi_crit = phi_crit_of(eps);
    let x_max = x_max_of(vi, eps);
    let x_step = x_max / 10;
    match mode {
        Mode::Aligned => {
            if vi > phi_crit {
                (Mode::Evolving, x_step)
            } else {
                (Mode::Aligned, xc)
            }
        },
        Mode::Evolving => {
            if vi < eps && abs_of(grad) < thr {
                (Mode::Aligned, 0u64)
            } else {
                let grown = sat_u64(xc as int + x_step as int);
                let ramped = if grown >= x_max {
                    x_max
                } else {
                    grown
                };
                if ramped as int >= (sat_u64(x_max as int * 9) as int) / 10 {
                    (Mode::Controlling, ramped)
                } else {
                    (Mode::Evolving, ramped)
                }
            }
        },
        Mode::Controlling => {
            if vi <= phi_crit && grad <= 0 {
                (Mode::Aligned, 0u64)
            } else if grad > thr * 3 {
                (Mode::Evolving, x_max / 2)
            } else {
                (Mode::Controlling, x_max)
            }
        },
        Mode::Calibrating => (Mode::Evolving, xc),
    }
}

/// Mode transitions respect hysteresis: the machine enters Evolving from
/// rest only with the variance index strictly above twice the baseline,
/// and returns to rest from Evolving only with the index strictly below
/// the baseline. With the index anywhere between the two bounds, neither
/// transition happens in a single step.
pub proof fn lemma_gate_hysteresis(mode: Mode, vi: u64, eps: u64, grad: int, xc: u64, thr: int)
    ensures
        mode == Mode::Aligned && gate_step(mode, vi, eps, grad, xc, thr).0 == Mode::Evolving
            ==> vi > phi_crit_of(eps),
        mode == Mode::Evolving && gate_step(mode, vi, eps, grad, xc, thr).0 == Mode::Aligned
            ==> vi < eps,
        mode == Mode::Aligned && eps <= vi <= phi_crit_of(eps)
            ==> gate_step(mode, vi, eps, grad, xc, thr).0 != Mode::Evolving,
        mode == Mode::Evolving && eps <= vi <= phi_crit_of(eps)
            ==> gate_step(mode, vi, eps, grad, xc, thr).0 != Mode::Aligned,
{
}

/// Saturating product of two 64-bit values.
fn sat_mul_u64(a: u64, b: u64) -> (r: u64)
    ensures
        r == sat_u64(a as int * b as int),
{
    match a.checked_mul(b) {
        Some(v) => v,
        None => u64::MAX,
    }
}

/// Runs one step of the hysteresis gate. The gradient and its threshold
/// are bounded by the largest fine-log value, as every live cycle
/// produces them.
pub fn gate_step_exec(mode: Mode, vi: u64, eps: u64, grad: i64, xc: u64, thr: u64) -> (r: (
    Mode,
    u64,
))
    requires
        -(FINE_LOG_MAX as i64) <= grad <= FINE_LOG_MAX as i64,
        thr <= FINE_LOG_MAX,
    ensures
        r == gate_step(mode, vi, eps, grad as int, xc, thr as int),
{
    let phi_crit = sat_mul_u64(eps, 2);
    let x_max = if vi >= eps {
        vi
    } else {
        eps
    };
    let x_step = x_max / 10;
    match mode {
        Mode::Aligned => {
            if vi > phi_crit {
                (Mode::Evolving, x_step)
            } else {
                (Mode::Aligned, xc)
            }
        },
        Mode::Evolving => {
            let g_abs: i64 = if grad >= 0 {
                grad
            } else {
                -grad
            };
            if vi < eps && g_abs < thr as i64 {
                (Mode::Aligned, 0u64)
            } else {
                let grown = xc.saturating_add(x_step);
                let ramped = if grown >= x_max {
                    x_max
                } else {
                    grown
                };
                if ramped >= sat_mul_u64(x_max, 9) / 10 {
                    (Mode::Controlling, ramped)
                } else {
                    (Mode::Evolving, ramped)
                }
            }
        },
        Mode::Controlling => {
            if vi <= phi_crit && grad <= 0 {
                (Mode::Aligned, 0u64)
            } else if grad > (thr as i64) * 3 {
                (Mode::Evolving, x_max / 2)
            } else {
                (Mode::Controlling, x_max)
            }
        },
        Mode::Calibrating => (Mode::Evolving, xc),
    }
}

} // verus!
