//! Jump controller: the vertical-motion state machine.
//!
//! Presence of a [`JumpState`] means the character is rising; absence means
//! it is grounded or in constant-velocity fall.  A jump is triggered only
//! when the jump key is held, the previous tick reported ground contact, and
//! no `JumpState` is attached.  While rising, the accumulated height grows by
//! `rise_speed * dt` each tick until it reaches the cap exactly, whereupon
//! the state is removed; on every tick without a `JumpState` the controller
//! requests a constant downward displacement instead (also while grounded:
//! the physics mover cancels it, which keeps the contact report stable).

use vstd::prelude::*;
use crate::config::Config;

verus! {

/// Attached while the character is rising; absent otherwise.
#[derive(Clone, Copy, Debug, PartialEq, Eq, Structural)]
pub struct JumpState {
    /// Vertical distance risen since the jump started, in millipixels.
    /// Never exceeds `Config::max_jump_height`.
    pub accumulated: u64,
}

/// A jump state is well formed when its accumulated height respects the cap.
pub open spec fn jump_wf(jump: Option<JumpState>, cfg: Config) -> bool {
    match jump {
        Some(j) => j.accumulated <= cfg.max_jump_height,
        None => true,
    }
}

/// A fresh jump starts this tick: the key is held, the previous tick's
/// contact report said grounded, and no jump state is attached.
pub open spec fn trigger_fires(jump_held: bool, grounded_prev: bool, jump: Option<JumpState>) -> bool {
    jump_held && grounded_prev && jump is None
}

/// Attaches a fresh `JumpState` with zero accumulated height exactly when
/// [`trigger_fires`] holds; otherwise leaves the state untouched.
pub fn try_trigger(jump: &mut Option<JumpState>, jump_held: bool, grounded_prev: bool)
    ensures
        trigger_fires(jump_held, grounded_prev, *old(jump)) ==> *final(jump) == Some(
            JumpState { accumulated: 0 },
        ),
        !trigger_fires(jump_held, grounded_prev, *old(jump)) ==> *final(jump) == *old(jump),
{
    if jump_held && grounded_prev && jump.is_none() {
        *jump = Some(JumpState { accumulated: 0 });
    }
}

/// This tick's rise candidate: `rise_speed * dt`, in millipixels.
pub open spec fn rise_candidate(dt_ms: u64, cfg: Config) -> int {
    cfg.rise_speed * dt_ms
}

/// The tick clamps when the candidate would carry the accumulated height to
/// the cap or beyond; the comparison is inclusive, so the rise terminates at
/// exactly `max_jump_height` without overshoot.
pub open spec fn rise_clamps(accumulated: u64, dt_ms: u64, cfg: Config) -> bool {
    accumulated + rise_candidate(dt_ms, cfg) >= cfg.max_jump_height
}

/// Accumulated height after one rising tick.
pub open spec fn rise_accumulated_after(accumulated: u64, dt_ms: u64, cfg: Config) -> int {
    if rise_clamps(accumulated, dt_ms, cfg) {
        cfg.max_jump_height as int
    } else {
        accumulated + rise_candidate(dt_ms, cfg)
    }
}

/// Upward displacement requested by one rising tick, in millipixels.
pub open spec fn rise_delta_spec(accumulated: u64, dt_ms: u64, cfg: Config) -> int {
    if rise_clamps(accumulated, dt_ms, cfg) {
        cfg.max_jump_height - accumulated
    } else {
        rise_candidate(dt_ms, cfg)
    }
}

/// One tick of the rising state.  Requires a jump state to be attached;
/// returns the upward displacement to request and removes the state on the
/// clamping tick, after which the accumulated height equals the cap exactly.
pub fn rise_step(jump: &mut Option<JumpState>, dt_ms: u64, cfg: &Config) -> (dy: i64)
    requires
        cfg.wf(),
        Config::valid_dt(dt_ms),
        (*old(jump)) is Some,
        jump_wf(*old(jump), *cfg),
    ensures
        dy == rise_delta_spec((*old(jump))->Some_0.accumulated, dt_ms, *cfg),
        dy >= 0,
        rise_clamps((*old(jump))->Some_0.accumulated, dt_ms, *cfg) ==> *final(jump) is None
            && (*old(jump))->Some_0.accumulated + dy == cfg.max_jump_height,
        !rise_clamps((*old(jump))->Some_0.accumulated, dt_ms, *cfg) ==> *final(jump) == Some(
            JumpState {
                accumulated: ((*old(jump))->Some_0.accumulated + dy) as u64,
            },
        ),
        jump_wf(*final(jump), *cfg),
{
    let j = jump.as_ref().unwrap();
    let accumulated = j.accumulated;
    proof {
        assert(cfg.rise_speed * dt_ms <= 1_000_000u64 * 1_000_000u64) by (nonlinear_arith)
            requires
                cfg.rise_speed <= 1_000_000,
                dt_ms <= 1_000_000,
        ;
    }
    let candidate: u64 = cfg.rise_speed as u64 * dt_ms;
    if accumulated + candidate >= cfg.max_jump_height {
        let delta: u64 = cfg.max_jump_height - accumulated;
        *jump = None;
        delta as i64
    } else {
        *jump = Some(JumpState { accumulated: accumulated + candidate });
        candidate as i64
    }
}

/// Downward displacement requested by one tick without a jump state:
/// the rise speed divided by `fall_divisor_num / fall_divisor_den`, times the
/// elapsed time, negated.  Constant-velocity descent, not accelerating.
pub open spec fn fall_delta_spec(dt_ms: u64, cfg: Config) -> int {
    -((cfg.rise_speed * dt_ms * cfg.fall_divisor_den) / (cfg.fall_divisor_num as int))
}

/// Computes the constant-velocity descent for one tick, in millipixels.
/// Applies only on ticks with no jump state attached; a tick never feeds
/// both a rise and a fall displacement.
pub fn fall_delta(dt_ms: u64, cfg: &Config) -> (dy: i64)
    requires
        cfg.wf(),
        Config::valid_dt(dt_ms),
    ensures
        dy == fall_delta_spec(dt_ms, *cfg),
        dy <= 0,
{
    proof {
        assert(cfg.rise_speed * dt_ms <= 1_000_000u64 * 1_000_000u64 && cfg.rise_speed * dt_ms
            * cfg.fall_divisor_den <= 1_000_000u64 * 1_000_000u64 * 1_000u64) by (nonlinear_arith)
            requires
                cfg.rise_speed <= 1_000_000,
                dt_ms <= 1_000_000,
                cfg.fall_divisor_den <= 1_000,
        ;
    }
    let magnitude: u64 = cfg.rise_speed as u64 * dt_ms * cfg.fall_divisor_den as u64
        / cfg.fall_divisor_num as u64;
    -(magnitude as i64)
}

} // verus!
