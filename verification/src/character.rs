//! The character and its per-tick pipeline.
//!
//! Every tick runs in two halves around the external physics mover:
//! [`plan_tick`] turns held keys and the previous tick's grounded flag into
//! a requested displacement and steps the jump state machine; the caller
//! hands that request to the mover, which resolves it against the static
//! colliders; [`apply_tick`] then consumes the resolved displacement and the
//! fresh grounded flag to move the pose and update facing and animation,
//! returning what the renderer needs.  Both halves observe the same tick's
//! values: the plan never sees a future contact report and the presentation
//! never sees a stale one.

use vstd::prelude::*;
use crate::config::Config;
use crate::facing::{Facing, facing_after, flip_for, update_direction};
use crate::animation::{WalkAnimation, frame_shown, select_frame, walk_after, walk_wf};
use crate::input::{InputState, horizontal_delta, horizontal_delta_spec};
use crate::jump::{
    JumpState,
    fall_delta,
    fall_delta_spec,
    jump_wf,
    rise_accumulated_after,
    rise_clamps,
    rise_delta_spec,
    rise_step,
    trigger_fires,
    try_trigger,
};

verus! {

/// The player-controlled entity: pose, orientation, and the two optional
/// attachment states of the vertical and animation machines.
pub struct Character {
    /// World-space x position, millipixels.
    pub x: i64,
    /// World-space y position, millipixels.
    pub y: i64,
    /// Current orientation, mutated only by the facing resolver.
    pub facing: Facing,
    /// Present while rising; absent while grounded or falling.
    pub jump: Option<JumpState>,
    /// Present while the walk cycle plays; absent when idle or airborne.
    pub walk: Option<WalkAnimation>,
}

/// Displacement requested from the physics mover for one tick, millipixels.
#[derive(Clone, Copy, Debug, PartialEq, Eq, Structural)]
pub struct TickRequest {
    /// Signed horizontal component.
    pub dx: i64,
    /// Signed vertical component.
    pub dy: i64,
}

/// Per-tick feedback from the physics mover: what of the request survived
/// collision resolution, and whether supporting contact was detected.
#[derive(Clone, Copy, Debug, PartialEq, Eq, Structural)]
pub struct ContactInfo {
    /// Horizontal displacement actually applied, millipixels.
    pub resolved_dx: i64,
    /// Vertical displacement actually applied, millipixels.
    pub resolved_dy: i64,
    /// True exactly when the mover detected supporting contact this tick.
    pub grounded: bool,
}

/// What the renderer consumes each tick.
#[derive(Clone, Copy, Debug, PartialEq, Eq, Structural)]
pub struct Display {
    /// Index into the fixed sprite grid.
    pub frame: usize,
    /// Mirror the sprite horizontally (facing left).
    pub flip_x: bool,
}

impl Character {
    /// Both attachment states respect the configuration's bounds.
    pub open spec fn wf(self, cfg: Config) -> bool {
        jump_wf(self.jump, cfg) && walk_wf(self.walk, cfg)
    }

    /// A grounded character at the given position, facing right, with no
    /// jump or walk state attached.
    pub fn spawn(x: i64, y: i64) -> (ch: Character)
        ensures
            ch == (Character { x, y, facing: Facing::Right, jump: None, walk: None }),
            forall|cfg: Config| ch.wf(cfg),
    {
        Character { x, y, facing: Facing::Right, jump: None, walk: None }
    }
}

/// The jump state after the planning half of one tick: a rising state steps
/// (and clamps out at the cap); an absent one is freshly attached exactly
/// when the trigger condition holds on the tick-start state.
pub open spec fn jump_after_plan(
    jump: Option<JumpState>,
    jump_held: bool,
    grounded_prev: bool,
    dt_ms: u64,
    cfg: Config,
) -> Option<JumpState> {
    match jump {
        Some(j) => if rise_clamps(j.accumulated, dt_ms, cfg) {
            None
        } else {
            Some(JumpState { accumulated: rise_accumulated_after(j.accumulated, dt_ms, cfg) as u64 })
        },
        None => if trigger_fires(jump_held, grounded_prev, jump) {
            Some(JumpState { accumulated: 0 })
        } else {
            None
        },
    }
}

/// The vertical displacement planned for one tick: the rise delta while a
/// jump state is attached at tick start, the constant fall delta otherwise.
/// Exactly one of the two sources applies on any tick.
pub open spec fn vertical_delta_spec(
    jump: Option<JumpState>,
    dt_ms: u64,
    cfg: Config,
) -> int {
    match jump {
        Some(j) => rise_delta_spec(j.accumulated, dt_ms, cfg),
        None => fall_delta_spec(dt_ms, cfg),
    }
}

/// First half of a tick: maps held keys to the horizontal component, steps
/// the vertical state machine for the vertical component, and arms a fresh
/// jump when the trigger condition holds against the tick-start state (the
/// fresh jump first rises on the following tick).  Pose, facing and
/// animation are untouched.
pub fn plan_tick(
    ch: &mut Character,
    input: &InputState,
    grounded_prev: bool,
    dt_ms: u64,
    cfg: &Config,
) -> (req: TickRequest)
    requires
        cfg.wf(),
        Config::valid_dt(dt_ms),
        old(ch).wf(*cfg),
    ensures
        final(ch).wf(*cfg),
        req.dx == horizontal_delta_spec(*input, dt_ms, *cfg),
        req.dy == vertical_delta_spec(old(ch).jump, dt_ms, *cfg),
        final(ch).jump == jump_after_plan(old(ch).jump, input.jump, grounded_prev, dt_ms, *cfg),
        final(ch).x == old(ch).x && final(ch).y == old(ch).y,
        final(ch).facing == old(ch).facing,
        final(ch).walk == old(ch).walk,
{
    let dx = horizontal_delta(input, dt_ms, cfg);
    let dy: i64;
    if ch.jump.is_some() {
        dy = rise_step(&mut ch.jump, dt_ms, cfg);
    } else {
        dy = fall_delta(dt_ms, cfg);
        try_trigger(&mut ch.jump, input.jump, grounded_prev);
    }
    TickRequest { dx, dy }
}

/// Second half of a tick: moves the pose by the resolved displacement,
/// re-resolves facing from the resolved horizontal sign, applies the
/// animation priority, and returns the frame and mirror flag to render.
/// The jump state is not touched here; only the planning half steps it.
pub fn apply_tick(ch: &mut Character, contact: &ContactInfo, dt_ms: u64, cfg: &Config) -> (out:
    Display)
    requires
        cfg.wf(),
        Config::valid_dt(dt_ms),
        old(ch).wf(*cfg),
        i64::MIN <= old(ch).x + contact.resolved_dx <= i64::MAX,
        i64::MIN <= old(ch).y + contact.resolved_dy <= i64::MAX,
    ensures
        final(ch).wf(*cfg),
        final(ch).x == old(ch).x + contact.resolved_dx,
        final(ch).y == old(ch).y + contact.resolved_dy,
        final(ch).facing == facing_after(old(ch).facing, contact.resolved_dx),
        final(ch).walk == walk_after(
            old(ch).walk,
            contact.grounded,
            contact.resolved_dx,
            dt_ms,
            *cfg,
        ),
        final(ch).jump == old(ch).jump,
        out.frame == frame_shown(old(ch).walk, contact.grounded, contact.resolved_dx, dt_ms, *cfg),
        out.flip_x == (final(ch).facing is Left),
{
    ch.x = ch.x + contact.resolved_dx;
    ch.y = ch.y + contact.resolved_dy;
    update_direction(&mut ch.facing, contact.resolved_dx);
    let frame = select_frame(&mut ch.walk, contact.grounded, contact.resolved_dx, dt_ms, cfg);
    let flip_x = flip_for(&ch.facing);
    Display { frame, flip_x }
}

} // verus!
