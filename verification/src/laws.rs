//! The guarantees of the state machine, each stated over the spec-level
//! model and proved once, for every configuration and every tick.

use vstd::prelude::*;
use crate::config::Config;
use crate::facing::{Facing, facing_after};
use crate::animation::{
    WalkAnimation,
    frame_shown,
    fresh_walk,
    walk_advanced,
    walk_after,
    walk_wf,
};
use crate::jump::{
    JumpState,
    jump_wf,
    rise_accumulated_after,
    rise_candidate,
    rise_clamps,
    rise_delta_spec,
    trigger_fires,
};
use crate::character::{jump_after_plan, vertical_delta_spec};

verus! {

/// A tick that triggers a jump — key held, previous tick grounded, no jump
/// state attached — creates the state with zero accumulated height, and the
/// following tick's planned vertical displacement is strictly positive and
/// at most `rise_speed * dt` of that tick.  Needs a positive rise speed and
/// a tick of nonzero duration; with either at zero the first rise stalls at
/// a zero displacement.
pub proof fn lemma_fresh_jump_first_rise(
    jump_held: bool,
    grounded_prev: bool,
    dt_trigger: u64,
    dt_next: u64,
    cfg: Config,
)
    requires
        cfg.wf(),
        cfg.rise_speed >= 1,
        Config::valid_dt(dt_trigger),
        Config::valid_dt(dt_next),
        dt_next >= 1,
        trigger_fires(jump_held, grounded_prev, None),
    ensures
        jump_after_plan(None, jump_held, grounded_prev, dt_trigger, cfg) == Some(
            JumpState { accumulated: 0 },
        ),
        vertical_delta_spec(Some(JumpState { accumulated: 0 }), dt_next, cfg) > 0,
        vertical_delta_spec(Some(JumpState { accumulated: 0 }), dt_next, cfg) <= rise_candidate(
            dt_next,
            cfg,
        ),
{
    assert(cfg.rise_speed * dt_next >= 1) by (nonlinear_arith)
        requires
            cfg.rise_speed >= 1,
            dt_next >= 1,
    ;
}

/// While rising, the accumulated height never decreases and never exceeds
/// the cap; the tick whose candidate would cross the cap clamps its
/// displacement so the accumulated height lands on `max_jump_height`
/// exactly, and that tick removes the jump state.
pub proof fn lemma_rise_monotone_bounded(accumulated: u64, dt_ms: u64, cfg: Config)
    requires
        cfg.wf(),
        Config::valid_dt(dt_ms),
        jump_wf(Some(JumpState { accumulated }), cfg),
    ensures
        rise_delta_spec(accumulated, dt_ms, cfg) >= 0,
        rise_accumulated_after(accumulated, dt_ms, cfg) == accumulated + rise_delta_spec(
            accumulated,
            dt_ms,
            cfg,
        ),
        rise_accumulated_after(accumulated, dt_ms, cfg) >= accumulated,
        rise_accumulated_after(accumulated, dt_ms, cfg) <= cfg.max_jump_height,
        rise_clamps(accumulated, dt_ms, cfg) ==> rise_accumulated_after(accumulated, dt_ms, cfg)
            == cfg.max_jump_height && (forall|held: bool, grounded: bool|
            jump_after_plan(Some(JumpState { accumulated }), held, grounded, dt_ms, cfg) is None),
{
    assert(cfg.rise_speed * dt_ms >= 0) by (nonlinear_arith);
}

/// No second jump can start while one is attached or while the character is
/// airborne, however long the key stays held: the trigger never fires, an
/// absent state stays absent without ground contact, and an attached state
/// evolves exactly as it would with the key released.
pub proof fn lemma_no_retrigger(
    jump: Option<JumpState>,
    jump_held: bool,
    grounded_prev: bool,
    dt_ms: u64,
    cfg: Config,
)
    requires
        jump is Some || !grounded_prev,
    ensures
        !trigger_fires(jump_held, grounded_prev, jump),
        jump is None && !grounded_prev ==> jump_after_plan(
            jump,
            jump_held,
            grounded_prev,
            dt_ms,
            cfg,
        ) is None,
        jump is Some ==> jump_after_plan(jump, jump_held, grounded_prev, dt_ms, cfg)
            == jump_after_plan(jump, false, false, dt_ms, cfg),
{
}

/// The animation priority is strict: airborne ticks show the jump frame
/// whatever the horizontal input; grounded moving ticks show a frame of the
/// walk cycle — never the idle or jump frame, provided the cycle contains
/// neither; grounded standstill ticks show the idle frame.  Airborne and
/// standstill ticks also detach the walk animation.
pub proof fn lemma_animation_priority(
    walk: Option<WalkAnimation>,
    grounded: bool,
    resolved_dx: i64,
    dt_ms: u64,
    cfg: Config,
)
    requires
        cfg.wf(),
        Config::valid_dt(dt_ms),
        walk_wf(walk, cfg),
        !cfg.walk_frames@.contains(cfg.idle_frame),
        !cfg.walk_frames@.contains(cfg.jump_frame),
    ensures
        !grounded ==> frame_shown(walk, grounded, resolved_dx, dt_ms, cfg) == cfg.jump_frame
            && walk_after(walk, grounded, resolved_dx, dt_ms, cfg) is None,
        grounded && resolved_dx != 0 ==> cfg.walk_frames@.contains(
            frame_shown(walk, grounded, resolved_dx, dt_ms, cfg) as usize,
        ) && frame_shown(walk, grounded, resolved_dx, dt_ms, cfg) != cfg.idle_frame && frame_shown(
            walk,
            grounded,
            resolved_dx,
            dt_ms,
            cfg,
        ) != cfg.jump_frame,
        grounded && resolved_dx == 0 ==> frame_shown(walk, grounded, resolved_dx, dt_ms, cfg)
            == cfg.idle_frame && walk_after(walk, grounded, resolved_dx, dt_ms, cfg) is None,
{
    if grounded && resolved_dx != 0 {
        let w0 = walk.unwrap_or(fresh_walk());
        let w1 = walk_advanced(w0, dt_ms, cfg);
        assert(w1.frame_pos < cfg.walk_frames.len());
        let frame = cfg.walk_frames[w1.frame_pos as int];
        assert(cfg.walk_frames@.contains(frame)) by {
            assert(cfg.walk_frames@[w1.frame_pos as int] == frame);
        }
    }
}

/// The walk cycle advances exactly when the time spent on the current frame
/// reaches the per-frame delay; an advance steps to the next frame and wraps
/// from the last frame back to the first, and a non-advance keeps the frame
/// and only grows the timer.
pub proof fn lemma_walk_cycle_advance(w: WalkAnimation, dt_ms: u64, cfg: Config)
    requires
        cfg.wf(),
        Config::valid_dt(dt_ms),
        walk_wf(Some(w), cfg),
    ensures
        w.elapsed_ms + dt_ms < cfg.cycle_delay_ms ==> walk_advanced(w, dt_ms, cfg)
            == (WalkAnimation { frame_pos: w.frame_pos, elapsed_ms: (w.elapsed_ms + dt_ms) as u64 }),
        w.elapsed_ms + dt_ms >= cfg.cycle_delay_ms ==> walk_advanced(w, dt_ms, cfg).frame_pos == ((
        w.frame_pos + 1) as int % (cfg.walk_frames.len() as int)) && walk_advanced(
            w,
            dt_ms,
            cfg,
        ).elapsed_ms == 0,
        w.elapsed_ms + dt_ms >= cfg.cycle_delay_ms && w.frame_pos + 1 < cfg.walk_frames.len()
            ==> walk_advanced(w, dt_ms, cfg).frame_pos == w.frame_pos + 1,
        w.elapsed_ms + dt_ms >= cfg.cycle_delay_ms && w.frame_pos + 1 == cfg.walk_frames.len()
            ==> walk_advanced(w, dt_ms, cfg).frame_pos == 0,
{
    if w.elapsed_ms + dt_ms >= cfg.cycle_delay_ms {
        if w.frame_pos + 1 < cfg.walk_frames.len() {
            vstd::arithmetic::div_mod::lemma_small_mod(
                (w.frame_pos + 1) as nat,
                cfg.walk_frames.len() as nat,
            );
        } else {
            vstd::arithmetic::div_mod::lemma_mod_self_0(cfg.walk_frames.len() as int);
        }
    }
}

/// Facing is sticky: a tick whose resolved horizontal displacement is zero
/// never changes it, and a nonzero tick sets it to match the sign exactly.
pub proof fn lemma_facing_sticky(facing: Facing, resolved_dx: i64)
    ensures
        resolved_dx == 0 ==> facing_after(facing, resolved_dx) == facing,
        resolved_dx > 0 ==> facing_after(facing, resolved_dx) == Facing::Right,
        resolved_dx < 0 ==> facing_after(facing, resolved_dx) == Facing::Left,
{
}

} // verus!
