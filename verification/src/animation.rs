//! Animation selector: picks the sprite frame for one tick and drives the
//! cyclic walk animation.
//!
//! Per-tick priority, first match wins:
//! 1. airborne: the fixed jump frame, and any walk animation is detached;
//! 2. grounded with nonzero resolved horizontal displacement: a walk
//!    animation is attached if absent, its timer advanced, and its current
//!    frame shown;
//! 3. grounded and standing still: any walk animation is detached and the
//!    fixed idle frame shown.
//!
//! Only rule 2 is stateful; detaching and reattaching restarts the cycle at
//! its first frame.

use vstd::prelude::*;
use crate::config::Config;

verus! {

/// Attached while the walk cycle is playing; absent when idle or airborne.
#[derive(Clone, Copy, Debug, PartialEq, Eq, Structural)]
pub struct WalkAnimation {
    /// Position in `Config::walk_frames`, always in bounds.
    pub frame_pos: usize,
    /// Milliseconds spent on the current frame so far, always below
    /// `Config::cycle_delay_ms`.
    pub elapsed_ms: u64,
}

/// A walk animation is well formed when its position indexes the configured
/// cycle and its timer has not yet reached the per-frame delay.
pub open spec fn walk_wf(walk: Option<WalkAnimation>, cfg: Config) -> bool {
    match walk {
        Some(w) => w.frame_pos < cfg.walk_frames.len() && w.elapsed_ms < cfg.cycle_delay_ms,
        None => true,
    }
}

/// A freshly attached walk animation: first frame, timer at zero.
pub open spec fn fresh_walk() -> WalkAnimation {
    WalkAnimation { frame_pos: 0, elapsed_ms: 0 }
}

/// One timer step: the frame advances exactly when the time spent on it,
/// `elapsed_ms + dt_ms`, reaches the per-frame delay, wrapping to the first
/// frame after the last; otherwise only the timer grows.
pub open spec fn walk_advanced(w: WalkAnimation, dt_ms: u64, cfg: Config) -> WalkAnimation {
    if w.elapsed_ms + dt_ms >= cfg.cycle_delay_ms {
        WalkAnimation {
            frame_pos: (((w.frame_pos + 1) as int) % (cfg.walk_frames.len() as int)) as usize,
            elapsed_ms: 0,
        }
    } else {
        WalkAnimation { frame_pos: w.frame_pos, elapsed_ms: (w.elapsed_ms + dt_ms) as u64 }
    }
}

/// The walk animation attached after one tick, given this tick's grounded
/// flag and resolved horizontal displacement: detached when airborne or
/// standing, otherwise attached (fresh if it was absent) and advanced.
pub open spec fn walk_after(
    walk: Option<WalkAnimation>,
    grounded: bool,
    resolved_dx: i64,
    dt_ms: u64,
    cfg: Config,
) -> Option<WalkAnimation> {
    if !grounded {
        None
    } else if resolved_dx != 0 {
        Some(walk_advanced(walk.unwrap_or(fresh_walk()), dt_ms, cfg))
    } else {
        None
    }
}

/// The sprite frame displayed this tick under the three-rule priority.
pub open spec fn frame_shown(
    walk: Option<WalkAnimation>,
    grounded: bool,
    resolved_dx: i64,
    dt_ms: u64,
    cfg: Config,
) -> int {
    if !grounded {
        cfg.jump_frame as int
    } else if resolved_dx != 0 {
        cfg.walk_frames[walk_after(walk, grounded, resolved_dx, dt_ms, cfg)->Some_0.frame_pos as int] as int
    } else {
        cfg.idle_frame as int
    }
}

/// Advances the walk timer by one tick's elapsed time.
pub fn advance_walk(w: &mut WalkAnimation, dt_ms: u64, cfg: &Config)
    requires
        cfg.wf(),
        Config::valid_dt(dt_ms),
        walk_wf(Some(*old(w)), *cfg),
    ensures
        *final(w) == walk_advanced(*old(w), dt_ms, *cfg),
        walk_wf(Some(*final(w)), *cfg),
{
    if cfg.cycle_delay_ms - w.elapsed_ms <= dt_ms {
        w.frame_pos = (w.frame_pos + 1) % cfg.walk_frames.len();
        w.elapsed_ms = 0;
    } else {
        w.elapsed_ms = w.elapsed_ms + dt_ms;
    }
}

/// Applies the animation priority for one tick: mutates the attached walk
/// animation to `walk_after` and returns the frame index to display.
pub fn select_frame(
    walk: &mut Option<WalkAnimation>,
    grounded: bool,
    resolved_dx: i64,
    dt_ms: u64,
    cfg: &Config,
) -> (frame: usize)
    requires
        cfg.wf(),
        Config::valid_dt(dt_ms),
        walk_wf(*old(walk), *cfg),
    ensures
        *final(walk) == walk_after(*old(walk), grounded, resolved_dx, dt_ms, *cfg),
        walk_wf(*final(walk), *cfg),
        frame == frame_shown(*old(walk), grounded, resolved_dx, dt_ms, *cfg),
        !grounded ==> frame == cfg.jump_frame && *final(walk) is None,
        grounded && resolved_dx != 0 ==> *final(walk) is Some && cfg.walk_frames@.contains(
            frame as usize,
        ),
        grounded && resolved_dx == 0 ==> frame == cfg.idle_frame && *final(walk) is None,
{
    if !grounded {
        *walk = None;
        cfg.jump_frame
    } else if resolved_dx != 0 {
        let mut w = match walk {
            Some(attached) => *attached,
            None => WalkAnimation { frame_pos: 0, elapsed_ms: 0 },
        };
        advance_walk(&mut w, dt_ms, cfg);
        let frame = cfg.walk_frames[w.frame_pos];
        *walk = Some(w);
        proof {
            assert(cfg.walk_frames@.contains(frame)) by {
                assert(cfg.walk_frames@[w.frame_pos as int] == frame);
            }
        }
        frame
    } else {
        *walk = None;
        cfg.idle_frame
    }
}

} // verus!
