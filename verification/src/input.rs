//! Horizontal input mapper: held directional keys to a signed horizontal
//! displacement for the current tick.

use vstd::prelude::*;
use crate::config::Config;

verus! {

/// The directional and jump keys held during the current tick.
#[derive(Clone, Copy, Debug, PartialEq, Eq, Structural)]
pub struct InputState {
    /// The leftward key is held.
    pub left: bool,
    /// The rightward key is held.
    pub right: bool,
    /// The jump key is held.
    pub jump: bool,
}

/// Signed horizontal displacement requested for one tick, in millipixels:
/// each held direction contributes `horizontal_speed * dt_ms` with its sign,
/// so holding both keys cancels to exactly zero.
pub open spec fn horizontal_delta_spec(input: InputState, dt_ms: u64, cfg: Config) -> int {
    (if input.right {
        cfg.horizontal_speed * dt_ms
    } else {
        0int
    }) + (if input.left {
        -(cfg.horizontal_speed * dt_ms)
    } else {
        0int
    })
}

/// Maps the held keys to this tick's requested horizontal displacement.
/// Pure: no state is read or written besides the arguments.
pub fn horizontal_delta(input: &InputState, dt_ms: u64, cfg: &Config) -> (dx: i64)
    requires
        cfg.wf(),
        Config::valid_dt(dt_ms),
    ensures
        dx == horizontal_delta_spec(*input, dt_ms, *cfg),
{
    proof {
        assert(cfg.horizontal_speed * dt_ms <= 1_000_000u64 * 1_000_000u64) by (nonlinear_arith)
            requires
                cfg.horizontal_speed <= 1_000_000,
                dt_ms <= 1_000_000,
        ;
    }
    let step: i64 = (cfg.horizontal_speed as u64 * dt_ms) as i64;
    let mut dx: i64 = 0;
    if input.right {
        dx = dx + step;
    }
    if input.left {
        dx = dx - step;
    }
    dx
}

} // verus!
