//! Tunable constants of the locomotion core, gathered in one record.

use vstd::prelude::*;
use crate::MAX_TICK_MS;

verus! {

/// Horizontal run speed, pixels per second.
pub const PLAYER_VELOCITY_X: u32 = 400;
/// Upward speed while a jump is rising, pixels per second.
pub const PLAYER_VELOCITY_Y: u32 = 850;
/// Numerator of the fall divisor: the descent speed is the rise speed
/// divided by 3/2.
pub const FALL_DIVISOR_NUM: u32 = 3;
/// Denominator of the fall divisor.
pub const FALL_DIVISOR_DEN: u32 = 2;
/// Height cap of a jump, in millipixels (230 pixels).
pub const MAX_JUMP_HEIGHT: u64 = 230_000;
/// Sprite-sheet index shown while standing still.
pub const SPRITE_IDX_STAND: usize = 28;
/// Sprite-sheet index shown while airborne.
pub const SPRITE_IDX_JUMPING: usize = 35;
/// Time each walk-cycle frame stays on screen, in milliseconds.
pub const CYCLE_DELAY_MS: u64 = 70;

/// All rate, height and sprite constants the state machine reads.
///
/// A configuration is `wf` when every field is inside the bounds under which
/// the per-tick arithmetic cannot overflow and the walk cycle is non-empty.
pub struct Config {
    /// Horizontal speed while a direction key is held, pixels per second.
    pub horizontal_speed: u32,
    /// Upward speed while rising, pixels per second.
    pub rise_speed: u32,
    /// The constant descent speed is `rise_speed` divided by
    /// `fall_divisor_num / fall_divisor_den`.
    pub fall_divisor_num: u32,
    /// Denominator of the fall divisor.
    pub fall_divisor_den: u32,
    /// Total height a jump may rise, in millipixels.
    pub max_jump_height: u64,
    /// Sprite-sheet indices of the walk cycle, in display order.
    pub walk_frames: Vec<usize>,
    /// Milliseconds a walk frame stays on screen before the next one.
    pub cycle_delay_ms: u64,
    /// Sprite-sheet index of the idle pose.
    pub idle_frame: usize,
    /// Sprite-sheet index of the airborne pose.
    pub jump_frame: usize,
}

impl Config {
    /// Bounds under which every per-tick product and sum fits in 64 bits.
    pub open spec fn wf(self) -> bool {
        &&& self.horizontal_speed <= 1_000_000
        &&& self.rise_speed <= 1_000_000
        &&& 1 <= self.fall_divisor_num <= 1_000
        &&& 1 <= self.fall_divisor_den <= 1_000
        &&& 1 <= self.max_jump_height <= 1_000_000_000_000
        &&& self.walk_frames.len() >= 1
        &&& 1 <= self.cycle_delay_ms <= 1_000_000_000_000
    }

    /// The configuration the game ships with: the named constants above and
    /// the two-frame walk cycle.
    pub fn standard() -> (cfg: Config)
        ensures
            cfg.wf(),
            cfg.horizontal_speed == PLAYER_VELOCITY_X,
            cfg.rise_speed == PLAYER_VELOCITY_Y,
            cfg.fall_divisor_num == FALL_DIVISOR_NUM,
            cfg.fall_divisor_den == FALL_DIVISOR_DEN,
            cfg.max_jump_height == MAX_JUMP_HEIGHT,
            cfg.walk_frames@ == seq![7usize, 0usize],
            cfg.cycle_delay_ms == CYCLE_DELAY_MS,
            cfg.idle_frame == SPRITE_IDX_STAND,
            cfg.jump_frame == SPRITE_IDX_JUMPING,
    {
        let mut walk_frames: Vec<usize> = Vec::new();
        walk_frames.push(7);
        walk_frames.push(0);
        proof {
            assert(walk_frames@ =~= seq![7usize, 0usize]);
        }
        Config {
            horizontal_speed: PLAYER_VELOCITY_X,
            rise_speed: PLAYER_VELOCITY_Y,
            fall_divisor_num: FALL_DIVISOR_NUM,
            fall_divisor_den: FALL_DIVISOR_DEN,
            max_jump_height: MAX_JUMP_HEIGHT,
            walk_frames,
            cycle_delay_ms: CYCLE_DELAY_MS,
            idle_frame: SPRITE_IDX_STAND,
            jump_frame: SPRITE_IDX_JUMPING,
        }
    }

    /// A tick duration the state machine accepts.
    pub open spec fn valid_dt(dt_ms: u64) -> bool {
        dt_ms <= MAX_TICK_MS
    }
}

} // verus!
