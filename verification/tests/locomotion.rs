//! End-to-end ticks of the locomotion core against a deterministic contact
//! model: the physics mover is replaced by hand-written resolved values.

use platformer::animation::WalkAnimation;
use platformer::character::{apply_tick, plan_tick, Character, ContactInfo};
use platformer::config::Config;
use platformer::facing::Facing;
use platformer::input::{horizontal_delta, InputState};
use platformer::jump::{fall_delta, rise_step, try_trigger, JumpState};

fn no_input() -> InputState {
    InputState { left: false, right: false, jump: false }
}

fn right_held() -> InputState {
    InputState { left: false, right: true, jump: false }
}

/// Grounded, no input, three ticks of 16 ms: the idle frame shows on every
/// tick and the facing never changes.
#[test]
fn grounded_idle_three_ticks() {
    let cfg = Config::standard();
    let mut ch = Character::spawn(0, 0);
    ch.facing = Facing::Left;
    let mut grounded_prev = true;
    for _ in 0..3 {
        let req = plan_tick(&mut ch, &no_input(), grounded_prev, 16, &cfg);
        assert_eq!(req.dx, 0);
        // No jump state: the constant descent keeps the character pressed
        // against the ground; the mover cancels it.
        assert!(req.dy < 0);
        let contact = ContactInfo { resolved_dx: 0, resolved_dy: 0, grounded: true };
        let out = apply_tick(&mut ch, &contact, 16, &cfg);
        assert_eq!(out.frame, 28);
        assert_eq!(ch.facing, Facing::Left);
        assert!(out.flip_x);
        grounded_prev = contact.grounded;
    }
}

/// Grounded with the right key held at dt = 0.1 s and 400 px/s: the
/// requested horizontal displacement is 40 pixels (40 000 millipixels); with
/// no collision the walk cycle attaches and the facing turns right.
#[test]
fn grounded_run_right() {
    let cfg = Config::standard();
    let mut ch = Character::spawn(0, 0);
    ch.facing = Facing::Left;
    let req = plan_tick(&mut ch, &right_held(), true, 100, &cfg);
    assert_eq!(req.dx, 40_000);
    let contact = ContactInfo { resolved_dx: req.dx, resolved_dy: 0, grounded: true };
    let out = apply_tick(&mut ch, &contact, 100, &cfg);
    assert!(ch.walk.is_some());
    assert_eq!(ch.facing, Facing::Right);
    assert!(!out.flip_x);
    // The walk cycle starts on its first frame; 100 ms already crosses the
    // 70 ms per-frame delay, so the cycle has stepped to its second frame.
    assert_eq!(out.frame, 0);
    assert_eq!(ch.x, 40_000);
}

/// Jump pressed while grounded: the state attaches with zero height, and a
/// rising tick of dt = 0.3 s at 850 px/s computes a 255-pixel candidate,
/// clamps it to the 230-pixel cap exactly, and removes the state.
#[test]
fn jump_clamps_at_cap() {
    let cfg = Config::standard();
    let mut jump: Option<JumpState> = None;
    try_trigger(&mut jump, true, true);
    assert_eq!(jump, Some(JumpState { accumulated: 0 }));
    let dy = rise_step(&mut jump, 300, &cfg);
    assert_eq!(dy, 230_000);
    assert_eq!(jump, None);
}

/// A rise below the cap accumulates exactly rise_speed * dt and keeps the
/// state; the accumulated height never decreases.
#[test]
fn rise_accumulates_monotonically() {
    let cfg = Config::standard();
    let mut jump = Some(JumpState { accumulated: 0 });
    let dy = rise_step(&mut jump, 100, &cfg);
    assert_eq!(dy, 85_000);
    assert_eq!(jump, Some(JumpState { accumulated: 85_000 }));
    let dy = rise_step(&mut jump, 100, &cfg);
    assert_eq!(dy, 85_000);
    assert_eq!(jump, Some(JumpState { accumulated: 170_000 }));
    let dy = rise_step(&mut jump, 100, &cfg);
    // 170 000 + 85 000 crosses 230 000: clamped to land exactly on the cap.
    assert_eq!(dy, 60_000);
    assert_eq!(jump, None);
}

/// The trigger never fires while a jump state is attached or while the
/// previous tick was airborne, even with the key held.
#[test]
fn jump_cannot_retrigger() {
    let mut jump = Some(JumpState { accumulated: 10 });
    try_trigger(&mut jump, true, true);
    assert_eq!(jump, Some(JumpState { accumulated: 10 }));
    let mut jump: Option<JumpState> = None;
    try_trigger(&mut jump, true, false);
    assert_eq!(jump, None);
    try_trigger(&mut jump, false, true);
    assert_eq!(jump, None);
}

/// Airborne with the right key held: the jump frame is displayed and any
/// walk animation is detached, although the horizontal displacement is
/// nonzero.
#[test]
fn airborne_shows_jump_frame() {
    let cfg = Config::standard();
    let mut ch = Character::spawn(0, 0);
    ch.walk = Some(WalkAnimation { frame_pos: 1, elapsed_ms: 30 });
    let req = plan_tick(&mut ch, &right_held(), false, 16, &cfg);
    assert_eq!(req.dx, 6_400);
    let contact = ContactInfo { resolved_dx: req.dx, resolved_dy: req.dy, grounded: false };
    let out = apply_tick(&mut ch, &contact, 16, &cfg);
    assert_eq!(out.frame, 35);
    assert!(ch.walk.is_none());
    assert_eq!(ch.facing, Facing::Right);
}

/// The walk cycle holds each frame for the 70 ms delay and wraps from the
/// last frame back to the first: with 16 ms ticks the first frame survives
/// four ticks, and the cycle returns to it after both frames have shown.
#[test]
fn walk_cycle_advances_and_wraps() {
    let cfg = Config::standard();
    let mut ch = Character::spawn(0, 0);
    let mut frames = Vec::new();
    for _ in 0..10 {
        let req = plan_tick(&mut ch, &right_held(), true, 16, &cfg);
        let contact = ContactInfo { resolved_dx: req.dx, resolved_dy: 0, grounded: true };
        let out = apply_tick(&mut ch, &contact, 16, &cfg);
        frames.push(out.frame);
    }
    // The first frame starts its 70 ms with the attach tick's 16 ms already
    // spent, so it survives four ticks; after the advance the timer restarts
    // at zero, so every later frame survives five.
    assert_eq!(frames, vec![7, 7, 7, 7, 0, 0, 0, 0, 0, 7]);
}

/// Detaching and reattaching the walk animation restarts the cycle on its
/// first frame.
#[test]
fn walk_cycle_restarts_after_idle() {
    let cfg = Config::standard();
    let mut ch = Character::spawn(0, 0);
    for _ in 0..5 {
        let req = plan_tick(&mut ch, &right_held(), true, 16, &cfg);
        let contact = ContactInfo { resolved_dx: req.dx, resolved_dy: 0, grounded: true };
        apply_tick(&mut ch, &contact, 16, &cfg);
    }
    assert_eq!(ch.walk, Some(WalkAnimation { frame_pos: 1, elapsed_ms: 0 }));
    // One standstill tick detaches the animation.
    plan_tick(&mut ch, &no_input(), true, 16, &cfg);
    let contact = ContactInfo { resolved_dx: 0, resolved_dy: 0, grounded: true };
    let out = apply_tick(&mut ch, &contact, 16, &cfg);
    assert_eq!(out.frame, 28);
    assert_eq!(ch.walk, None);
    // Moving again starts over from the first walk frame.
    let req = plan_tick(&mut ch, &right_held(), true, 16, &cfg);
    let contact = ContactInfo { resolved_dx: req.dx, resolved_dy: 0, grounded: true };
    let out = apply_tick(&mut ch, &contact, 16, &cfg);
    assert_eq!(ch.walk, Some(WalkAnimation { frame_pos: 0, elapsed_ms: 16 }));
    assert_eq!(out.frame, 7);
}

/// Opposite keys cancel to exactly zero, and a zero tick leaves the facing
/// as it was.
#[test]
fn opposite_keys_cancel() {
    let cfg = Config::standard();
    let both = InputState { left: true, right: true, jump: false };
    assert_eq!(horizontal_delta(&both, 100, &cfg), 0);
    let left = InputState { left: true, right: false, jump: false };
    assert_eq!(horizontal_delta(&left, 100, &cfg), -40_000);
    let mut ch = Character::spawn(0, 0);
    ch.facing = Facing::Left;
    let contact = ContactInfo { resolved_dx: 0, resolved_dy: 0, grounded: true };
    apply_tick(&mut ch, &contact, 16, &cfg);
    assert_eq!(ch.facing, Facing::Left);
}

/// The constant-velocity descent: rise speed divided by 1.5, times dt,
/// downward, on every tick without a jump state.
#[test]
fn fall_is_constant_velocity() {
    let cfg = Config::standard();
    // 850 px/s / 1.5 * 16 ms = 9066.66 millipixels, truncated.
    assert_eq!(fall_delta(16, &cfg), -9_066);
    assert_eq!(fall_delta(32, &cfg), -18_133);
    // The fall feeds the vertical axis whenever no jump state is attached.
    let mut ch = Character::spawn(0, 0);
    let req = plan_tick(&mut ch, &no_input(), false, 16, &cfg);
    assert_eq!(req.dy, -9_066);
}

/// A full arc: trigger, rise to the cap, fall, land, and only then accept a
/// new jump.
#[test]
fn full_jump_arc() {
    let cfg = Config::standard();
    let mut ch = Character::spawn(0, 0);
    let held = InputState { left: false, right: false, jump: true };
    // Tick 0: grounded, jump pressed: the state arms but this tick still
    // plans a fall displacement; the next tick rises.
    let req = plan_tick(&mut ch, &held, true, 16, &cfg);
    assert!(req.dy < 0);
    assert_eq!(ch.jump, Some(JumpState { accumulated: 0 }));
    apply_tick(&mut ch, &ContactInfo { resolved_dx: 0, resolved_dy: 0, grounded: true }, 16, &cfg);
    // Rising ticks: dy positive, held key cannot restart the jump.
    let mut rises = 0;
    while ch.jump.is_some() {
        let req = plan_tick(&mut ch, &held, false, 100, &cfg);
        assert!(req.dy > 0);
        apply_tick(
            &mut ch,
            &ContactInfo { resolved_dx: 0, resolved_dy: req.dy, grounded: false },
            100,
            &cfg,
        );
        rises += 1;
        assert!(rises < 10);
    }
    // 85 000 + 85 000 + 60 000 = 230 000 millipixels: the full cap rose.
    assert_eq!(rises, 3);
    assert_eq!(ch.y, 230_000);
    // Airborne now: the jump key is ignored, the plan is a fall.
    let req = plan_tick(&mut ch, &held, false, 16, &cfg);
    assert_eq!(req.dy, -9_066);
    assert_eq!(ch.jump, None);
    // Landed: the next grounded tick accepts a fresh jump again.
    plan_tick(&mut ch, &held, true, 16, &cfg);
    assert_eq!(ch.jump, Some(JumpState { accumulated: 0 }));
}
