//! Facing resolver: left/right orientation derived from the sign of the last
//! nonzero resolved horizontal displacement.

use vstd::prelude::*;

verus! {

/// Which way the character is looking.  Rendering mirrors the sprite
/// horizontally when the character faces left.
#[derive(Clone, Copy, Debug, PartialEq, Eq, Structural)]
pub enum Facing {
    /// Looking toward negative x.
    Left,
    /// Looking toward positive x.
    Right,
}

/// The facing after observing one tick's resolved horizontal displacement:
/// positive turns right, negative turns left, and zero keeps the previous
/// facing (sticky: the orientation never resets on a standstill tick).
pub open spec fn facing_after(facing: Facing, resolved_dx: i64) -> Facing {
    if resolved_dx > 0 {
        Facing::Right
    } else if resolved_dx < 0 {
        Facing::Left
    } else {
        facing
    }
}

/// Updates the facing from this tick's resolved horizontal displacement.
pub fn update_direction(facing: &mut Facing, resolved_dx: i64)
    ensures
        *final(facing) == facing_after(*old(facing), resolved_dx),
{
    if resolved_dx > 0 {
        *facing = Facing::Right;
    } else if resolved_dx < 0 {
        *facing = Facing::Left;
    }
}

/// Whether the renderer must mirror the sprite: exactly when facing left.
pub fn flip_for(facing: &Facing) -> (flip: bool)
    ensures
        flip == (facing is Left),
{
    match facing {
        Facing::Left => true,
        Facing::Right => false,
    }
}

} // verus!
