//! The sprite frame animator: one clock tick per frame, one frame further
//! whenever the interval elapsed.

use crate::actor::{Actor, Direction};
use crate::clock::AnimationClock;
use crate::sprite::{SpriteAnimation, SpriteModel};
use vstd::prelude::*;

verus! {

/// The sprite after one pass of the animator: a frame further if the clock
/// fired, and mirrored exactly when the actor faces left.
pub open spec fn animated(sprite: SpriteModel, fired: bool, direction: Direction) -> SpriteModel {
    if fired {
        sprite.advanced().facing(direction)
    } else {
        sprite.facing(direction)
    }
}

/// Ticks the actor's clock by `delta_nanos`, moves the sprite one frame
/// further if the interval elapsed, and sets the flip from the actor's
/// facing. Returns whether the frame changed hands. The clock has one period
/// for every animation state.
pub fn animate_sprite(
    actor: &Actor,
    clock: &mut AnimationClock,
    sprite: &mut SpriteAnimation,
    delta_nanos: u64,
) -> (fired: bool)
    ensures
        fired == old(clock)@.fires(delta_nanos as nat),
        final(clock)@ == old(clock)@.ticked(delta_nanos as nat),
        final(clock)@.wf(),
        final(sprite)@ == animated(old(sprite)@, fired, actor.direction),
        final(sprite)@.wf(),
{
    let fired = clock.tick(delta_nanos);
    if fired {
        sprite.advance();
    }
    sprite.face(actor.direction);
    fired
}

} // verus!
