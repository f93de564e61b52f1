//! The rule shared by every actor that walks: a heading turns the actor and
//! starts the run animation, no heading brings it back to idle.

use crate::actor::{Actor, AnimationState, Direction};
use crate::sheet::SpriteSheet;
use crate::sprite::{SpriteAnimation, SpriteModel};
use vstd::prelude::*;

verus! {

/// Width of the arena, in arena units; it is centred on the origin.
pub const ARENA_WIDTH: u32 = 1200;

/// Height of the arena, in arena units; it is centred on the origin.
pub const ARENA_HEIGHT: u32 = 640;

/// The largest distance from the origin along the x-axis that a position is
/// clamped to.
pub const ARENA_HALF_WIDTH: u32 = ARENA_WIDTH / 2;

/// The largest distance from the origin along the y-axis that a position is
/// clamped to.
pub const ARENA_HALF_HEIGHT: u32 = ARENA_HEIGHT / 2;

/// A signed unit step along each axis: every component is -1, 0 or 1.
#[derive(Debug, Clone, Copy, PartialEq, Eq, Structural)]
pub struct Motion {
    pub x: i8,
    pub y: i8,
}

impl Motion {
    /// No movement on either axis.
    pub open spec fn still() -> Motion {
        Motion { x: 0, y: 0 }
    }

    /// Every component is -1, 0 or 1.
    pub open spec fn is_unit(self) -> bool {
        -1 <= self.x <= 1 && -1 <= self.y <= 1
    }
}

/// Arena units per second along each axis.
#[derive(Debug, Clone, Copy, PartialEq, Eq, Structural)]
pub struct Velocity {
    pub x: i64,
    pub y: i64,
}

impl Actor {
    /// The actor's velocity on a motion: the motion scaled by the actor's
    /// own `movement_speed`. The caller multiplies by the frame time, adds
    /// to the position and clamps to the arena; the clamp leaves the
    /// velocity of the next frame alone.
    pub fn velocity(&self, motion: Motion) -> (velocity: Velocity)
        ensures
            velocity.x == motion.x * self.movement_speed,
            velocity.y == motion.y * self.movement_speed,
    {
        let scale: i64 = self.movement_speed as i64;
        let x: i64 = motion.x as i64;
        let y: i64 = motion.y as i64;
        assert(-0x80_0000_0000 <= x * scale <= 0x80_0000_0000 && -0x80_0000_0000 <= y * scale
            <= 0x80_0000_0000) by (nonlinear_arith)
            requires
                0 <= scale <= 0xffff_ffff,
                -128 <= x <= 127,
                -128 <= y <= 127,
        ;
        Velocity { x: x * scale, y: y * scale }
    }
}

/// What one movement decision hands to its caller: the motion to integrate
/// into the position, and whether the sprite now shows another sheet that
/// has to be loaded.
#[derive(Debug, Clone, Copy, PartialEq, Eq, Structural)]
pub struct Step {
    pub motion: Motion,
    pub sheet_changed: bool,
}

/// The step along the x-axis that goes with a heading.
pub open spec fn heading_x(heading: Option<Direction>) -> i8 {
    match heading {
        Some(Direction::Right) => 1,
        Some(Direction::Left) => -1i8,
        None => 0,
    }
}

/// The actor after following `heading`: with a heading it faces that way and
/// runs, without one it keeps its facing and idles.
pub open spec fn steered(actor: Actor, heading: Option<Direction>) -> Actor {
    match heading {
        Some(direction) => Actor { direction, animation_state: AnimationState::Run, ..actor },
        None => Actor { animation_state: AnimationState::Idle, ..actor },
    }
}

/// The sprite after the actor followed `heading`: it switches to the first
/// frame of the run or idle sheet when, and only when, the animation state
/// changes.
pub open spec fn sprite_steered(
    actor: Actor,
    sprite: SpriteModel,
    heading: Option<Direction>,
    run_sheet: SpriteSheet,
    idle_sheet: SpriteSheet,
) -> SpriteModel {
    if steered(actor, heading).animation_state == actor.animation_state {
        sprite
    } else if heading is Some {
        sprite.showing(run_sheet, 0)
    } else {
        sprite.showing(idle_sheet, 0)
    }
}

/// Applies a heading to an actor that is free to move, and tells whether the
/// sprite switched sheets.
pub(crate) fn steer(
    actor: &mut Actor,
    sprite: &mut SpriteAnimation,
    heading: Option<Direction>,
    run_sheet: SpriteSheet,
    idle_sheet: SpriteSheet,
) -> (changed: bool)
    ensures
        *final(actor) == steered(*old(actor), heading),
        final(sprite)@ == sprite_steered(*old(actor), old(sprite)@, heading, run_sheet, idle_sheet),
        final(sprite)@.wf(),
        changed == (final(actor).animation_state != old(actor).animation_state),
{
    proof {
        use_type_invariant(&*sprite);
    }
    match heading {
        Some(direction) => {
            actor.direction = direction;
            if actor.animation_state != AnimationState::Run {
                sprite.show(run_sheet, 0);
                actor.animation_state = AnimationState::Run;
                true
            } else {
                false
            }
        },
        None => {
            if actor.animation_state != AnimationState::Idle {
                sprite.show(idle_sheet, 0);
                actor.animation_state = AnimationState::Idle;
                true
            } else {
                false
            }
        },
    }
}

} // verus!
