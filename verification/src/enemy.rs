//! The enemy's rule: walk towards the player along the x-axis.

use crate::actor::{Actor, AnimationState, Direction};
use crate::movement::{heading_x, sprite_steered, steer, steered, Motion, Step};
use crate::sheet::SpriteSheet;
use crate::sprite::{SpriteAnimation, SpriteModel};
use vstd::prelude::*;

verus! {

/// Where the player stands relative to the enemy along the x-axis.
#[derive(Debug, Clone, Copy, PartialEq, Eq, Structural)]
pub enum Bearing {
    /// The player's x is less than the enemy's.
    PlayerLeft,
    /// Neither x is less than the other.
    Aligned,
    /// The player's x is greater than the enemy's.
    PlayerRight,
}

impl Bearing {
    /// The bearing that two comparisons of the player's x with the enemy's
    /// give; "greater" is looked at first.
    pub open spec fn spec_of(player_is_greater: bool, player_is_less: bool) -> Bearing {
        if player_is_greater {
            Bearing::PlayerRight
        } else if player_is_less {
            Bearing::PlayerLeft
        } else {
            Bearing::Aligned
        }
    }

    /// The bearing from the outcome of the two comparisons `player.x >
    /// enemy.x` and `player.x < enemy.x`.
    #[verifier::when_used_as_spec(spec_of)]
    pub fn of(player_is_greater: bool, player_is_less: bool) -> (bearing: Bearing)
        ensures
            bearing == Bearing::spec_of(player_is_greater, player_is_less),
    {
        if player_is_greater {
            Bearing::PlayerRight
        } else if player_is_less {
            Bearing::PlayerLeft
        } else {
            Bearing::Aligned
        }
    }
}

/// The heading that brings the enemy closer to the player.
pub open spec fn chasing(bearing: Bearing) -> Option<Direction> {
    match bearing {
        Bearing::PlayerLeft => Some(Direction::Left),
        Bearing::Aligned => None,
        Bearing::PlayerRight => Some(Direction::Right),
    }
}

/// The enemy after the chase rule: untouched during an attack, steered
/// towards the player otherwise.
pub open spec fn enemy_moved(enemy: Actor, bearing: Bearing) -> Actor {
    if enemy.animation_state == AnimationState::Attack1 {
        enemy
    } else {
        steered(enemy, chasing(bearing))
    }
}

/// The enemy's sprite after the chase rule.
pub open spec fn enemy_sprite_moved(
    enemy: Actor,
    sprite: SpriteModel,
    bearing: Bearing,
) -> SpriteModel {
    if enemy.animation_state == AnimationState::Attack1 {
        sprite
    } else {
        sprite_steered(
            enemy,
            sprite,
            chasing(bearing),
            SpriteSheet::EnemyWalk,
            SpriteSheet::EnemyIdle,
        )
    }
}

/// What the chase rule hands out: no motion during an attack, one unit
/// towards the player otherwise; and whether the animation state changed.
pub open spec fn enemy_step(enemy: Actor, bearing: Bearing) -> Step {
    Step {
        motion: if enemy.animation_state == AnimationState::Attack1 {
            Motion::still()
        } else {
            Motion { x: heading_x(chasing(bearing)), y: 0 }
        },
        sheet_changed: enemy_moved(enemy, bearing).animation_state != enemy.animation_state,
    }
}

/// Decides the enemy's move for this frame. During an attack nothing changes
/// and the enemy does not move. Otherwise it turns towards the player and
/// walks one unit along the x-axis, or idles when the two are aligned.
pub fn enemy_movement(
    enemy: &mut Actor,
    sprite: &mut SpriteAnimation,
    bearing: Bearing,
) -> (step: Step)
    ensures
        *final(enemy) == enemy_moved(*old(enemy), bearing),
        final(sprite)@ == enemy_sprite_moved(*old(enemy), old(sprite)@, bearing),
        final(sprite)@.wf(),
        step == enemy_step(*old(enemy), bearing),
        step.motion.is_unit(),
{
    proof {
        use_type_invariant(&*sprite);
    }
    if enemy.animation_state == AnimationState::Attack1 {
        return Step { motion: Motion { x: 0, y: 0 }, sheet_changed: false };
    }
    let (heading, x): (Option<Direction>, i8) = match bearing {
        Bearing::PlayerRight => (Some(Direction::Right), 1),
        Bearing::PlayerLeft => (Some(Direction::Left), -1),
        Bearing::Aligned => (None, 0),
    };
    let sheet_changed = steer(enemy, sprite, heading, SpriteSheet::EnemyWalk, SpriteSheet::EnemyIdle);
    Step { motion: Motion { x, y: 0 }, sheet_changed }
}

} // verus!
