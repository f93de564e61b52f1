//! Actors: the player and the enemy, as the frame rules see them.

use vstd::prelude::*;

verus! {

/// The side an actor faces.
#[derive(Debug, Clone, Copy, PartialEq, Eq, Structural)]
pub enum Direction {
    Left,
    Right,
}

/// The animation an actor is playing.
#[derive(Debug, Clone, Copy, PartialEq, Eq, Structural)]
pub enum AnimationState {
    Attack1,
    Idle,
    Run,
    Hurt,
}

/// Speed of the player, in arena units per second.
pub const PLAYER_SPEED: u32 = 500;

/// Speed of the enemy, in arena units per second. The enemy's motion is
/// scaled by its own `movement_speed`, as the player's is; no other factor
/// applies to the chase.
pub const ENEMY_SPEED: u32 = 500;

/// What the frame rules keep about one actor. Its place in the arena is kept
/// by whoever integrates the motion that the rules hand out.
#[derive(Debug, Clone, Copy, PartialEq, Eq, Structural)]
pub struct Actor {
    /// Arena units per second along each axis of the unit motion.
    pub movement_speed: u32,
    /// The side the actor faces.
    pub direction: Direction,
    /// The animation being played.
    pub animation_state: AnimationState,
    /// The reading of the clock, in nanoseconds, when the last attack began.
    pub last_attack: u64,
}

impl Actor {
    /// The player as the scene starts: idle, facing right, with the attack
    /// cooldown counted from `now_nanos`.
    pub open spec fn spec_player(now_nanos: u64) -> Actor {
        Actor {
            movement_speed: PLAYER_SPEED,
            direction: Direction::Right,
            animation_state: AnimationState::Idle,
            last_attack: now_nanos,
        }
    }

    /// The enemy as the scene starts: idle, facing left.
    pub open spec fn spec_enemy(now_nanos: u64) -> Actor {
        Actor {
            movement_speed: ENEMY_SPEED,
            direction: Direction::Left,
            animation_state: AnimationState::Idle,
            last_attack: now_nanos,
        }
    }

    /// The player as the scene starts, with the clock reading `now_nanos`
    /// nanoseconds.
    #[verifier::when_used_as_spec(spec_player)]
    pub fn player(now_nanos: u64) -> (actor: Actor)
        ensures
            actor == Actor::spec_player(now_nanos),
    {
        Actor {
            movement_speed: PLAYER_SPEED,
            direction: Direction::Right,
            animation_state: AnimationState::Idle,
            last_attack: now_nanos,
        }
    }

    /// The enemy as the scene starts, with the clock reading `now_nanos`
    /// nanoseconds.
    #[verifier::when_used_as_spec(spec_enemy)]
    pub fn enemy(now_nanos: u64) -> (actor: Actor)
        ensures
            actor == Actor::spec_enemy(now_nanos),
    {
        Actor {
            movement_speed: ENEMY_SPEED,
            direction: Direction::Left,
            animation_state: AnimationState::Idle,
            last_attack: now_nanos,
        }
    }
}

} // verus!
