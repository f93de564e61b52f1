//! The player's rules: movement from the directional keys, and the melee
//! attack with its cooldown.

use crate::actor::{Actor, AnimationState, Direction};
use crate::movement::{heading_x, sprite_steered, steer, steered, Motion, Step};
use crate::sheet::SpriteSheet;
use crate::sprite::{SpriteAnimation, SpriteModel};
use vstd::prelude::*;

verus! {

/// Nanoseconds that must pass after an attack began before the next may
/// begin: one second.
pub const ATTACK_COOLDOWN_NANOS: u64 = 1_000_000_000;

/// The frame of the attack sheet on which an attack begins.
pub const ATTACK_FIRST_FRAME: usize = 3;

/// The frame on which an attack is over.
pub const ATTACK_FINAL_FRAME: usize = 5;

/// The keys of the game, each pressed or not at this instant.
#[derive(Debug, Clone, Copy, PartialEq, Eq, Structural)]
pub struct Controls {
    pub right: bool,
    pub left: bool,
    pub up: bool,
    pub down: bool,
    pub attack: bool,
}

/// The heading the directional keys ask for; right wins over left.
pub open spec fn steering(keys: Controls) -> Option<Direction> {
    if keys.right {
        Some(Direction::Right)
    } else if keys.left {
        Some(Direction::Left)
    } else {
        None
    }
}

/// The step along the y-axis that the keys ask for; up and down cancel.
pub open spec fn climbing(keys: Controls) -> i8 {
    if keys.up && !keys.down {
        1
    } else if keys.down && !keys.up {
        -1i8
    } else {
        0
    }
}

/// The player after the movement rule: untouched during an attack, steered
/// by the keys otherwise.
pub open spec fn player_moved(player: Actor, keys: Controls) -> Actor {
    if player.animation_state == AnimationState::Attack1 {
        player
    } else {
        steered(player, steering(keys))
    }
}

/// The player's sprite after the movement rule.
pub open spec fn player_sprite_moved(
    player: Actor,
    sprite: SpriteModel,
    keys: Controls,
) -> SpriteModel {
    if player.animation_state == AnimationState::Attack1 {
        sprite
    } else {
        sprite_steered(
            player,
            sprite,
            steering(keys),
            SpriteSheet::PlayerRun,
            SpriteSheet::PlayerIdle,
        )
    }
}

/// What the movement rule hands out: no motion during an attack, the motion
/// the keys ask for otherwise; and whether the animation state changed.
pub open spec fn player_step(player: Actor, keys: Controls) -> Step {
    Step {
        motion: if player.animation_state == AnimationState::Attack1 {
            Motion::still()
        } else {
            Motion { x: heading_x(steering(keys)), y: climbing(keys) }
        },
        sheet_changed: player_moved(player, keys).animation_state != player.animation_state,
    }
}

/// Reads the directional keys once for this frame. During an attack nothing
/// changes and the player does not move. Otherwise right or left turns the
/// player and starts the run animation, their absence brings the player back
/// to idle, and up and down move it without touching the animation.
pub fn player_movement(
    player: &mut Actor,
    sprite: &mut SpriteAnimation,
    keys: Controls,
) -> (step: Step)
    ensures
        *final(player) == player_moved(*old(player), keys),
        final(sprite)@ == player_sprite_moved(*old(player), old(sprite)@, keys),
        final(sprite)@.wf(),
        step == player_step(*old(player), keys),
        step.motion.is_unit(),
{
    proof {
        use_type_invariant(&*sprite);
    }
    if player.animation_state == AnimationState::Attack1 {
        return Step { motion: Motion { x: 0, y: 0 }, sheet_changed: false };
    }
    let heading = if keys.right {
        Some(Direction::Right)
    } else if keys.left {
        Some(Direction::Left)
    } else {
        None
    };
    let x: i8 = if keys.right {
        1
    } else if keys.left {
        -1
    } else {
        0
    };
    let mut y: i8 = 0;
    if keys.up {
        y = y + 1;
    }
    if keys.down {
        y = y - 1;
    }
    let sheet_changed = steer(
        player,
        sprite,
        heading,
        SpriteSheet::PlayerRun,
        SpriteSheet::PlayerIdle,
    );
    Step { motion: Motion { x, y }, sheet_changed }
}

/// What the attack rule did in one frame.
#[derive(Debug, Clone, Copy, PartialEq, Eq, Structural)]
pub enum AttackOutcome {
    /// An attack began: the hitbox is to be spawned and the attack sheet loaded.
    Started,
    /// The running attack reached its final frame: the idle sheet is to be loaded.
    Finished,
    /// Nothing changed.
    Unchanged,
}

/// An attack begins when the key is pressed and a full cooldown has passed
/// on the clock since the last one began; `now_nanos` and the stamp of the
/// last attack are readings of one clock in nanoseconds. A clock that reads
/// earlier than the last attack has not passed it.
pub open spec fn attack_fires(player: Actor, pressed: bool, now_nanos: u64) -> bool {
    pressed && now_nanos - player.last_attack >= ATTACK_COOLDOWN_NANOS
}

/// What the attack rule does on the given state and input.
pub open spec fn attack_outcome(
    player: Actor,
    sprite: SpriteModel,
    pressed: bool,
    now_nanos: u64,
) -> AttackOutcome {
    if attack_fires(player, pressed, now_nanos) {
        AttackOutcome::Started
    } else if player.animation_state == AnimationState::Attack1 && sprite.index
        == ATTACK_FINAL_FRAME {
        AttackOutcome::Finished
    } else {
        AttackOutcome::Unchanged
    }
}

/// The player after the attack rule.
pub open spec fn player_attacked(
    player: Actor,
    sprite: SpriteModel,
    pressed: bool,
    now_nanos: u64,
) -> Actor {
    match attack_outcome(player, sprite, pressed, now_nanos) {
        AttackOutcome::Started => Actor {
            animation_state: AnimationState::Attack1,
            last_attack: now_nanos,
            ..player
        },
        AttackOutcome::Finished => Actor { animation_state: AnimationState::Idle, ..player },
        AttackOutcome::Unchanged => player,
    }
}

/// The player's sprite after the attack rule.
pub open spec fn player_sprite_attacked(
    player: Actor,
    sprite: SpriteModel,
    pressed: bool,
    now_nanos: u64,
) -> SpriteModel {
    match attack_outcome(player, sprite, pressed, now_nanos) {
        AttackOutcome::Started => sprite.showing(
            SpriteSheet::PlayerAttack1,
            ATTACK_FIRST_FRAME as nat,
        ),
        AttackOutcome::Finished => sprite.showing(SpriteSheet::PlayerIdle, 0),
        AttackOutcome::Unchanged => sprite,
    }
}

/// Reads the attack key once for this frame; `now_nanos` is the reading of
/// the clock in nanoseconds. A pressed key with the cooldown passed begins
/// an attack, whatever the player was doing: the attack sheet is shown from
/// its start frame and the time is stamped. Otherwise an attack whose sprite
/// shows the final frame ends, and the player is idle again.
pub fn player_attack(
    player: &mut Actor,
    sprite: &mut SpriteAnimation,
    pressed: bool,
    now_nanos: u64,
) -> (outcome: AttackOutcome)
    ensures
        outcome == attack_outcome(*old(player), old(sprite)@, pressed, now_nanos),
        *final(player) == player_attacked(*old(player), old(sprite)@, pressed, now_nanos),
        final(sprite)@ == player_sprite_attacked(*old(player), old(sprite)@, pressed, now_nanos),
        final(sprite)@.wf(),
{
    proof {
        use_type_invariant(&*sprite);
    }
    if pressed && now_nanos >= player.last_attack && now_nanos - player.last_attack >= ATTACK_COOLDOWN_NANOS {
        sprite.show(SpriteSheet::PlayerAttack1, ATTACK_FIRST_FRAME);
        player.animation_state = AnimationState::Attack1;
        player.last_attack = now_nanos;
        AttackOutcome::Started
    } else if player.animation_state == AnimationState::Attack1 && sprite.index()
        == ATTACK_FINAL_FRAME {
        sprite.show(SpriteSheet::PlayerIdle, 0);
        player.animation_state = AnimationState::Idle;
        AttackOutcome::Finished
    } else {
        AttackOutcome::Unchanged
    }
}

} // verus!
