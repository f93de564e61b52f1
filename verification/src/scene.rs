//! The scene: one player, one enemy, and the stages of a frame in their
//! fixed order.

use crate::actor::Actor;
use crate::animator::{animate_sprite, animated};
use crate::clock::{AnimationClock, ClockModel, ANIMATION_PERIOD_NANOS};
use crate::enemy::{enemy_moved, enemy_movement, enemy_sprite_moved, enemy_step, Bearing};
use crate::hitbox::TransientHitbox;
use crate::movement::Step;
use crate::player::{
    attack_outcome, player_attack, player_attacked, player_moved, player_movement,
    player_sprite_attacked, player_sprite_moved, player_step, AttackOutcome, Controls,
};
use crate::sheet::SpriteSheet;
use crate::sprite::{SpriteAnimation, SpriteModel};
use vstd::prelude::*;

verus! {

/// Where the player starts along the x-axis, in arena units; every actor
/// starts at zero on the y-axis.
pub const PLAYER_START_X: i32 = 0;

/// Where the enemy starts along the x-axis, in arena units.
pub const ENEMY_START_X: i32 = 200;

/// The factor by which every sprite is drawn enlarged.
pub const SPRITE_SCALE: u32 = 3;

/// What one frame is given: the keys as they are at this instant, the
/// reading of the clock in nanoseconds, the time since the last frame in
/// nanoseconds, and where the player stands relative to the enemy.
#[derive(Debug, Clone, Copy, PartialEq, Eq, Structural)]
pub struct FrameInput {
    pub keys: Controls,
    pub now_nanos: u64,
    pub delta_nanos: u64,
    pub bearing: Bearing,
}

/// What one frame asks of its caller: the motions to integrate into the two
/// positions, the sheets to load, and the hitbox to spawn or remove.
#[derive(Debug, Clone, Copy, PartialEq, Eq, Structural)]
pub struct FrameReport {
    /// The player's movement decision.
    pub player: Step,
    /// What the attack rule did.
    pub attack: AttackOutcome,
    /// The enemy's movement decision.
    pub enemy: Step,
    /// The hitbox left by an earlier frame was removed.
    pub hitbox_removed: bool,
}

impl FrameReport {
    /// The player's sprite shows another sheet than before the frame's decisions.
    pub open spec fn spec_player_sheet_changed(self) -> bool {
        self.player.sheet_changed || self.attack != AttackOutcome::Unchanged
    }

    /// A hitbox is to be spawned.
    pub open spec fn spec_hitbox_spawned(self) -> bool {
        self.attack == AttackOutcome::Started
    }

    /// Whether the player's sheet has to be loaded anew: one of the
    /// player's two rules switched it.
    #[verifier::when_used_as_spec(spec_player_sheet_changed)]
    pub fn player_sheet_changed(self) -> (changed: bool)
        ensures
            changed == self.spec_player_sheet_changed(),
    {
        self.player.sheet_changed || self.attack != AttackOutcome::Unchanged
    }

    /// Whether a hitbox is to be spawned: an attack began in this frame.
    #[verifier::when_used_as_spec(spec_hitbox_spawned)]
    pub fn hitbox_spawned(self) -> (spawned: bool)
        ensures
            spawned == self.spec_hitbox_spawned(),
    {
        self.attack == AttackOutcome::Started
    }
}

/// The mathematical content of a [`Scene`].
pub struct SceneModel {
    pub player: Actor,
    pub player_sprite: SpriteModel,
    pub player_clock: ClockModel,
    pub enemy: Actor,
    pub enemy_sprite: SpriteModel,
    pub enemy_clock: ClockModel,
    pub hitbox: TransientHitbox,
}

impl SceneModel {
    /// Both sprites show a frame of their range, within their sheet, and
    /// both clocks hold less than a period.
    pub open spec fn wf(self) -> bool {
        &&& self.player_sprite.wf()
        &&& self.enemy_sprite.wf()
        &&& self.player_clock.wf()
        &&& self.enemy_clock.wf()
    }

    /// The player after the frame's two decisions, movement before attack.
    pub open spec fn player_decided(self, input: FrameInput) -> Actor {
        player_attacked(
            player_moved(self.player, input.keys),
            player_sprite_moved(self.player, self.player_sprite, input.keys),
            input.keys.attack,
            input.now_nanos,
        )
    }

    /// The player's sprite after the frame's two decisions.
    pub open spec fn player_sprite_decided(self, input: FrameInput) -> SpriteModel {
        player_sprite_attacked(
            player_moved(self.player, input.keys),
            player_sprite_moved(self.player, self.player_sprite, input.keys),
            input.keys.attack,
            input.now_nanos,
        )
    }

    /// What the frame reports on this scene and input.
    pub open spec fn report(self, input: FrameInput) -> FrameReport {
        FrameReport {
            player: player_step(self.player, input.keys),
            attack: attack_outcome(
                player_moved(self.player, input.keys),
                player_sprite_moved(self.player, self.player_sprite, input.keys),
                input.keys.attack,
                input.now_nanos,
            ),
            enemy: enemy_step(self.enemy, input.bearing),
            hitbox_removed: self.hitbox == TransientHitbox::Present,
        }
    }

    /// The scene after one frame: the decisions of the player and of the
    /// enemy, the animation of both sprites, and the cleanup of the hitbox,
    /// which spares only the one spawned in this frame.
    pub open spec fn updated(self, input: FrameInput) -> SceneModel {
        let player = self.player_decided(input);
        let enemy = enemy_moved(self.enemy, input.bearing);
        SceneModel {
            player,
            player_sprite: animated(
                self.player_sprite_decided(input),
                self.player_clock.fires(input.delta_nanos as nat),
                player.direction,
            ),
            player_clock: self.player_clock.ticked(input.delta_nanos as nat),
            enemy,
            enemy_sprite: animated(
                enemy_sprite_moved(self.enemy, self.enemy_sprite, input.bearing),
                self.enemy_clock.fires(input.delta_nanos as nat),
                enemy.direction,
            ),
            enemy_clock: self.enemy_clock.ticked(input.delta_nanos as nat),
            hitbox: if self.report(input).hitbox_spawned() {
                TransientHitbox::Present
            } else {
                TransientHitbox::Absent
            },
        }
    }

    /// The scene after the frames `inputs`, one after the other.
    pub open spec fn played(self, inputs: Seq<FrameInput>) -> SceneModel
        decreases inputs.len(),
    {
        if inputs.len() == 0 {
            self
        } else {
            self.played(inputs.drop_last()).updated(inputs.last())
        }
    }
}

/// One player and one enemy, each with its sprite and its animation clock,
/// and the hitbox of the player's attack.
#[derive(Debug, Clone, Copy, PartialEq, Eq)]
pub struct Scene {
    pub player: Actor,
    pub player_sprite: SpriteAnimation,
    pub player_clock: AnimationClock,
    pub enemy: Actor,
    pub enemy_sprite: SpriteAnimation,
    pub enemy_clock: AnimationClock,
    pub hitbox: TransientHitbox,
}

impl View for Scene {
    type V = SceneModel;

    open spec fn view(&self) -> SceneModel {
        SceneModel {
            player: self.player,
            player_sprite: self.player_sprite@,
            player_clock: self.player_clock@,
            enemy: self.enemy,
            enemy_sprite: self.enemy_sprite@,
            enemy_clock: self.enemy_clock@,
            hitbox: self.hitbox,
        }
    }
}

impl Scene {
    /// The scene as the game starts, with the clock reading `now_nanos`:
    /// both actors idle on the first frame of their idle sheet, the player
    /// facing right and the enemy facing left, no hitbox.
    pub fn new(now_nanos: u64) -> (scene: Scene)
        ensures
            scene.player == Actor::player(now_nanos),
            scene.enemy == Actor::enemy(now_nanos),
            scene.player_sprite@ == (SpriteModel {
                sheet: SpriteSheet::PlayerIdle,
                first: 0,
                last: 9,
                index: 0,
                flip_x: false,
            }),
            scene.enemy_sprite@ == (SpriteModel {
                sheet: SpriteSheet::EnemyIdle,
                first: 0,
                last: 7,
                index: 0,
                flip_x: false,
            }),
            scene.player_clock@ == (ClockModel { period: ANIMATION_PERIOD_NANOS as nat, elapsed: 0 }),
            scene.enemy_clock@ == (ClockModel { period: ANIMATION_PERIOD_NANOS as nat, elapsed: 0 }),
            scene.hitbox == TransientHitbox::Absent,
            scene@.wf(),
    {
        Scene {
            player: Actor::player(now_nanos),
            player_sprite: SpriteAnimation::new(SpriteSheet::PlayerIdle),
            player_clock: AnimationClock::new(ANIMATION_PERIOD_NANOS),
            enemy: Actor::enemy(now_nanos),
            enemy_sprite: SpriteAnimation::new(SpriteSheet::EnemyIdle),
            enemy_clock: AnimationClock::new(ANIMATION_PERIOD_NANOS),
            hitbox: TransientHitbox::Absent,
        }
    }

    /// Runs the stages of one frame in their order: the player's movement
    /// and attack decisions, the enemy's movement decision, the animation of
    /// both sprites, and the removal of the hitbox that an earlier frame
    /// left. The caller integrates the reported motions into the positions
    /// between the decisions and the next frame.
    pub fn update(&mut self, input: FrameInput) -> (report: FrameReport)
        ensures
            final(self)@ == old(self)@.updated(input),
            final(self)@.wf(),
            report == old(self)@.report(input),
    {
        let player = player_movement(&mut self.player, &mut self.player_sprite, input.keys);
        let attack = player_attack(
            &mut self.player,
            &mut self.player_sprite,
            input.keys.attack,
            input.now_nanos,
        );
        let enemy = enemy_movement(&mut self.enemy, &mut self.enemy_sprite, input.bearing);
        animate_sprite(
            &self.player,
            &mut self.player_clock,
            &mut self.player_sprite,
            input.delta_nanos,
        );
        animate_sprite(&self.enemy, &mut self.enemy_clock, &mut self.enemy_sprite, input.delta_nanos);
        let hitbox_removed = self.hitbox.sweep();
        match attack {
            AttackOutcome::Started => {
                self.hitbox.spawn();
            },
            _ => {},
        }
        FrameReport { player, attack, enemy, hitbox_removed }
    }
}

} // verus!
