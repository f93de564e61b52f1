//! Frame-by-frame rules of a small arena game: which animation an actor
//! plays, which frame of it is on screen, when the frame advances, which way
//! the actor moves, and how long the hitbox of an attack lives.
//!
//! The rules work on plain values. Positions are kept and integrated by the
//! caller, who hands in the keys, the clock readings and the bearing of the
//! player from the enemy, and gets back unit motions and the sheets to load.

pub mod actor;
pub mod animator;
pub mod clock;
pub mod enemy;
pub mod hitbox;
pub mod laws;
pub mod movement;
pub mod player;
pub mod scene;
pub mod sheet;
pub mod sprite;

pub use actor::{Actor, AnimationState, Direction, ENEMY_SPEED, PLAYER_SPEED};
pub use animator::animate_sprite;
pub use clock::{AnimationClock, ANIMATION_PERIOD_NANOS};
pub use enemy::{enemy_movement, Bearing};
pub use hitbox::{TransientHitbox, HITBOX_OFFSET_X, HITBOX_OFFSET_Y, HITBOX_SIZE};
pub use movement::{
    Motion, Step, Velocity, ARENA_HALF_HEIGHT, ARENA_HALF_WIDTH, ARENA_HEIGHT, ARENA_WIDTH,
};
pub use player::{
    player_attack, player_movement, AttackOutcome, Controls, ATTACK_COOLDOWN_NANOS,
    ATTACK_FINAL_FRAME, ATTACK_FIRST_FRAME,
};
pub use scene::{FrameInput, FrameReport, Scene, ENEMY_START_X, PLAYER_START_X, SPRITE_SCALE};
pub use sheet::SpriteSheet;
pub use sprite::SpriteAnimation;
