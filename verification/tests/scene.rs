use arena_actors::{
    Actor, AnimationState, AttackOutcome, Bearing, Controls, Direction, FrameInput, Motion, Scene,
    SpriteSheet, Step, TransientHitbox, ENEMY_START_X, HITBOX_OFFSET_X, HITBOX_OFFSET_Y,
    HITBOX_SIZE, PLAYER_START_X, SPRITE_SCALE,
};

const FRAME: u64 = 100_000_000;

const SECOND: u64 = 1_000_000_000;

const NO_KEYS: Controls =
    Controls { right: false, left: false, up: false, down: false, attack: false };

const ATTACK_KEY: Controls =
    Controls { right: false, left: false, up: false, down: false, attack: true };

const STILL: Step = Step { motion: Motion { x: 0, y: 0 }, sheet_changed: false };

fn frame(keys: Controls, now_nanos: u64, delta_nanos: u64, bearing: Bearing) -> FrameInput {
    FrameInput { keys, now_nanos, delta_nanos, bearing }
}

#[test]
fn scene_starts_with_both_actors_idle() {
    let scene = Scene::new(42);
    assert_eq!(scene.player, Actor::player(42));
    assert_eq!(scene.enemy, Actor::enemy(42));
    assert_eq!(scene.player_sprite.sheet(), SpriteSheet::PlayerIdle);
    assert_eq!(
        (scene.player_sprite.first(), scene.player_sprite.last(), scene.player_sprite.index()),
        (0, 9, 0)
    );
    assert!(!scene.player_sprite.flip_x());
    assert_eq!(scene.enemy_sprite.sheet(), SpriteSheet::EnemyIdle);
    assert_eq!(
        (scene.enemy_sprite.first(), scene.enemy_sprite.last(), scene.enemy_sprite.index()),
        (0, 7, 0)
    );
    assert!(!scene.enemy_sprite.flip_x());
    assert_eq!(scene.player_clock.period_nanos(), 100_000_000);
    assert_eq!(scene.player_clock.elapsed_nanos(), 0);
    assert_eq!(scene.enemy_clock.period_nanos(), 100_000_000);
    assert_eq!(scene.enemy_clock.elapsed_nanos(), 0);
    assert_eq!(scene.hitbox, TransientHitbox::Absent);
}

#[test]
fn scene_constants() {
    assert_eq!(PLAYER_START_X, 0);
    assert_eq!(ENEMY_START_X, 200);
    assert_eq!(SPRITE_SCALE, 3);
    assert_eq!(HITBOX_SIZE, 96);
    assert_eq!((HITBOX_OFFSET_X, HITBOX_OFFSET_Y), (48, -48));
}

#[test]
fn hitbox_is_removed_whatever_its_age() {
    let mut hitbox = TransientHitbox::Absent;
    assert!(!hitbox.sweep());
    assert_eq!(hitbox, TransientHitbox::Absent);
    hitbox.spawn();
    assert_eq!(hitbox, TransientHitbox::Present);
    hitbox.spawn();
    assert_eq!(hitbox, TransientHitbox::Present);
    assert!(hitbox.sweep());
    assert_eq!(hitbox, TransientHitbox::Absent);
    assert!(!hitbox.sweep());
}

#[test]
fn first_frame_sets_both_actors_going() {
    let mut scene = Scene::new(10);
    let keys = Controls { right: true, left: true, up: true, down: false, attack: false };
    let report = scene.update(frame(keys, 10, 250_000_000, Bearing::PlayerLeft));
    assert_eq!(report.player, Step { motion: Motion { x: 1, y: 1 }, sheet_changed: true });
    assert_eq!(report.attack, AttackOutcome::Unchanged);
    assert_eq!(report.enemy, Step { motion: Motion { x: -1, y: 0 }, sheet_changed: true });
    assert!(!report.hitbox_removed);
    assert!(report.player_sheet_changed());
    assert!(!report.hitbox_spawned());
    assert_eq!(scene.player.animation_state, AnimationState::Run);
    assert_eq!(scene.player.direction, Direction::Right);
    assert_eq!(scene.player_sprite.sheet(), SpriteSheet::PlayerRun);
    assert_eq!(scene.player_sprite.last(), 15);
    assert_eq!(scene.player_sprite.index(), 1);
    assert!(!scene.player_sprite.flip_x());
    assert_eq!(scene.player_clock.elapsed_nanos(), 50_000_000);
    assert_eq!(scene.enemy.animation_state, AnimationState::Run);
    assert_eq!(scene.enemy.direction, Direction::Left);
    assert_eq!(scene.enemy_sprite.sheet(), SpriteSheet::EnemyWalk);
    assert_eq!(scene.enemy_sprite.last(), 9);
    assert_eq!(scene.enemy_sprite.index(), 1);
    assert!(scene.enemy_sprite.flip_x());
    assert_eq!(scene.enemy_clock.elapsed_nanos(), 50_000_000);
    assert_eq!(scene.hitbox, TransientHitbox::Absent);
}

#[test]
fn attack_runs_from_its_start_frame_to_idle() {
    let mut scene = Scene::new(0);
    let report = scene.update(frame(ATTACK_KEY, SECOND, FRAME, Bearing::Aligned));
    assert_eq!(report.attack, AttackOutcome::Started);
    assert!(report.hitbox_spawned());
    assert!(report.player_sheet_changed());
    assert!(!report.hitbox_removed);
    assert_eq!(scene.hitbox, TransientHitbox::Present);
    assert_eq!(scene.player.animation_state, AnimationState::Attack1);
    assert_eq!(scene.player.last_attack, SECOND);
    assert_eq!(scene.player_sprite.sheet(), SpriteSheet::PlayerAttack1);
    assert_eq!((scene.player_sprite.first(), scene.player_sprite.last()), (0, 5));
    assert_eq!(scene.player_sprite.index(), 4);

    let run = Controls { right: false, left: true, up: true, down: false, attack: true };
    let report = scene.update(frame(run, SECOND + FRAME, FRAME, Bearing::Aligned));
    assert_eq!(report.player, STILL);
    assert_eq!(report.attack, AttackOutcome::Unchanged);
    assert!(!report.player_sheet_changed());
    assert!(!report.hitbox_spawned());
    assert!(report.hitbox_removed);
    assert_eq!(scene.hitbox, TransientHitbox::Absent);
    assert_eq!(scene.player.animation_state, AnimationState::Attack1);
    assert_eq!(scene.player.direction, Direction::Right);
    assert_eq!(scene.player_sprite.index(), 5);
    assert!(!scene.player_sprite.flip_x());

    let report = scene.update(frame(run, SECOND + 2 * FRAME, FRAME, Bearing::Aligned));
    assert_eq!(report.player, STILL);
    assert_eq!(report.attack, AttackOutcome::Finished);
    assert!(report.player_sheet_changed());
    assert!(!report.hitbox_removed);
    assert_eq!(scene.player.animation_state, AnimationState::Idle);
    assert_eq!(scene.player.direction, Direction::Right);
    assert_eq!(scene.player_sprite.sheet(), SpriteSheet::PlayerIdle);
    assert_eq!((scene.player_sprite.first(), scene.player_sprite.last()), (0, 9));
    assert_eq!(scene.player_sprite.index(), 1);

    let report = scene.update(frame(run, SECOND + 3 * FRAME, FRAME, Bearing::Aligned));
    assert_eq!(report.player, Step { motion: Motion { x: -1, y: 1 }, sheet_changed: true });
    assert_eq!(report.attack, AttackOutcome::Unchanged);
    assert_eq!(scene.player.animation_state, AnimationState::Run);
    assert_eq!(scene.player.direction, Direction::Left);
    assert!(scene.player_sprite.flip_x());
}

#[test]
fn movement_is_decided_before_the_attack() {
    let mut scene = Scene::new(0);
    let keys = Controls { right: false, left: true, up: false, down: false, attack: true };
    let report = scene.update(frame(keys, 5 * SECOND, 1, Bearing::Aligned));
    assert_eq!(report.player, Step { motion: Motion { x: -1, y: 0 }, sheet_changed: true });
    assert_eq!(report.attack, AttackOutcome::Started);
    assert_eq!(scene.player.animation_state, AnimationState::Attack1);
    assert_eq!(scene.player.direction, Direction::Left);
    assert_eq!(scene.player_sprite.sheet(), SpriteSheet::PlayerAttack1);
    assert_eq!(scene.player_sprite.index(), 3);
    assert!(scene.player_sprite.flip_x());
}

#[test]
fn attack_key_held_for_less_than_a_second_begins_one_attack() {
    let mut scene = Scene::new(0);
    let began: u64 = 10_900_000_000;
    let step: u64 = 33_000_000;
    let mut started: u32 = 0;
    let mut spawned: u32 = 0;
    let mut removed: u32 = 0;
    for n in 0..31 {
        let report = scene.update(frame(ATTACK_KEY, began + n * step, step, Bearing::Aligned));
        if report.attack == AttackOutcome::Started {
            started += 1;
        }
        if report.hitbox_spawned() {
            spawned += 1;
        }
        if report.hitbox_removed {
            removed += 1;
        }
    }
    assert_eq!((started, spawned, removed), (1, 1, 1));
    assert_eq!(scene.player.last_attack, began);
    assert_eq!(scene.hitbox, TransientHitbox::Absent);
    let report = scene.update(frame(ATTACK_KEY, began + 31 * step, step, Bearing::Aligned));
    assert_eq!(report.attack, AttackOutcome::Started);
    assert_eq!(scene.player.last_attack, began + 31 * step);
}

#[test]
fn attack_key_read_a_fifth_of_a_second_later_is_ignored() {
    let mut scene = Scene::new(0);
    let report = scene.update(frame(ATTACK_KEY, 10_900_000_000, 16_000_000, Bearing::Aligned));
    assert_eq!(report.attack, AttackOutcome::Started);
    let after_first = scene.player;
    let report = scene.update(frame(ATTACK_KEY, 11_100_000_000, 200_000_000, Bearing::Aligned));
    assert_eq!(report.attack, AttackOutcome::Unchanged);
    assert!(!report.hitbox_spawned());
    assert!(report.hitbox_removed);
    assert_eq!(scene.player, after_first);
    assert_eq!(scene.player.last_attack, 10_900_000_000);
    assert_eq!(scene.player.animation_state, AnimationState::Attack1);
    assert_eq!(scene.player_sprite.sheet(), SpriteSheet::PlayerAttack1);
    assert_eq!((scene.player_sprite.first(), scene.player_sprite.last()), (0, 5));
    assert_eq!(scene.hitbox, TransientHitbox::Absent);
}

#[test]
fn scene_at_rest_keeps_state_and_range() {
    let mut scene = Scene::new(3);
    for n in 0..25 {
        let before = scene;
        let report = scene.update(frame(NO_KEYS, 3 + n, 40_000_000, Bearing::Aligned));
        assert_eq!(report.player, STILL);
        assert_eq!(report.enemy, STILL);
        assert_eq!(report.attack, AttackOutcome::Unchanged);
        assert!(!report.player_sheet_changed());
        assert!(!report.hitbox_spawned());
        assert!(!report.hitbox_removed);
        assert_eq!(scene.player, before.player);
        assert_eq!(scene.enemy, before.enemy);
        assert_eq!(scene.player_sprite.sheet(), SpriteSheet::PlayerIdle);
        assert_eq!((scene.player_sprite.first(), scene.player_sprite.last()), (0, 9));
        assert_eq!(scene.enemy_sprite.sheet(), SpriteSheet::EnemyIdle);
        assert_eq!((scene.enemy_sprite.first(), scene.enemy_sprite.last()), (0, 7));
    }
    assert_eq!(scene.player_sprite.index(), 0);
    assert_eq!(scene.enemy_sprite.index(), 2);
}

#[test]
fn frame_shown_stays_in_range_through_a_long_game() {
    let mut scene = Scene::new(0);
    let mut seed: u64 = 0x2545_f491_4f6c_dd1d;
    let mut now: u64 = 0;
    for _ in 0..5_000 {
        seed ^= seed << 13;
        seed ^= seed >> 7;
        seed ^= seed << 17;
        let keys = Controls {
            right: seed & 1 != 0,
            left: seed & 2 != 0,
            up: seed & 4 != 0,
            down: seed & 8 != 0,
            attack: seed & 16 != 0,
        };
        let bearing = match (seed >> 5) % 3 {
            0 => Bearing::PlayerLeft,
            1 => Bearing::Aligned,
            _ => Bearing::PlayerRight,
        };
        let delta_nanos: u64 = (seed >> 8) % 400_000_000;
        now += delta_nanos;
        let stamp_before: u64 = scene.player.last_attack;
        let report = scene.update(frame(keys, now, delta_nanos, bearing));
        assert_eq!(
            report.attack == AttackOutcome::Started,
            keys.attack && now - stamp_before >= SECOND
        );
        assert!(report.player.motion.x.abs() <= 1 && report.player.motion.y.abs() <= 1);
        assert!(report.enemy.motion.x.abs() <= 1 && report.enemy.motion.y == 0);
        for sprite in [scene.player_sprite, scene.enemy_sprite] {
            assert!(sprite.first() <= sprite.index());
            assert!(sprite.index() <= sprite.last());
            assert!(sprite.last() < sprite.sheet().frame_count());
        }
        assert!(scene.player_clock.elapsed_nanos() < 100_000_000);
        assert!(scene.enemy_clock.elapsed_nanos() < 100_000_000);
        assert_eq!(scene.hitbox == TransientHitbox::Present, report.hitbox_spawned());
    }
}
