use arena_actors::clock::PERIOD_COUNT_LIMIT;
use arena_actors::{animate_sprite, Actor, AnimationClock, Direction, SpriteAnimation, SpriteSheet, ANIMATION_PERIOD_NANOS};

#[test]
fn new_clock_holds_no_time() {
    let clock = AnimationClock::new(ANIMATION_PERIOD_NANOS);
    assert_eq!(clock.period_nanos(), 100_000_000);
    assert_eq!(clock.elapsed_nanos(), 0);
}

#[test]
fn clock_fires_when_the_period_is_reached() {
    let mut clock = AnimationClock::new(100_000_000);
    assert!(!clock.tick(60_000_000));
    assert_eq!(clock.elapsed_nanos(), 60_000_000);
    assert!(clock.tick(60_000_000));
    assert_eq!(clock.elapsed_nanos(), 20_000_000);
    assert!(!clock.tick(79_999_999));
    assert_eq!(clock.elapsed_nanos(), 99_999_999);
    assert!(clock.tick(1));
    assert_eq!(clock.elapsed_nanos(), 0);
}

#[test]
fn clock_keeps_the_remainder_of_a_long_tick() {
    let mut clock = AnimationClock::new(100_000_000);
    assert!(clock.tick(1_234_567_890));
    assert_eq!(clock.elapsed_nanos(), 34_567_890);
}

#[test]
fn clock_ticked_by_nothing_stays_as_it_is() {
    let mut clock = AnimationClock::new(100);
    assert!(!clock.tick(42));
    assert!(!clock.tick(0));
    assert_eq!(clock.elapsed_nanos(), 42);
}

#[test]
fn clock_of_period_zero_fires_on_every_tick() {
    let mut clock = AnimationClock::new(0);
    assert!(clock.tick(0));
    assert_eq!(clock.elapsed_nanos(), 0);
    assert!(clock.tick(5));
    assert_eq!(clock.elapsed_nanos(), 0);
}

#[test]
fn clock_counts_periods_in_32_bits() {
    assert_eq!(PERIOD_COUNT_LIMIT, 4_294_967_296);
    let mut clock = AnimationClock::new(1);
    assert!(!clock.tick(PERIOD_COUNT_LIMIT));
    assert_eq!(clock.elapsed_nanos(), 0);
    assert!(clock.tick(PERIOD_COUNT_LIMIT + 1));
    assert!(clock.tick(PERIOD_COUNT_LIMIT - 1));
    let mut slow = AnimationClock::new(3);
    assert!(!slow.tick(3 * PERIOD_COUNT_LIMIT + 2));
    assert_eq!(slow.elapsed_nanos(), 2);
}

#[test]
fn clock_takes_the_longest_tick() {
    let mut clock = AnimationClock::new(1_000_000_007);
    assert!(!clock.tick(999_999_999));
    let fired: bool = clock.tick(u64::MAX);
    let total: u128 = 999_999_999u128 + u64::MAX as u128;
    assert_eq!(clock.elapsed_nanos() as u128, total % 1_000_000_007);
    assert_eq!(fired, (total / 1_000_000_007) % 4_294_967_296 != 0);
}

#[test]
fn animator_advances_only_when_the_clock_fires() {
    let actor = Actor::player(0);
    let mut clock = AnimationClock::new(ANIMATION_PERIOD_NANOS);
    let mut sprite = SpriteAnimation::new(SpriteSheet::PlayerIdle);
    assert!(!animate_sprite(&actor, &mut clock, &mut sprite, 99_999_999));
    assert_eq!(sprite.index(), 0);
    assert!(animate_sprite(&actor, &mut clock, &mut sprite, 1));
    assert_eq!(sprite.index(), 1);
    assert!(animate_sprite(&actor, &mut clock, &mut sprite, 350_000_000));
    assert_eq!(sprite.index(), 2);
    assert_eq!(clock.elapsed_nanos(), 50_000_000);
}

#[test]
fn animator_wraps_after_the_last_frame() {
    let actor = Actor::enemy(0);
    let mut clock = AnimationClock::new(ANIMATION_PERIOD_NANOS);
    let mut sprite = SpriteAnimation::new(SpriteSheet::EnemyIdle);
    let mut shown: Vec<usize> = Vec::new();
    for _ in 0..9 {
        animate_sprite(&actor, &mut clock, &mut sprite, ANIMATION_PERIOD_NANOS);
        shown.push(sprite.index());
    }
    assert_eq!(shown, vec![1, 2, 3, 4, 5, 6, 7, 0, 1]);
}

#[test]
fn animator_flips_the_sprite_of_an_actor_facing_left() {
    let mut actor = Actor::player(0);
    let mut clock = AnimationClock::new(ANIMATION_PERIOD_NANOS);
    let mut sprite = SpriteAnimation::new(SpriteSheet::PlayerIdle);
    animate_sprite(&actor, &mut clock, &mut sprite, 1);
    assert!(!sprite.flip_x());
    actor.direction = Direction::Left;
    animate_sprite(&actor, &mut clock, &mut sprite, 1);
    assert!(sprite.flip_x());
    assert_eq!(sprite.index(), 0);
    actor.direction = Direction::Right;
    animate_sprite(&actor, &mut clock, &mut sprite, 1);
    assert!(!sprite.flip_x());
}
