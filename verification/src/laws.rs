//! What holds of the rules whatever the input: statements over the models
//! that the contracts of the executable functions are written in.

use crate::actor::{Actor, AnimationState};
use crate::animator::animated;
use crate::clock::lemma_ticked_holds_less_than_period;
use crate::enemy::{enemy_moved, enemy_sprite_moved, enemy_step, Bearing};
use crate::hitbox::TransientHitbox;
use crate::movement::{Motion, Step};
use crate::player::{
    attack_fires, attack_outcome, player_attacked, player_moved, player_sprite_attacked,
    player_sprite_moved, player_step, AttackOutcome, Controls, ATTACK_COOLDOWN_NANOS,
    ATTACK_FINAL_FRAME,
};
use crate::scene::{FrameInput, SceneModel};
use crate::sprite::SpriteModel;
use vstd::prelude::*;

verus! {

/// No rule of the player moves the frame shown out of its range, or the
/// range out of the sheet.
pub proof fn lemma_player_rules_keep_frame_in_range(
    player: Actor,
    sprite: SpriteModel,
    keys: Controls,
    now_nanos: u64,
)
    requires
        sprite.wf(),
    ensures
        player_sprite_moved(player, sprite, keys).wf(),
        player_sprite_attacked(player, sprite, keys.attack, now_nanos).wf(),
{
}

/// The enemy's rule does not move the frame shown out of its range, or the
/// range out of the sheet.
pub proof fn lemma_enemy_rule_keeps_frame_in_range(enemy: Actor, sprite: SpriteModel, bearing: Bearing)
    requires
        sprite.wf(),
    ensures
        enemy_sprite_moved(enemy, sprite, bearing).wf(),
{
}

/// The animator keeps the frame shown within its range, whether the clock
/// fired or not: after the last frame comes the first.
pub proof fn lemma_animator_keeps_frame_in_range(sprite: SpriteModel, fired: bool, actor: Actor)
    requires
        sprite.wf(),
    ensures
        animated(sprite, fired, actor.direction).wf(),
        animated(sprite, fired, actor.direction).first == sprite.first,
        animated(sprite, fired, actor.direction).last == sprite.last,
        animated(sprite, fired, actor.direction).sheet == sprite.sheet,
{
}

/// One frame keeps the scene well formed.
pub proof fn lemma_frame_keeps_scene_well_formed(scene: SceneModel, input: FrameInput)
    requires
        scene.wf(),
    ensures
        scene.updated(input).wf(),
{
    lemma_player_rules_keep_frame_in_range(
        scene.player,
        scene.player_sprite,
        input.keys,
        input.now_nanos,
    );
    lemma_player_rules_keep_frame_in_range(
        player_moved(scene.player, input.keys),
        player_sprite_moved(scene.player, scene.player_sprite, input.keys),
        input.keys,
        input.now_nanos,
    );
    lemma_enemy_rule_keeps_frame_in_range(scene.enemy, scene.enemy_sprite, input.bearing);
    lemma_ticked_holds_less_than_period(scene.player_clock, input.delta_nanos as nat);
    lemma_ticked_holds_less_than_period(scene.enemy_clock, input.delta_nanos as nat);
}

/// Whatever the frames played, after each of them the frame shown by either
/// sprite lies between the first and the last frame of its range, and the
/// range lies within the sheet on display.
pub proof fn lemma_frame_index_stays_in_range(scene: SceneModel, inputs: Seq<FrameInput>)
    requires
        scene.wf(),
    ensures
        forall|n: int|
            0 <= n <= inputs.len() ==> {
                let sampled = #[trigger] scene.played(inputs.take(n));
                &&& sampled.player_sprite.first <= sampled.player_sprite.index
                    <= sampled.player_sprite.last
                &&& sampled.player_sprite.last < sampled.player_sprite.sheet.spec_frame_count()
                &&& sampled.enemy_sprite.first <= sampled.enemy_sprite.index
                    <= sampled.enemy_sprite.last
                &&& sampled.enemy_sprite.last < sampled.enemy_sprite.sheet.spec_frame_count()
            },
{
    assert forall|n: int| 0 <= n <= inputs.len() implies (#[trigger] scene.played(
        inputs.take(n),
    )).wf() by {
        lemma_played_scene_well_formed(scene, inputs.take(n));
    }
}

/// Any run of frames keeps the scene well formed.
pub proof fn lemma_played_scene_well_formed(scene: SceneModel, inputs: Seq<FrameInput>)
    requires
        scene.wf(),
    ensures
        scene.played(inputs).wf(),
    decreases inputs.len(),
{
    if inputs.len() > 0 {
        lemma_played_scene_well_formed(scene, inputs.drop_last());
        lemma_frame_keeps_scene_well_formed(scene.played(inputs.drop_last()), inputs.last());
    }
}

/// An idle player with neither right nor left pressed, and no attack
/// beginning, is left as it is by both of its rules: same state, same sheet,
/// same range, same frame, and nothing to load.
pub proof fn lemma_idle_player_stays_unchanged(
    player: Actor,
    sprite: SpriteModel,
    keys: Controls,
    now_nanos: u64,
)
    requires
        player.animation_state == AnimationState::Idle,
        !keys.right,
        !keys.left,
        !attack_fires(player, keys.attack, now_nanos),
    ensures
        player_moved(player, keys) == player,
        player_sprite_moved(player, sprite, keys) == sprite,
        !player_step(player, keys).sheet_changed,
        attack_outcome(player, sprite, keys.attack, now_nanos) == AttackOutcome::Unchanged,
        player_attacked(player, sprite, keys.attack, now_nanos) == player,
        player_sprite_attacked(player, sprite, keys.attack, now_nanos) == sprite,
{
}

/// An idle enemy aligned with the player is left as it is: same state, same
/// sheet, same range, same frame, no motion, and nothing to load.
pub proof fn lemma_idle_enemy_stays_unchanged(enemy: Actor, sprite: SpriteModel)
    requires
        enemy.animation_state == AnimationState::Idle,
    ensures
        enemy_moved(enemy, Bearing::Aligned) == enemy,
        enemy_sprite_moved(enemy, sprite, Bearing::Aligned) == sprite,
        enemy_step(enemy, Bearing::Aligned) == (Step {
            motion: Motion::still(),
            sheet_changed: false,
        }),
{
}

/// The movement rules are idempotent: with the same keys, or the same
/// bearing, a second pass changes neither actor nor sprite and asks for no
/// sheet to be loaded.
pub proof fn lemma_repeated_signal_changes_nothing(
    actor: Actor,
    sprite: SpriteModel,
    keys: Controls,
    bearing: Bearing,
)
    ensures
        player_moved(player_moved(actor, keys), keys) == player_moved(actor, keys),
        player_sprite_moved(
            player_moved(actor, keys),
            player_sprite_moved(actor, sprite, keys),
            keys,
        ) == player_sprite_moved(actor, sprite, keys),
        !player_step(player_moved(actor, keys), keys).sheet_changed,
        enemy_moved(enemy_moved(actor, bearing), bearing) == enemy_moved(actor, bearing),
        enemy_sprite_moved(
            enemy_moved(actor, bearing),
            enemy_sprite_moved(actor, sprite, bearing),
            bearing,
        ) == enemy_sprite_moved(actor, sprite, bearing),
        !enemy_step(enemy_moved(actor, bearing), bearing).sheet_changed,
{
}

/// A frame of a scene at rest (both actors idle, neither right nor left
/// pressed, no attack beginning, the enemy aligned with the player) leaves
/// both actors, both sheets and both frame ranges as they were, and reports
/// nothing to load or to spawn.
pub proof fn lemma_idle_frame_keeps_state_and_range(scene: SceneModel, input: FrameInput)
    requires
        scene.player.animation_state == AnimationState::Idle,
        scene.enemy.animation_state == AnimationState::Idle,
        !input.keys.right,
        !input.keys.left,
        !attack_fires(scene.player, input.keys.attack, input.now_nanos),
        input.bearing == Bearing::Aligned,
    ensures
        scene.updated(input).player == scene.player,
        scene.updated(input).enemy == scene.enemy,
        scene.updated(input).player_sprite.sheet == scene.player_sprite.sheet,
        scene.updated(input).player_sprite.first == scene.player_sprite.first,
        scene.updated(input).player_sprite.last == scene.player_sprite.last,
        scene.updated(input).enemy_sprite.sheet == scene.enemy_sprite.sheet,
        scene.updated(input).enemy_sprite.first == scene.enemy_sprite.first,
        scene.updated(input).enemy_sprite.last == scene.enemy_sprite.last,
        !scene.report(input).player_sheet_changed(),
        !scene.report(input).enemy.sheet_changed,
        !scene.report(input).hitbox_spawned(),
{
    lemma_idle_player_stays_unchanged(scene.player, scene.player_sprite, input.keys, input.now_nanos);
    lemma_idle_enemy_stays_unchanged(scene.enemy, scene.enemy_sprite);
}

/// Once an attack began at `began`, an attack key read less than one second
/// later on the same clock begins no other, whatever became of the player in
/// between as long as no rule but the attack's own stamped its time.
pub proof fn lemma_attack_within_cooldown_is_ignored(
    player: Actor,
    sprite: SpriteModel,
    began: u64,
    later: Actor,
    later_sprite: SpriteModel,
    pressed: bool,
    now_nanos: u64,
)
    requires
        attack_fires(player, true, began),
        later.last_attack == player_attacked(player, sprite, true, began).last_attack,
        now_nanos - began < ATTACK_COOLDOWN_NANOS,
    ensures
        player_attacked(player, sprite, true, began).animation_state == AnimationState::Attack1,
        player_attacked(player, sprite, true, began).last_attack == began,
        !attack_fires(later, pressed, now_nanos),
        attack_outcome(later, later_sprite, pressed, now_nanos) != AttackOutcome::Started,
{
}

/// A frame in which no attack begins leaves the time of the last attack as
/// it was; one in which an attack begins stamps the frame's time.
pub proof fn lemma_only_an_attack_stamps_the_time(scene: SceneModel, input: FrameInput)
    ensures
        scene.updated(input).player.last_attack == if scene.report(input).attack
            == AttackOutcome::Started {
            input.now_nanos
        } else {
            scene.player.last_attack
        },
{
}

/// After a frame in which an attack began, no frame whose clock reads less
/// than one second later begins another, however often the attack key is
/// pressed and whatever else happens in between: of attack inputs less than
/// a second apart, exactly the first begins an attack, and its stamp stays.
pub proof fn lemma_attack_cooldown(scene: SceneModel, first: FrameInput, later: Seq<FrameInput>)
    requires
        scene.report(first).attack == AttackOutcome::Started,
        forall|i: int|
            0 <= i < later.len() ==> (#[trigger] later[i]).now_nanos - first.now_nanos
                < ATTACK_COOLDOWN_NANOS,
    ensures
        forall|i: int|
            0 <= i < later.len() ==> (#[trigger] scene.updated(first).played(later.take(i))).report(
                later[i],
            ).attack != AttackOutcome::Started,
        scene.updated(first).played(later).player.last_attack == first.now_nanos,
    decreases later.len(),
{
    lemma_only_an_attack_stamps_the_time(scene, first);
    if later.len() > 0 {
        let before = later.drop_last();
        lemma_attack_cooldown(scene, first, before);
        let reached = scene.updated(first).played(before);
        lemma_only_an_attack_stamps_the_time(reached, later.last());
        assert forall|i: int| 0 <= i < later.len() implies (#[trigger] scene.updated(first).played(
            later.take(i),
        )).report(later[i]).attack != AttackOutcome::Started by {
            if i < before.len() {
                assert(later.take(i) == before.take(i));
                assert(later[i] == before[i]);
            } else {
                assert(later.take(i) == before);
            }
        }
    }
}

/// The hitbox lives for one frame: it is there after a frame exactly when an
/// attack began in that frame, and the next frame reports its removal.
pub proof fn lemma_hitbox_lives_one_frame(scene: SceneModel, input: FrameInput, next: FrameInput)
    ensures
        scene.updated(input).hitbox == TransientHitbox::Present <==> scene.report(input).attack
            == AttackOutcome::Started,
        scene.updated(input).report(next).hitbox_removed <==> scene.report(input).attack
            == AttackOutcome::Started,
        next.now_nanos - input.now_nanos < ATTACK_COOLDOWN_NANOS && scene.report(input).attack
            == AttackOutcome::Started ==> scene.updated(input).updated(next).hitbox
            == TransientHitbox::Absent,
{
    lemma_only_an_attack_stamps_the_time(scene, input);
}

/// During an attack the direction keys count for nothing: the movement rule
/// changes neither facing nor state nor sprite, and hands out no motion.
pub proof fn lemma_attack_ignores_direction_keys(player: Actor, sprite: SpriteModel, keys: Controls)
    requires
        player.animation_state == AnimationState::Attack1,
    ensures
        player_moved(player, keys) == player,
        player_sprite_moved(player, sprite, keys) == sprite,
        player_step(player, keys).motion == Motion::still(),
        !player_step(player, keys).sheet_changed,
{
}

/// An attack holds until its sprite shows the final frame: in a frame that
/// finds the player attacking on another frame, and in which no new attack
/// begins, the player stays as it is whatever keys are pressed, its sprite
/// keeps its sheet and range, and no motion is handed out. On the final
/// frame the player is idle again.
pub proof fn lemma_attack_holds_until_final_frame(scene: SceneModel, input: FrameInput)
    requires
        scene.player.animation_state == AnimationState::Attack1,
        !attack_fires(scene.player, input.keys.attack, input.now_nanos),
    ensures
        scene.report(input).player.motion == Motion::still(),
        scene.updated(input).player.direction == scene.player.direction,
        scene.player_sprite.index != ATTACK_FINAL_FRAME ==> {
            &&& scene.updated(input).player == scene.player
            &&& scene.updated(input).player_sprite.sheet == scene.player_sprite.sheet
            &&& scene.updated(input).player_sprite.first == scene.player_sprite.first
            &&& scene.updated(input).player_sprite.last == scene.player_sprite.last
            &&& !scene.report(input).player_sheet_changed()
        },
        scene.player_sprite.index == ATTACK_FINAL_FRAME ==> scene.updated(
            input,
        ).player.animation_state == AnimationState::Idle,
{
    lemma_attack_ignores_direction_keys(scene.player, scene.player_sprite, input.keys);
}

} // verus!
