use shock2vr::effect::{Effect, EntityId, MessagePayload};
use shock2vr::scripts::{
    CollisionFlags, HeldItemImpactSound, ImpactSoundGuard, InternalCollisionType, IMPACT_SOUND_COOLDOWN_NS,
};

const GUN: EntityId = EntityId(600);
const WALL: EntityId = EntityId(601);

fn block() -> MessagePayload {
    MessagePayload::Collided { with: WALL }
}

#[test]
fn a_held_gun_blocked_by_the_level_makes_one_impact_sound() {
    let mut script = HeldItemImpactSound::new();
    assert!(script.handle_message(&block(), true, true));
}

#[test]
fn a_repeat_block_within_the_cooldown_is_silent() {
    let mut script = HeldItemImpactSound::new();
    assert!(script.handle_message(&block(), true, true));
    for _ in 0..5 {
        assert!(!script.handle_message(&block(), true, true));
    }
    script.guard.tick(200_000_000);
    assert!(script.handle_message(&block(), true, true));
}

#[test]
fn a_gun_that_is_not_held_inert_stays_silent() {
    let mut script = HeldItemImpactSound::new();
    assert!(!script.handle_message(&block(), false, true));
    assert!(!script.handle_message(&MessagePayload::Frob, true, true));
}

#[test]
fn a_resting_contact_is_silent_and_arms_nothing() {
    let mut guard = ImpactSoundGuard::new();
    assert!(!guard.should_play(WALL, false));
    assert!(guard.cooldowns.is_empty());
    assert!(guard.should_play(WALL, true));
    // Another partner is not silenced by the wall's cooldown.
    assert!(guard.should_play(GUN, true));
    guard.tick(IMPACT_SOUND_COOLDOWN_NS - 1);
    assert!(!guard.should_play(WALL, true));
    guard.tick(1);
    assert!(guard.should_play(WALL, true));
}

#[test]
fn only_impact_objects_deal_contact_damage_and_spawn_one_spang() {
    let bolt = EntityId(602);
    let mut creature = InternalCollisionType::new(CollisionFlags {
        slay_on_impact: false,
        destroy_on_impact: false,
        no_collision_sound: false,
    });
    assert_eq!(creature.handle_collision(bolt, &block(), Some(7)), None);

    let mut projectile = InternalCollisionType::new(CollisionFlags {
        slay_on_impact: true,
        destroy_on_impact: false,
        no_collision_sound: true,
    });
    let first = projectile.handle_collision(bolt, &block(), Some(7)).unwrap();
    assert_eq!(first.end_self, Effect::SlayEntity { entity_id: bolt });
    assert_eq!(first.damage_to, WALL);
    assert_eq!(first.spang, Some(7));
    assert!(!first.play_sound);
    let second = projectile.handle_collision(bolt, &block(), Some(7)).unwrap();
    assert_eq!(second.spang, None, "at most one spang per projectile");

    let mut fragile = InternalCollisionType::new(CollisionFlags {
        slay_on_impact: false,
        destroy_on_impact: true,
        no_collision_sound: false,
    });
    let outcome = fragile.handle_collision(bolt, &block(), None).unwrap();
    assert_eq!(outcome.end_self, Effect::DestroyEntity { entity_id: bolt });
    assert!(outcome.play_sound);
    assert!(!fragile.spang_spawned);
}
