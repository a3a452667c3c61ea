use shock2vr::effect::{Effect, EntityId, GlobalEffect, MessagePayload, QuestBitValue};
use shock2vr::scripts::{
    passes_through, recharge_ammo_to_capacity, CS9HoloRumbler, CharGenStrings, DeadPowerCell,
    DelayGrenade, DestroyAllByName, DieShodanDie, EarthText, EngineCleanupTargets, EnergyWeapon,
    ExpCookie, FrobQB, GooProjectile, HazardObject, InternalExplosion, SitDownRightNowMP,
    TrapDestroyTeleport, CARD_KEY, CHARGED_POWER_CELL_TEMPLATE, FALLBACK_CARD,
    GRENADE_ARM_DELAY_NS, GRENADE_LIFETIME_NS,
};

const GRENADE: EntityId = EntityId(21);

fn collide(script: &DelayGrenade) -> Effect {
    script.handle_message(GRENADE, &MessagePayload::Collided { with: EntityId(0) })
}

#[test]
fn an_armed_grenade_detonates_when_something_bumps_it() {
    let mut script = DelayGrenade::new();
    script.update(GRENADE, GRENADE_ARM_DELAY_NS);
    assert_eq!(collide(&script), Effect::SlayEntity { entity_id: GRENADE });
}

#[test]
fn a_grenade_still_in_the_hand_does_not_detonate() {
    let mut script = DelayGrenade::new();
    assert_eq!(collide(&script), Effect::NoEffect);
    script.update(GRENADE, GRENADE_ARM_DELAY_NS / 2);
    assert_eq!(collide(&script), Effect::NoEffect);
}

#[test]
fn an_untripped_grenade_expires_without_detonating() {
    let mut script = DelayGrenade::new();
    assert_eq!(script.update(GRENADE, GRENADE_LIFETIME_NS - GRENADE_ARM_DELAY_NS), Effect::NoEffect);
    assert_eq!(
        script.update(GRENADE, GRENADE_ARM_DELAY_NS),
        Effect::DestroyEntity { entity_id: GRENADE }
    );
}

#[test]
fn the_fuse_survives_a_save_and_restore() {
    let mut script = DelayGrenade::new();
    script.update(GRENADE, GRENADE_ARM_DELAY_NS);
    // What a save keeps is the fuse's age; a script restored from it is armed.
    let saved = script.age_ns;
    let restored = DelayGrenade { age_ns: saved };
    assert_eq!(collide(&restored), Effect::SlayEntity { entity_id: GRENADE });
}

#[test]
fn an_armed_grenade_stays_armed_whatever_frames_pass() {
    let mut script = DelayGrenade { age_ns: u64::MAX - 1 };
    script.update(GRENADE, 10);
    assert_eq!(script.age_ns, u64::MAX);
    assert_eq!(collide(&script), Effect::SlayEntity { entity_id: GRENADE });
}

#[test]
fn turn_on_completes_the_campaign() {
    let effect = DieShodanDie::new().handle_message(&MessagePayload::TurnOn { from: EntityId(2) });
    assert_eq!(effect, Effect::GlobalEffect(GlobalEffect::CompleteCampaign));
}

#[test]
fn turn_off_does_not_complete_the_campaign() {
    let effect = DieShodanDie::new().handle_message(&MessagePayload::TurnOff { from: EntityId(2) });
    assert_eq!(effect, Effect::NoEffect);
}

fn strings(card: Option<&str>) -> CharGenStrings {
    CharGenStrings { card_entry: card.map(str::to_owned) }
}

#[test]
fn the_card_is_shown_once_the_start_delay_elapses() {
    let strings = strings(Some("         4 Years Earlier\nRamsey Recruitment Ctr."));
    let mut script = EarthText::new();
    script.initialize();
    assert_eq!(script.update(50, &strings), Effect::NoEffect);
    let Effect::ShowBanner { text, duration_ms } = script.update(50, &strings) else {
        panic!("expected the card");
    };
    assert_eq!(text, "         4 Years Earlier\nRamsey Recruitment Ctr.");
    // On time: the card gets the whole remainder of the 7 s deadline.
    assert_eq!(duration_ms, 7000 - 100);
}

#[test]
fn the_card_is_shown_only_once() {
    let strings = strings(Some("card"));
    let mut script = EarthText::new();
    script.initialize();
    assert!(matches!(script.update(1000, &strings), Effect::ShowBanner { .. }));
    assert_eq!(script.update(1000, &strings), Effect::NoEffect);
}

#[test]
fn a_restored_script_does_not_replay_a_card_it_already_showed() {
    let strings = strings(Some("card"));
    let mut script = EarthText::new();
    script.initialize();
    let _ = script.update(1000, &strings);
    let saved = script.delay_remaining_ms;

    let mut restored = EarthText::new();
    restored.initialize();
    restored.delay_remaining_ms = saved;
    assert_eq!(restored.update(1000, &strings), Effect::NoEffect);
}

#[test]
fn a_late_first_frame_comes_off_the_card_not_off_its_deadline() {
    let strings = strings(Some("card"));
    let mut script = EarthText::new();
    script.initialize();
    let Effect::ShowBanner { duration_ms, .. } = script.update(1000, &strings) else {
        panic!("expected the card");
    };
    assert_eq!(duration_ms, 7000 - 1000);
}

#[test]
fn a_frame_past_the_removal_deadline_shows_no_card() {
    let strings = strings(Some("card"));
    let mut script = EarthText::new();
    script.initialize();
    assert_eq!(script.update(9000, &strings), Effect::NoEffect);
}

#[test]
fn a_missing_string_table_falls_back_to_the_shipped_text() {
    let strings = strings(None);
    let mut script = EarthText::new();
    script.initialize();
    let Effect::ShowBanner { text, .. } = script.update(1000, &strings) else {
        panic!("expected the card");
    };
    assert_eq!(text, FALLBACK_CARD);
    assert_eq!(CARD_KEY, "earthtext0");
}

#[test]
fn duplicate_same_tick_recharges_are_idempotent_and_preserve_other_state() {
    let mut ammo = 0;
    recharge_ammo_to_capacity(&mut ammo, 100);
    recharge_ammo_to_capacity(&mut ammo, 100);
    assert_eq!(ammo, 100);
}

#[test]
fn effect_recharge_does_not_reduce_over_capacity_charge() {
    let mut ammo = 125;
    recharge_ammo_to_capacity(&mut ammo, 100);
    assert_eq!(ammo, 125);
}

#[test]
fn a_negative_capacity_recharges_to_nothing() {
    let mut ammo = -3;
    recharge_ammo_to_capacity(&mut ammo, -10);
    assert_eq!(ammo, 0);
}

fn recharge(weapon: EntityId, clip: Option<i32>, ammo: Option<i32>) -> Effect {
    EnergyWeapon::new().handle_message(weapon, &MessagePayload::Recharge, clip, ammo)
}

#[test]
fn recharge_refills_to_authored_capacity_without_mutating_other_state() {
    let weapon = EntityId(5);
    assert_eq!(recharge(weapon, Some(100), Some(37)), Effect::RechargeAmmo { entity_id: weapon, capacity: 100 });
}

#[test]
fn recharge_uses_the_capacity_of_the_selected_fire_setting() {
    // Setting 1 is selected; its capacity is what the recharge asks for.
    let settings = [50, 100, 0];
    let selected = 1;
    match recharge(EntityId(5), Some(settings[selected]), Some(0)) {
        Effect::RechargeAmmo { capacity, .. } => assert_eq!(capacity, 100),
        other => panic!("expected recharge ammo adjustment, got {other:?}"),
    }
}

#[test]
fn recharge_at_capacity_is_idempotent() {
    assert_eq!(recharge(EntityId(5), Some(100), Some(100)), Effect::NoEffect);
}

#[test]
fn energy_weapon_recharge_does_not_reduce_over_capacity_charge() {
    assert_eq!(recharge(EntityId(5), Some(100), Some(125)), Effect::NoEffect);
}

#[test]
fn duplicate_same_tick_recharges_apply_idempotently() {
    let weapon = EntityId(5);
    let mut ammo = 0;
    // Both messages of one update see the same pre-effect world.
    let effects = [recharge(weapon, Some(100), Some(ammo)), recharge(weapon, Some(100), Some(ammo))];
    for effect in effects {
        let Effect::RechargeAmmo { capacity, .. } = effect else {
            panic!("expected recharge effect");
        };
        recharge_ammo_to_capacity(&mut ammo, capacity);
    }
    assert_eq!(ammo, 100);
}

#[test]
fn recharge_ignores_entities_without_gun_properties() {
    assert_eq!(recharge(EntityId(6), None, None), Effect::NoEffect);
    assert_eq!(recharge(EntityId(6), Some(100), None), Effect::NoEffect);
}

#[test]
fn a_second_frob_in_the_same_batch_awards_nothing_more() {
    let entity = EntityId(8);
    let mut script = ExpCookie::new();
    let first = script.handle_message(entity, &MessagePayload::Frob, Some(10), None);
    let second = script.handle_message(entity, &MessagePayload::Frob, Some(10), None);
    let Effect::Combined { effects } = first else {
        panic!("expected a combined effect, got {first:?}");
    };
    assert!(effects.iter().any(|e| *e == Effect::AwardXP { amount: 10 }));
    assert!(effects.iter().any(|e| *e == Effect::DestroyEntity { entity_id: entity }));
    assert_eq!(second, Effect::NoEffect);
}

#[test]
fn a_cookie_without_a_stack_awards_its_authored_experience() {
    let mut script = ExpCookie::new();
    let effect = script.handle_message(EntityId(8), &MessagePayload::Frob, Some(0), Some(3));
    assert!(Effect::flatten(vec![effect]).contains(&Effect::AwardXP { amount: 3 }));
}

fn note_bit() -> Option<(String, QuestBitValue)> {
    Some(("Note_1_10".to_owned(), QuestBitValue::Complete))
}

fn awards_note(effects: &[Effect]) -> bool {
    effects.iter().any(|e| matches!(e, Effect::SetQuestBit { quest_bit_name, .. } if quest_bit_name == "Note_1_10"))
}

#[test]
fn frobbing_a_takeable_object_awards_its_quest_bit_and_stores_it() {
    let object = EntityId(30);
    let inventory = EntityId(31);
    let effects = Effect::flatten(vec![FrobQB::new().handle_message(
        object,
        &MessagePayload::Frob,
        note_bit(),
        true,
        false,
        Some(inventory),
    )]);
    assert!(awards_note(&effects), "the quest bit must still be awarded, got {effects:?}");
    assert!(effects.contains(&Effect::DropEntityInfo { parent_entity_id: inventory, dropped_entity_id: object }));
    assert!(!effects.iter().any(|e| matches!(e, Effect::DestroyEntity { .. })));
}

#[test]
fn frobbing_a_quest_key_card_awards_its_bit_and_leaves_its_fate_to_the_keycard_script() {
    let effects = Effect::flatten(vec![FrobQB::new().handle_message(
        EntityId(30),
        &MessagePayload::Frob,
        note_bit(),
        true,
        true,
        Some(EntityId(31)),
    )]);
    assert!(awards_note(&effects));
    assert!(!effects
        .iter()
        .any(|e| matches!(e, Effect::DropEntityInfo { .. } | Effect::DestroyEntity { .. })));
}

#[test]
fn a_takeable_object_is_consumed_when_there_is_no_backpack() {
    let object = EntityId(30);
    let effects = Effect::flatten(vec![FrobQB::new().handle_message(
        object,
        &MessagePayload::Frob,
        note_bit(),
        true,
        false,
        None,
    )]);
    assert!(awards_note(&effects));
    assert!(effects.contains(&Effect::DestroyEntity { entity_id: object }));
}

#[test]
fn frobbing_a_use_only_object_leaves_its_lifetime_to_sibling_scripts() {
    let object = EntityId(30);
    let effects = Effect::flatten(vec![FrobQB::new().handle_message(
        object,
        &MessagePayload::Frob,
        note_bit(),
        false,
        false,
        Some(EntityId(31)),
    )]);
    assert!(awards_note(&effects));
    assert!(!effects.contains(&Effect::DestroyEntity { entity_id: object }));
}

#[test]
fn frobbing_a_quest_container_opens_it_without_destroying_its_contents() {
    // The corpse is use-in-place: FrobQB only awards the bit, leaving the
    // host (and the loot panel its container script opens) alive.
    let corpse = EntityId(40);
    let effect = FrobQB::new().handle_message(
        corpse,
        &MessagePayload::Frob,
        Some(("Note_7_8".to_owned(), QuestBitValue::Complete)),
        false,
        false,
        Some(EntityId(31)),
    );
    assert_eq!(
        effect,
        Effect::SetQuestBit { quest_bit_name: "Note_7_8".to_owned(), quest_bit_value: QuestBitValue::Complete }
    );
}

#[test]
fn an_object_without_a_quest_bit_does_nothing_when_frobbed() {
    let effect = FrobQB::new().handle_message(EntityId(30), &MessagePayload::Frob, None, true, false, None);
    assert_eq!(effect, Effect::NoEffect);
}

#[test]
fn recharging_a_dead_power_cell_swaps_in_a_charged_one() {
    let cell = EntityId(50);
    assert_eq!(
        DeadPowerCell::new().handle_message(cell, &MessagePayload::Recharge),
        Effect::ReplaceEntity { entity_id: cell, template_id: CHARGED_POWER_CELL_TEMPLATE }
    );
    assert_eq!(DeadPowerCell::new().handle_message(cell, &MessagePayload::Frob), Effect::NoEffect);
}

#[test]
fn destroy_all_by_name_destroys_each_named_object_on_turn_on() {
    assert_eq!(DestroyAllByName::match_name("Crate_Large"), "crate_large");
    let targets = vec![EntityId(1), EntityId(2)];
    let effect = DestroyAllByName::new().handle_message(&MessagePayload::TurnOn { from: EntityId(9) }, Some(&targets));
    assert_eq!(
        effect,
        Effect::Combined {
            effects: vec![Effect::DestroyEntity { entity_id: EntityId(1) }, Effect::DestroyEntity { entity_id: EntityId(2) }]
        }
    );
    assert_eq!(DestroyAllByName::new().handle_message(&MessagePayload::TurnOn { from: EntityId(9) }, None), Effect::NoEffect);
}

#[test]
fn an_internal_explosion_fires_once() {
    let mut blast = InternalExplosion::new();
    assert!(blast.fires_now());
    assert!(!blast.fires_now());
}

#[test]
fn point_vs_not_special_models_pass_through_each_other() {
    assert!(passes_through(true, false, true, false));
    assert!(!passes_through(true, true, true, false));
    assert!(!passes_through(true, false, false, false));
}

#[test]
fn a_goo_glob_splats_on_its_first_solid_contact_only() {
    let mut goo = GooProjectile::new();
    let hit = MessagePayload::Collided { with: EntityId(3) };
    assert!(!goo.splats(&hit, true), "a pass-through contact is no splat");
    assert!(goo.splats(&hit, false));
    assert!(!goo.splats(&hit, false));
}

#[test]
fn a_holo_rumbler_goes_to_the_marker_of_its_own_number() {
    assert_eq!(CS9HoloRumbler::loc_marker_name("Rumbler3").as_deref(), Some("RumblerLoc3"));
    assert_eq!(CS9HoloRumbler::loc_marker_name("Rumbler"), None);
    let rumbler = CS9HoloRumbler::new();
    assert_eq!(
        rumbler.teleport_target(&MessagePayload::TurnOff { from: EntityId(1) }, Some("Rumbler3")).as_deref(),
        Some("SafeTeleportLoc")
    );
    assert_eq!(
        rumbler.teleport_target(&MessagePayload::TurnOn { from: EntityId(1) }, Some("Rumbler12")).as_deref(),
        Some("RumblerLoc2")
    );
}

#[test]
fn a_destroy_teleport_trap_destroys_its_targets() {
    let targets = vec![EntityId(7)];
    let effect = TrapDestroyTeleport::new()
        .handle_message(&MessagePayload::SensorBeginIntersect { with: EntityId(1) }, &targets);
    assert_eq!(effect, Effect::Combined { effects: vec![Effect::DestroyEntity { entity_id: EntityId(7) }] });
    assert_eq!(TrapDestroyTeleport::new().handle_message(&MessagePayload::Frob, &targets), Effect::NoEffect);
    assert_eq!(SitDownRightNowMP::new().handle_message(&MessagePayload::Frob), Effect::NoEffect);
}

#[test]
fn hazards_answer_their_own_messages() {
    let player = EntityId(1);
    let room = EntityId(60);
    let none = EngineCleanupTargets { slain: vec![], core_doors: vec![] };
    assert_eq!(
        HazardObject::Room.handle_message(room, &MessagePayload::SensorBeginIntersect { with: player }, Some(player), false, &none, Effect::NoEffect),
        Effect::RadiationRoom { entity_id: room, entered: true }
    );
    assert_eq!(
        HazardObject::Room.handle_message(room, &MessagePayload::SensorEndIntersect { with: EntityId(2) }, Some(player), false, &none, Effect::NoEffect),
        Effect::NoEffect
    );
    assert_eq!(
        HazardObject::ToxinPatch.handle_message(room, &MessagePayload::Frob, Some(player), true, &none, Effect::NoEffect),
        Effect::UseToxinPatch { entity_id: room, amount_tenths: 24 }
    );
    let cleanup = EngineCleanupTargets { slain: vec![EntityId(70)], core_doors: vec![EntityId(71)] };
    let effect = HazardObject::EngineCleanup.handle_message(
        room,
        &MessagePayload::TurnOn { from: EntityId(3) },
        Some(player),
        false,
        &cleanup,
        Effect::ShowMessage { text: "done".to_owned() },
    );
    assert_eq!(
        effect,
        Effect::Combined {
            effects: vec![
                Effect::ClearEnvironmentalRadiation,
                Effect::SetQuestBit { quest_bit_name: "EngineRadClear".to_owned(), quest_bit_value: QuestBitValue::Incomplete },
                Effect::SlayEntity { entity_id: EntityId(70) },
                Effect::SetLocked { entity_id: EntityId(71), locked: false },
                Effect::ShowMessage { text: "done".to_owned() },
            ]
        }
    );
}
