use shock2vr::effect::{Effect, EntityId, MessagePayload};
use shock2vr::healing::{
    tick_player_healing, ActiveHealing, HealingDose, HealingItemKind, HealingItemScript,
    HEALING_FIRST_PULSE_MS, HEALING_PULSE_INTERVAL_MS,
};

fn frob(kind: HealingItemKind, item: EntityId, pharmo: bool, easy: bool) -> Effect {
    HealingItemScript::new(kind).handle_message(item, &MessagePayload::Frob, pharmo, easy)
}

#[test]
fn easy_medpatch_budget_applies_after_trait_without_changing_pulses() {
    let item = EntityId(1);
    for easy in [false, true] {
        for pharmo in [false, true] {
            for kind in [HealingItemKind::MedPatch, HealingItemKind::MedicalKit] {
                let mut expected = if kind == HealingItemKind::MedPatch { 10 } else { 200 };
                if pharmo {
                    expected = expected * 6 / 5;
                }
                if kind == HealingItemKind::MedPatch && easy {
                    expected = expected * 3 / 2;
                }
                match frob(kind, item, pharmo, easy) {
                    Effect::UseHealingItem { total, pulse, first_pulse_ms, pulse_interval_ms, .. } => {
                        assert_eq!(total, expected);
                        assert_eq!(
                            pulse,
                            if kind == HealingItemKind::MedPatch {
                                2
                            } else if pharmo {
                                6
                            } else {
                                5
                            }
                        );
                        assert_eq!(first_pulse_ms, 100);
                        assert_eq!(pulse_interval_ms, 1500);
                    }
                    other => panic!("expected healing use, got {other:?}"),
                }
            }
        }
    }
}

#[test]
fn med_patch_frob_uses_retail_budget_and_cadence() {
    let patch = EntityId(2);
    assert_eq!(
        frob(HealingItemKind::MedPatch, patch, false, false),
        Effect::UseHealingItem {
            entity_id: patch,
            total: 10,
            pulse: 2,
            first_pulse_ms: HEALING_FIRST_PULSE_MS,
            pulse_interval_ms: HEALING_PULSE_INTERVAL_MS,
        }
    );
}

#[test]
fn medical_kit_uses_retail_override() {
    let kit = EntityId(3);
    assert!(matches!(
        frob(HealingItemKind::MedicalKit, kit, false, false),
        Effect::UseHealingItem { entity_id, total: 200, pulse: 5, .. } if entity_id == kit
    ));
}

#[test]
fn pharmo_friendly_uses_the_retail_twenty_percent_integer_bonus() {
    assert!(matches!(
        frob(HealingItemKind::MedicalKit, EntityId(4), true, false),
        Effect::UseHealingItem { total: 240, pulse: 6, .. }
    ));
    // 2 * 1.2 truncates back to 2.
    assert!(matches!(
        frob(HealingItemKind::MedPatch, EntityId(5), true, false),
        Effect::UseHealingItem { total: 12, pulse: 2, .. }
    ));
}

#[test]
fn other_messages_do_not_heal() {
    let script = HealingItemScript::new(HealingItemKind::MedPatch);
    assert_eq!(script.handle_message(EntityId(6), &MessagePayload::Recharge, false, false), Effect::NoEffect);
}

#[test]
fn active_healing_obeys_initial_delay_interval_total_and_cap() {
    let mut active = ActiveHealing::default();
    assert!(active.queue(10, 2, 100, 1500));
    assert_eq!(active.advance(99, 8, 30), 0);
    assert_eq!(active.advance(2, 8, 30), 2);
    assert_eq!(active.advance(6000, 10, 30), 8);

    assert!(active.queue(200, 5, 100, 1500));
    assert_eq!(active.advance(8000, 1, 30), 29);
}

#[test]
fn queue_rejects_timing_that_cannot_run() {
    let mut active = ActiveHealing::default();
    assert!(!active.queue(10, 2, -1, 1500));
    assert!(!active.queue(10, 2, 100, 0));
    assert!(!active.queue(0, 2, 100, 1500));
    assert!(active.doses.is_empty());
}

#[test]
fn corrupt_restored_doses_are_pruned_without_looping() {
    let mut active = ActiveHealing {
        doses: vec![
            HealingDose { remaining: 10, pulse: 0, ms_until_pulse: -1000, pulse_interval_ms: 0 },
            HealingDose { remaining: 10, pulse: 2, ms_until_pulse: 0, pulse_interval_ms: 0 },
        ],
    };
    assert_eq!(active.advance(60_000, 8, 30), 0);
    assert!(active.doses.is_empty());
}

#[test]
fn healing_never_passes_the_maximum_or_the_budget() {
    let mut active = ActiveHealing::default();
    assert!(active.queue(50, 10, 0, 100));
    // Three pulses are due, but only five points of room are left.
    assert_eq!(active.advance(250, 25, 30), 5);
    let mut active = ActiveHealing::default();
    assert!(active.queue(7, 5, 0, 100));
    // The budget runs out part way through the second pulse.
    assert_eq!(active.advance(10_000, 1, 100), 7);
    assert!(active.doses.is_empty());
}

#[test]
fn a_tick_reports_only_what_it_healed() {
    let player = EntityId(9);
    let mut active = ActiveHealing::default();
    assert!(active.queue(10, 2, 100, 1500));
    assert_eq!(tick_player_healing(&mut active, player, 8, 30, 50), None);
    assert_eq!(
        tick_player_healing(&mut active, player, 8, 30, 50),
        Some(Effect::AdjustHitPoints { entity_id: player, delta: 2 })
    );
}
