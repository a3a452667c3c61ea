use shock2vr::board_view::{result_overlay, start_control};
use shock2vr::effect::{Effect, EntityId, ObjectState};
use shock2vr::hrm::{board_index, HackDiff, HackNode, HackPhase, KeyPadMsg};
use shock2vr::panels::{repair_critical_failure, repair_success};
use shock2vr::weapon_boards::{
    inventory_icon, modify_critical_failure, modify_entry, modify_success, next_modify_diff,
    offers_modify_control, repair_entry, repair_subject, use_broken_weapon, use_modify_control,
    BoardStrings, ModifyEntry, RepairEntry, WeaponFacts, WeaponModifyGui, WeaponModifyMsg,
    WeaponModifyState, WeaponRepairGui, WeaponRepairMsg, WeaponRepairState,
};

const GUN: EntityId = EntityId(42);

fn strings() -> BoardStrings {
    BoardStrings {
        modify_maxed: "This weapon cannot be modified any further.".to_owned(),
        modify_skill_req: "Modify skill %d required.".to_owned(),
        repair_skill_req: "Repair skill %d required.".to_owned(),
    }
}

/// The shipped pistol: modified `modification` times, with its two sets of
/// modify terms and a required Modify (and Repair) level of one.
fn pistol(modification: i32) -> WeaponFacts {
    WeaponFacts {
        has_gun_state: true,
        has_modify_script: true,
        is_psi_amp: false,
        object_state: ObjectState::Normal,
        modification,
        modify_diff: Some(HackDiff { success_chance: 40, critical_chance: 2, cost: 20 }),
        modify2_diff: Some(HackDiff { success_chance: 30, critical_chance: 4, cost: 20 }),
        repair_diff: None,
        required_modify: 1,
        required_repair: 1,
    }
}

/// A pistol with the shipped repair terms (success 20, four criticals, three
/// nanites) and no modify script.
fn repairable(state: ObjectState) -> WeaponFacts {
    WeaponFacts {
        has_gun_state: true,
        has_modify_script: false,
        is_psi_amp: false,
        object_state: state,
        modification: 0,
        modify_diff: None,
        modify2_diff: None,
        repair_diff: Some(HackDiff { success_chance: 20, critical_chance: 4, cost: 3 }),
        required_modify: 1,
        required_repair: 1,
    }
}

#[test]
fn each_modification_is_played_on_its_own_terms() {
    assert_eq!(next_modify_diff(&pistol(0)).unwrap().success_chance, 40);
    assert_eq!(next_modify_diff(&pistol(1)).unwrap().success_chance, 30);
    assert_eq!(next_modify_diff(&pistol(2)), None);
}

#[test]
fn a_fully_modified_gun_cannot_be_modified_again() {
    let facts = pistol(2);
    assert_eq!(modify_entry(&facts, 9), ModifyEntry::AlreadyFullyModified);
    assert!(matches!(
        use_modify_control(GUN, &facts, 9, &strings()),
        Some(Effect::ShowMessage { text }) if text == "This weapon cannot be modified any further."
    ));
    assert!(offers_modify_control(&facts, 9));
}

#[test]
fn the_second_modification_is_two_levels_harder() {
    assert_eq!(modify_entry(&pistol(0), 1), ModifyEntry::Board);
    assert_eq!(modify_entry(&pistol(1), 1), ModifyEntry::SkillRequired { level: 3 });
    assert_eq!(modify_entry(&pistol(1), 3), ModifyEntry::Board);
    assert!(matches!(
        use_modify_control(GUN, &pistol(1), 1, &strings()),
        Some(Effect::ShowMessage { text }) if text == "Modify skill 3 required."
    ));
}

#[test]
fn modify_software_counts_toward_the_skill_gate() {
    // The level passed in is the board's own effective level: trained skill
    // plus installed software.
    assert_eq!(modify_entry(&pistol(0), 0), ModifyEntry::SkillRequired { level: 1 });
    assert_eq!(modify_entry(&pistol(0), 0 + 1), ModifyEntry::Board);
}

#[test]
fn a_broken_gun_is_not_modifiable() {
    let mut facts = pistol(0);
    facts.object_state = ObjectState::Broken;
    assert_eq!(modify_entry(&facts, 9), ModifyEntry::NotModifiable);
    assert!(use_modify_control(GUN, &facts, 9, &strings()).is_none());
    assert!(!offers_modify_control(&facts, 9));
}

#[test]
fn a_weapon_with_no_modify_script_offers_nothing() {
    let mut wrench = pistol(0);
    wrench.has_modify_script = false;
    assert_eq!(modify_entry(&wrench, 9), ModifyEntry::NotModifiable);
    assert!(!offers_modify_control(&wrench, 9));
}

#[test]
fn winning_modifies_and_a_critical_failure_breaks_the_gun() {
    assert_eq!(modify_success(GUN, 0), Effect::ModifyWeapon { entity_id: GUN, expected_level: 0 });
    assert_eq!(
        modify_critical_failure(GUN),
        Effect::SetObjectState { entity_id: GUN, state: ObjectState::Broken }
    );
}

#[test]
fn weapon_modify_each_opening_deals_a_fresh_board() {
    assert!(WeaponModifyGui.resets_state_on_frob(), "a shared panel must reset per open");
    let mut carried = WeaponModifyState::default();
    carried.hack.phase = HackPhase::Won;
    WeaponModifyGui.prepare_state_on_frob(&mut carried);
    assert_eq!(
        carried.hack.phase,
        HackPhase::Unpaid,
        "the next gun's board must start unpaid, not on the last gun's win"
    );

}

#[test]
fn weapon_repair_each_opening_deals_a_fresh_board() {
    assert!(WeaponRepairGui.resets_state_on_frob(), "a shared panel must reset per open");
    let mut finished = WeaponRepairState::default();
    finished.hack.phase = HackPhase::Won;
    let mut carried = finished.clone();
    WeaponRepairGui.prepare_state_on_frob(&mut carried);
    assert_eq!(carried.hack.phase, HackPhase::Unpaid);
}

#[test]
fn the_board_ignores_input_once_the_gun_is_fully_modified() {
    let (_, effect) = WeaponModifyGui.handle_msg(
        &WeaponModifyState::default(),
        &WeaponModifyMsg::Board(KeyPadMsg::StartHack),
        Some((GUN, pistol(2))),
        9,
        50,
        3,
        Some(Effect::NoEffect),
        7,
    );
    assert_eq!(effect, Effect::NoEffect);
}

#[test]
fn only_a_broken_gun_opens_the_repair_board() {
    let facts = repairable(ObjectState::Normal);
    assert_eq!(repair_entry(&facts, 1), RepairEntry::NotRepairable);
    assert!(use_broken_weapon(GUN, &facts, 1, &strings()).is_none());

    let facts = repairable(ObjectState::Broken);
    assert_eq!(repair_entry(&facts, 1), RepairEntry::Board);
    assert_eq!(
        use_broken_weapon(GUN, &facts, 1, &strings()),
        Some(Effect::OpenWeaponRepair { entity_id: GUN })
    );
}

#[test]
fn a_broken_object_with_no_repair_terms_is_not_repairable() {
    let mut junk = repairable(ObjectState::Broken);
    junk.repair_diff = None;
    assert_eq!(repair_entry(&junk, 1), RepairEntry::NotRepairable);
}

#[test]
fn repairing_below_the_authored_skill_requirement_refuses() {
    let facts = repairable(ObjectState::Broken);
    assert_eq!(repair_entry(&facts, 0), RepairEntry::SkillRequired { level: 1 });
    assert!(matches!(
        use_broken_weapon(GUN, &facts, 0, &strings()),
        Some(Effect::ShowMessage { text }) if text == "Repair skill 1 required."
    ));
}

#[test]
fn a_won_repair_restores_working_order_and_ten_condition_points() {
    let effects = Effect::flatten(vec![repair_success(GUN)]);
    assert!(effects
        .iter()
        .any(|e| *e == Effect::SetObjectState { entity_id: GUN, state: ObjectState::Normal }));
    assert!(effects
        .iter()
        .any(|e| *e == Effect::AdjustWeaponCondition { entity_id: GUN, delta_points: 10 }));
}

#[test]
fn a_critical_failure_destroys_the_gun() {
    assert_eq!(repair_critical_failure(GUN), Effect::DestroyEntity { entity_id: GUN });
}

#[test]
fn a_lost_board_still_draws_its_loss_art_once_the_gun_is_gone() {
    let mut facts = repairable(ObjectState::Broken);
    facts.repair_diff = Some(HackDiff { success_chance: 0, critical_chance: 4, cost: 3 });
    let subject = repair_subject(GUN, &facts, 1).expect("a broken gun is a repair job");

    let mut dealt = WeaponRepairState::default();
    dealt.hack.phase = HackPhase::Playing;
    dealt.hack.nodes[board_index(0, 0)] = HackNode::Mine;

    // No node can survive a chance of zero, so the mine is played for certain.
    let (after, effect) = WeaponRepairGui.handle_msg(
        &dealt,
        &WeaponRepairMsg::Board(KeyPadMsg::PlayNode { x: 0, y: 0 }),
        Some(subject),
        Some(facts),
        0,
        3,
        None,
        1,
    );
    assert_eq!(after.hack.phase, HackPhase::Lost);
    assert!(
        Effect::flatten(vec![effect]).iter().any(|e| *e == Effect::DestroyEntity { entity_id: GUN }),
        "a lost repair should destroy the gun"
    );

    // The gun is gone; the board still wears its loss and offers no deal.
    let drawn = WeaponRepairGui.board_to_draw(&after, false);
    assert_eq!(drawn.phase, HackPhase::Lost);
    assert_eq!(result_overlay(drawn.phase), Some("loseh.pcx"));
    assert!(start_control(drawn.phase).is_none(), "a board that can never act again must offer no deal");
}

#[test]
fn a_lost_board_accepts_no_further_input() {
    let facts = repairable(ObjectState::Broken);
    let subject = repair_subject(GUN, &facts, 1).expect("a broken gun is a repair job");
    let (_, effect) = WeaponRepairGui.handle_msg(
        &WeaponRepairState::default(),
        &WeaponRepairMsg::Board(KeyPadMsg::StartHack),
        Some(subject),
        None,
        50,
        3,
        Some(Effect::NoEffect),
        1,
    );
    assert_eq!(effect, Effect::NoEffect);
}

#[test]
fn the_board_ignores_input_once_the_gun_works_again() {
    let facts = repairable(ObjectState::Broken);
    let subject = repair_subject(GUN, &facts, 1).expect("a broken gun is a repair job");
    let (_, effect) = WeaponRepairGui.handle_msg(
        &WeaponRepairState::default(),
        &WeaponRepairMsg::Board(KeyPadMsg::StartHack),
        Some(subject),
        Some(repairable(ObjectState::Normal)),
        50,
        3,
        Some(Effect::NoEffect),
        1,
    );
    assert_eq!(effect, Effect::NoEffect);
}

#[test]
fn a_broken_psi_amp_is_not_a_repair_job() {
    let mut amp = repairable(ObjectState::Broken);
    amp.is_psi_amp = true;
    assert_eq!(repair_entry(&amp, 1), RepairEntry::NotRepairable);
}

#[test]
fn a_destroyed_gun_is_repairable_and_draws_its_broken_icon() {
    let facts = repairable(ObjectState::Destroyed);
    assert_eq!(repair_entry(&facts, 1), RepairEntry::Board);
    assert_eq!(
        inventory_icon(ObjectState::Destroyed, Some("icn_pistb"), Some("icn_pist")).as_deref(),
        Some("icn_pistb")
    );
}

#[test]
fn repair_software_counts_toward_the_skill_gate() {
    let facts = repairable(ObjectState::Broken);
    assert_eq!(repair_entry(&facts, 0), RepairEntry::SkillRequired { level: 1 });
    assert_eq!(repair_entry(&facts, 0 + 1), RepairEntry::Board);
}

#[test]
fn a_broken_gun_draws_its_broken_icon() {
    assert_eq!(
        inventory_icon(ObjectState::Normal, Some("icn_pistb"), Some("icn_pist")).as_deref(),
        Some("icn_pist")
    );
    assert_eq!(
        inventory_icon(ObjectState::Broken, Some("icn_pistb"), Some("icn_pist")).as_deref(),
        Some("icn_pistb")
    );
}

#[test]
fn a_broken_object_with_no_broken_art_keeps_its_icon() {
    assert_eq!(inventory_icon(ObjectState::Broken, None, Some("icn_pist")).as_deref(), Some("icn_pist"));
    assert_eq!(inventory_icon(ObjectState::Broken, Some(""), Some("icn_pist")).as_deref(), Some("icn_pist"));
}
