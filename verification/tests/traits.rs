use shock2vr::effect::{Effect, EntityId};
use shock2vr::trainer::PlayerStats;
use shock2vr::traits::{
    description_text, hovered_help, hovered_trait, live_effect_note, trait_icon, trait_name, used_bit_name, TraitGui,
    TraitGuiMsg, TraitsContext, MATRIX_PITCH_X, MATRIX_PITCH_Y, MATRIX_X, MATRIX_Y, OFFLINE_LABEL, OS_TRAITS,
    OWNED_X, OWNED_Y, TRAIT_PACK_RAT, TRAIT_TANK, UNAVAILABLE_LABEL,
};

#[test]
fn sixteen_traits_in_retail_order() {
    assert_eq!(OS_TRAITS.len(), 16);
    assert_eq!(trait_name(4), "Speedy");
    assert_eq!(trait_name(8), "Tank");
    assert_eq!(trait_name(16), "Spatially Aware");
    for (idx, (id, _)) in OS_TRAITS.iter().enumerate() {
        assert_eq!(*id as usize, idx + 1);
    }
}

#[test]
fn used_bit_is_keyed_by_stable_mission_id() {
    assert_eq!(used_bit_name(133), "trait_machine_used_133");
}

#[test]
fn out_of_range_ids_have_no_name_or_effect() {
    assert_eq!(trait_name(0), "?");
    assert_eq!(trait_name(17), "?");
    assert!(live_effect_note(17).is_none());
    assert!(live_effect_note(TRAIT_TANK).is_some());
    assert_eq!(trait_icon(8), "trait08.pcx");
    assert_eq!(trait_icon(16), "trait16.pcx");
}

#[test]
fn offline_station_refuses_supported_trait_until_unlocked() {
    let machine = EntityId(60301);
    let stats = PlayerStats::new();
    let (state, effect) = TraitGui.handle_msg(machine, &TraitGuiMsg::Pick(TRAIT_TANK), Some(60301), true, false, "used", &stats);
    assert!(matches!(effect, Effect::NoEffect));
    assert_eq!(state.message.as_deref(), Some(OFFLINE_LABEL));
    let (_, effect) = TraitGui.handle_msg(machine, &TraitGuiMsg::Pick(TRAIT_TANK), Some(60301), false, false, "used", &stats);
    assert!(matches!(effect, Effect::AcquireOsTrait { .. }));
}

#[test]
fn invalid_trait_does_not_consume_the_machine() {
    let stats = PlayerStats::new();
    let (state, effect) = TraitGui.handle_msg(EntityId(1), &TraitGuiMsg::Pick(17), Some(133), false, false, "used", &stats);
    assert!(matches!(effect, Effect::NoEffect));
    assert_eq!(state.message.as_deref(), Some(UNAVAILABLE_LABEL));
}

#[test]
fn pack_rat_is_selectable_now_that_backpack_width_consumes_it() {
    let machine = EntityId(77);
    let stats = PlayerStats::new();
    let (state, effect) =
        TraitGui.handle_msg(machine, &TraitGuiMsg::Pick(TRAIT_PACK_RAT), Some(133), false, false, "used", &stats);
    assert!(matches!(
        effect,
        Effect::AcquireOsTrait { trait_id: TRAIT_PACK_RAT, machine: selected } if selected == machine
    ));
    assert_eq!(state.message.as_deref(), Some("Pack-Rat installed."));
}

#[test]
fn refusals_for_owned_traits_full_slots_used_machines_and_missing_ids() {
    let mut stats = PlayerStats::new();
    assert!(stats.add_os_trait(TRAIT_TANK));
    let (state, _) = TraitGui.handle_msg(EntityId(1), &TraitGuiMsg::Pick(TRAIT_TANK), Some(1), false, false, "used", &stats);
    assert_eq!(state.message.as_deref(), Some("Tank is already installed."));
    for id in [1, 2, 3] {
        assert!(stats.add_os_trait(id));
    }
    assert!(!stats.add_os_trait(4), "only four slots");
    let (state, _) = TraitGui.handle_msg(EntityId(1), &TraitGuiMsg::Pick(4), Some(1), false, false, "used", &stats);
    assert_eq!(state.message.as_deref(), Some("All O/S upgrade slots are full."));
    let (state, _) = TraitGui.handle_msg(EntityId(1), &TraitGuiMsg::Pick(4), Some(1), false, true, "Used up.", &stats);
    assert_eq!(state.message.as_deref(), Some("Used up."));
    let (state, _) = TraitGui.handle_msg(EntityId(1), &TraitGuiMsg::Pick(4), None, false, false, "used", &stats);
    assert_eq!(state.message.as_deref(), Some("This upgrade unit is not responding."));
}

#[test]
fn installed_traits_leave_their_cells_and_fill_the_owned_row() {
    let owned = vec![TRAIT_TANK];
    let offered = TraitGui.offered_traits(&owned);
    assert_eq!(offered.len(), 15);
    assert!(!offered.contains(&TRAIT_TANK));
    assert_eq!(TraitGui.slot_icon(&owned, 0), "trait08.pcx");
    assert_eq!(TraitGui.slot_icon(&owned, 1), "trait00.pcx");
    assert_eq!(TraitGui.status_text(false, false, "used", Some(17)).as_deref(), Some(UNAVAILABLE_LABEL));
    assert_eq!(TraitGui.status_text(false, false, "used", Some(3)), None);
    let ctx = TraitsContext::new(None, Some("Already upgraded."));
    assert_eq!(ctx.header_label, "Choose one upgrade.");
    assert_eq!(ctx.used_label, "Already upgraded.");
    assert!(ctx.descriptions[7].starts_with("Tank"));
}

#[test]
fn matrix_hit_test_maps_cells_to_ids() {
    // Tenths of a pixel: cell (col 0, row 0) is trait 1; (col 3, row 3) is trait 16.
    assert_eq!(hovered_trait(MATRIX_X + 10, MATRIX_Y + 10), Some(1));
    assert_eq!(hovered_trait(MATRIX_X + MATRIX_PITCH_X * 3 + 50, MATRIX_Y + MATRIX_PITCH_Y * 3 + 50), Some(16));
    // Off the matrix: no hover.
    assert_eq!(hovered_trait(50, 50), None);
    assert_eq!(hovered_trait(1000, 2800), None);
}

#[test]
fn hover_help_stays_in_its_well_and_does_not_include_stale_feedback() {
    let description = "Cybernetically Enhanced: An extra implant may be installed.";
    let mut context = TraitsContext::new(None, None);
    for d in context.descriptions.iter_mut() {
        *d = description.to_owned();
    }
    let hovered = hovered_help(&vec![], MATRIX_X + 10, MATRIX_Y + 10);
    assert_eq!(hovered, Some(1));
    let text = description_text(Some(&context), hovered, &Some("Stale refusal".to_owned()));
    assert_eq!(text.as_deref(), Some(description));
    // With nothing hovered, the last pick's feedback shows instead.
    assert_eq!(description_text(Some(&context), None, &Some("Stale refusal".to_owned())).as_deref(), Some("Stale refusal"));
}

#[test]
fn installed_traits_leave_empty_grid_cells_without_hover_help() {
    let owned = vec![TRAIT_TANK];
    // Tank's matrix cell: column 3, row 1.
    let hovered = hovered_help(&owned, MATRIX_X + MATRIX_PITCH_X * 3 + 10, MATRIX_Y + MATRIX_PITCH_Y + 10);
    assert_eq!(hovered, None);
    assert_eq!(TraitGui.offered_traits(&owned).len(), 15);
    assert_eq!(description_text(Some(&TraitsContext::new(None, None)), hovered, &None), None);
}

#[test]
fn installed_icon_exposes_its_description() {
    let owned = vec![TRAIT_TANK];
    let hovered = hovered_help(&owned, OWNED_X + 10, OWNED_Y + 10);
    assert_eq!(hovered, Some(TRAIT_TANK));
    assert_eq!(description_text(None, hovered, &None).as_deref(), Some("Tank"));
}
