use shock2vr::effect::{Effect, EntityId};
use shock2vr::hrm::{HackDiff, HackPhase};
use shock2vr::layout::{
    row_text_bottom, row_text_origin, setting_row, unload_rect, PlugKind, HIGHLIGHT_H,
    HIGHLIGHT_W, PLUG_CANVAS_W, SETTINGS_PANEL_H, SETTINGS_PANEL_W,
};
use shock2vr::panels::{
    has_plug_room, job_backdrop, mod_level_text, plug_for, row_text, settings_canvas_width,
    settings_sidecar, should_close_settings_panel, shows_unload, HrmJob, WeaponJobTerms,
    WeaponSettingsGui, WeaponSettingsGuiMsg, WeaponSettingsGuiState,
};

fn no_board() -> WeaponSettingsGuiState {
    WeaponSettingsGuiState { board: None }
}

fn terms(repair: Result<HackDiff, String>) -> WeaponJobTerms {
    WeaponJobTerms {
        modification_level: Some(2),
        modify_quote: Err("This weapon cannot be modified any further.".to_owned()),
        repair_quote: repair,
        modify_won_text: "won".to_owned(),
        modify_lost_text: "lost".to_owned(),
    }
}

#[test]
fn the_rows_do_not_overlap_and_sit_inside_the_panel() {
    let rows = [setting_row(0), setting_row(1)];
    assert!(rows[0].y + rows[0].h <= rows[1].y, "rows must not overlap");
    for row in rows {
        assert!(row.x >= 0 && row.x + row.w <= SETTINGS_PANEL_W);
        assert!(row.y >= 0 && row.y + row.h <= SETTINGS_PANEL_H);
    }
    let unload = unload_rect();
    assert_eq!(unload.y + unload.h, SETTINGS_PANEL_H);
    assert_eq!(unload.x, (SETTINGS_PANEL_W - unload.w) / 2);
}

#[test]
fn every_row_is_exactly_the_highlight_arts_native_size() {
    for setting in 0..2usize {
        let row = setting_row(setting);
        assert_eq!((row.w, row.h), (HIGHLIGHT_W, HIGHLIGHT_H), "row {row:?} does not match SETSEL.PCX");
        assert_eq!((row.w, row.h), (164, 68));
    }
}

#[test]
fn row_text_stays_inside_its_row_and_clear_of_unload() {
    for setting in 0..2usize {
        let row = setting_row(setting);
        let (_, text_y) = row_text_origin(setting);
        let bottom = row_text_bottom(row);
        assert!(bottom <= row.y + row.h && bottom <= unload_rect().y);
        assert!(bottom - text_y >= 4 * 13);
    }
}

#[test]
fn mod_level_substitutes_the_level_and_survives_a_string_without_it() {
    assert_eq!(mod_level_text("Modification Level %d", 3), "Modification Level 3");
    assert_eq!(mod_level_text("Modification", 3), "Modification");
}

#[test]
fn a_row_without_a_header_has_no_line_at_all() {
    assert_eq!(row_text(None, Some("described")), None);
    assert_eq!(row_text(Some("NORM"), None), Some("NORM".to_owned()));
    assert_eq!(row_text(Some("NORM"), Some("single shot")), Some("NORM: single shot".to_owned()));
}

#[test]
fn a_row_reads_its_header_and_description() {
    assert_eq!(
        row_text(Some("NORM"), Some("This is the normal single-shot firing mode.")),
        Some("NORM: This is the normal single-shot firing mode.".to_owned())
    );
    assert!(row_text(Some("BURST"), Some("This is the 3-shot rapid burst mode."))
        .unwrap()
        .contains("BURST: This is the 3-shot"));
    assert_eq!(mod_level_text("Modification Level %d", 2), "Modification Level 2");
}

#[test]
fn an_energy_weapon_has_no_unload_button() {
    assert!(shows_unload(false, Some(6), true), "a loaded gun with a clip to go back to can eject");
    assert!(!shows_unload(false, Some(0), true), "an empty magazine offers no UNLOAD");
    assert!(!shows_unload(true, Some(6), true), "a rechargeable weapon has no magazine to eject");
    assert!(!shows_unload(false, None, true));
    assert!(!shows_unload(false, Some(6), false));
}

#[test]
fn clicking_a_row_sets_that_fire_mode_on_the_wielded_gun() {
    let weapon = EntityId(7);
    let (_, effect) = WeaponSettingsGui.handle_msg(
        Some(weapon),
        &no_board(),
        &WeaponSettingsGuiMsg::SelectSetting(1),
        terms(Err("nothing".to_owned())),
        50,
        3,
        None,
        1,
    );
    assert_eq!(effect, Effect::SetGunSetting { entity_id: weapon, setting: 1 });

    let (_, effect) = WeaponSettingsGui.handle_msg(
        Some(weapon),
        &no_board(),
        &WeaponSettingsGuiMsg::Unload,
        terms(Err("nothing".to_owned())),
        50,
        3,
        None,
        1,
    );
    assert_eq!(effect, Effect::UnloadWeapon { entity_id: weapon });
}

#[test]
fn settings_stay_bound_to_the_selected_left_gun_and_go_inert_when_dropped() {
    let click = |weapon: Option<EntityId>| {
        WeaponSettingsGui
            .handle_msg(
                weapon,
                &no_board(),
                &WeaponSettingsGuiMsg::SelectSetting(1),
                terms(Err("nothing".to_owned())),
                50,
                3,
                None,
                1,
            )
            .1
    };
    let left = EntityId(1);
    let right = EntityId(2);
    assert_eq!(click(Some(left)), Effect::SetGunSetting { entity_id: left, setting: 1 });
    assert_eq!(click(Some(right)), Effect::SetGunSetting { entity_id: right, setting: 1 });
    assert_eq!(click(None), Effect::NoEffect);
}

#[test]
fn the_panel_closes_when_its_gun_stops_being_wielded() {
    let gun = EntityId(3);
    let other = EntityId(4);
    assert!(!should_close_settings_panel(gun, Some(gun)));
    assert!(should_close_settings_panel(gun, Some(other)));
    assert!(should_close_settings_panel(gun, None));
}

#[test]
fn a_broken_gun_offers_repair_instead_of_modify() {
    let plug = plug_for(false, true, true).unwrap();
    assert_eq!((plug.0, plug.1, plug.2), (PlugKind::Modify, WeaponSettingsGuiMsg::Modify, "modify"));
    assert_eq!(plug.0.art().1, "plugm0.pcx");
    let plug = plug_for(true, true, true).unwrap();
    assert_eq!((plug.0, plug.1, plug.2), (PlugKind::Repair, WeaponSettingsGuiMsg::Repair, "repair"));
    assert_eq!(plug.0.art().1, "plugr0.pcx");
    assert_eq!(settings_canvas_width(has_plug_room(true, true)), PLUG_CANVAS_W);

    let quote = HackDiff { success_chance: 20, critical_chance: 4, cost: 3 };
    let (state, effect) = WeaponSettingsGui.handle_msg(
        Some(EntityId(9)),
        &no_board(),
        &WeaponSettingsGuiMsg::Repair,
        terms(Ok(quote)),
        50,
        3,
        None,
        1,
    );
    assert_eq!(effect, Effect::NoEffect);
    let (job, dealt, board) = state.board.expect("REPAIR deals a board");
    assert_eq!(job, HrmJob::Repair);
    assert_eq!(dealt, quote);
    assert_eq!(board.phase, HackPhase::Unpaid);
    assert_eq!(job_backdrop(job), "iface/repair.pcx");
}

#[test]
fn the_canvas_keeps_its_width_when_a_repair_removes_the_plug() {
    // A gun that can be repaired but not modified has room for a plug,
    // broken or not.
    let room = has_plug_room(true, false);
    assert_eq!(settings_canvas_width(room), PLUG_CANVAS_W);
    // Once repaired, no plug applies: the room stays, with nothing to click.
    assert!(plug_for(false, true, false).is_none());
    let sidecar = settings_sidecar(room, false, false).unwrap();
    assert_eq!(sidecar.rect, None, "no plug to click");
    assert_eq!(settings_canvas_width(has_plug_room(false, false)), SETTINGS_PANEL_W);
}

#[test]
fn the_highlight_covers_exactly_the_current_setting_row() {
    // The highlight is drawn at the current setting's row rect.
    for setting in 0..2usize {
        let row = setting_row(setting);
        assert_eq!(row, setting_row(setting), "setting {setting}'s row must carry the highlight");
        assert_eq!((row.w, row.h), (HIGHLIGHT_W, HIGHLIGHT_H));
    }
    assert_eq!(setting_row(0).y, 150);
    assert_eq!(setting_row(1).y, 220);
}

#[test]
fn each_row_is_clickable_over_exactly_its_highlight_rect() {
    // The hit target and the highlight are the same rect, so they cannot
    // diverge: a point inside row 1 is outside row 0 and vice versa.
    let rows = [setting_row(0), setting_row(1)];
    for (i, row) in rows.iter().enumerate() {
        assert!(row.contains_half_open(row.x, row.y));
        assert!(!row.contains_half_open(row.x + row.w, row.y));
        let other = rows[1 - i];
        assert!(!other.contains_half_open(row.x + 1, row.y + 1));
    }
}

#[test]
fn a_gun_with_one_fire_mode_draws_one_row() {
    // A gun that names no second header offers no second row.
    assert!(row_text(Some("NORM"), None).is_some());
    assert!(row_text(None, None).is_none());
}

#[test]
fn nothing_wielded_draws_only_the_backdrop() {
    let (state, effect) = WeaponSettingsGui.handle_msg(
        None,
        &no_board(),
        &WeaponSettingsGuiMsg::Modify,
        terms(Err("nothing".to_owned())),
        50,
        3,
        None,
        1,
    );
    assert!(state.board.is_none());
    assert_eq!(effect, Effect::NoEffect);
}
