use shock2vr::effect::{Effect, PsiSelectionAxis};
use shock2vr::layout::Rect;
use shock2vr::psi::{
    cell_at, cell_rect, grid_cell, help_key, help_rect, icon_basename, icon_kind, icon_texture, is_tier_marker,
    power_cell_label, power_id_at_cell, power_index, shown_tier, tab_at, tab_rect, tier_strip, tier_strip_art,
    tier_tab_label, stick_nav,
    GlobalPsiStrings, NavStep, PsiPowerEntry, PsiPowersGui, PsiPowersGuiMsg, PsiPowersGuiState, COLUMN_X, ICON_W,
    PANEL_H, PANEL_W, POWERS_PER_TIER, ROWS, ROW_H, ROW_Y, TIERS, TIER_STRIP_HELP_KEY,
};

/// The authored grid region the cells are cut from, in tenths of a pixel.
fn grid() -> Rect {
    Rect { x: 320, y: 320, w: 1420, h: 1250 }
}

#[test]
fn the_layout_fits_inside_the_panel() {
    for rect in [tier_strip(), grid(), help_rect()] {
        assert!(rect.x >= 0 && rect.x + rect.w <= PANEL_W, "{rect:?}");
        assert!(rect.y >= 0 && rect.y + rect.h <= PANEL_H, "{rect:?}");
    }
    assert!(grid().y + grid().h <= help_rect().y, "the help panel clears the grid");
    for column in 0..2usize {
        let last = cell_rect(column, ROWS - 1);
        assert!(last.y + last.h <= grid().y + grid().h, "row {} spills", ROWS - 1);
        assert!(cell_rect(column, 0).x + ICON_W <= grid().x + grid().w, "column {column} spills");
    }
    // The two columns cannot overlap, or one icon would cover the other.
    assert!(COLUMN_X[0] + ICON_W <= COLUMN_X[1]);
}

#[test]
fn a_tab_is_picked_by_where_the_strip_was_clicked() {
    let strip = tier_strip();
    let y = strip.y + 10;
    assert_eq!(tab_at(strip.x, y), Some(1));
    assert_eq!(tab_at(strip.x + strip.w - 5, y), Some(5));
    for tab in 0..TIERS {
        let r = tab_rect(tab);
        assert_eq!(tab_at(r.x + r.w / 2, y), Some(tab + 1), "tab {tab}");
    }
    assert_eq!(tab_at(strip.x - 10, y), None);
    assert_eq!(tab_at(strip.x + 10, strip.y + strip.h), None);
}

#[test]
fn a_cell_is_picked_by_column_half_plane_and_row_pitch() {
    assert_eq!(cell_at(COLUMN_X[0], ROW_Y), Some((0, 0)));
    assert_eq!(cell_at(COLUMN_X[1], ROW_Y), Some((1, 0)));
    for row in 0..ROWS {
        let y = ROW_Y + row as i32 * ROW_H + 10;
        assert_eq!(cell_at(COLUMN_X[1] + 10, y), Some((1, row)), "row {row}");
    }
    // The gutter between the two columns is nobody's cell.
    assert_eq!(cell_at(COLUMN_X[0] + ICON_W, ROW_Y), None);
    assert_eq!(cell_at(COLUMN_X[1] - 5, ROW_Y), None);
    assert_eq!(cell_at(COLUMN_X[0], grid().y), None);
    assert_eq!(cell_at(grid().x - 10, ROW_Y), None);
    assert_eq!(cell_at(COLUMN_X[0], grid().y + grid().h), None);
}

#[test]
fn the_grid_is_the_tiers_id_block() {
    assert_eq!(power_id_at_cell(1, 0, 0), 0);
    assert_eq!(power_id_at_cell(1, 0, 3), 3);
    assert_eq!(power_id_at_cell(1, 1, 0), 4);
    assert_eq!(power_id_at_cell(1, 1, 3), 7);
    assert_eq!(power_id_at_cell(5, 0, 0), 32);
    assert_eq!(power_id_at_cell(5, 1, 3), 39);
    assert!(is_tier_marker(power_id_at_cell(3, 0, 0)));
    for tier in 1..=TIERS {
        for column in 0..2usize {
            for row in 0..ROWS {
                let id = power_id_at_cell(tier, column, row);
                assert!((column, row) == (0, 0) || !is_tier_marker(id), "{id}");
            }
        }
    }
}

#[test]
fn an_icon_basename_prefers_the_strings_table() {
    let mut strings = GlobalPsiStrings::new();
    strings.insert("psiicon6", "picn07");
    assert_eq!(strings.icon_basename(6), "picn07");
    assert_eq!(strings.icon_basename(11), "picn11");
    assert_eq!(GlobalPsiStrings::new().icon_basename(4), "picn04");
    // A blank entry falls back, and a padded one is trimmed.
    assert_eq!(icon_basename(Some("   "), 4), "picn04");
    assert_eq!(icon_basename(Some(" picn21 "), 7), "picn21");
}

fn registry() -> Vec<PsiPowerEntry> {
    let mut powers = Vec::new();
    for tier in 1..=TIERS {
        for slot in 1..POWERS_PER_TIER {
            let power_id = (tier - 1) * POWERS_PER_TIER + slot;
            powers.push(PsiPowerEntry { power_id, template_id: -1000 - power_id, tier });
        }
    }
    powers
}

#[test]
fn each_cell_draws_the_variant_matching_its_state() {
    assert_eq!(icon_kind(false, false), 0);
    assert_eq!(icon_kind(true, false), 1);
    assert_eq!(icon_kind(true, true), 2);
    let registry = registry();
    let known = vec![-1001, -1002];
    // Power 2 (cell (0,2)) is selected, power 1 trained, power 3 not.
    assert_eq!(grid_cell(1, 0, 2, &registry, &known, Some(2)).kind, 2);
    assert_eq!(grid_cell(1, 0, 1, &registry, &known, Some(2)).kind, 1);
    assert_eq!(grid_cell(1, 0, 3, &registry, &known, Some(2)).kind, 0);
    // The tier marker is art: never selectable, lit once the tier has a trained power.
    let marker = grid_cell(1, 0, 0, &registry, &known, Some(2));
    assert!(!marker.selectable);
    assert_eq!(marker.kind, 1);
    assert_eq!(grid_cell(2, 0, 0, &registry, &known, None).kind, 0);
    assert!(grid_cell(1, 1, 3, &registry, &known, None).selectable);
    assert_eq!(icon_texture("picn02", 2), "iface/picn02_2.pcx");
}

#[test]
fn the_help_panel_reads_what_the_cursor_is_over() {
    assert_eq!(help_key(1, COLUMN_X[0] + 10, ROW_Y + ROW_H + 10), Some("psi1".to_owned()));
    assert_eq!(help_key(2, COLUMN_X[0] + 10, ROW_Y + ROW_H + 10), Some("psi9".to_owned()));
    let strip = tier_strip();
    assert_eq!(help_key(1, strip.x + 10, strip.y + 10), Some(TIER_STRIP_HELP_KEY.to_owned()));
    assert_eq!(help_key(1, 20, 2800), None);
}

#[test]
fn clicking_a_tab_browses_and_clicking_a_power_selects() {
    let (_, effect) = PsiPowersGui.handle_msg(&PsiPowersGuiState, &PsiPowersGuiMsg::BrowseTier(3));
    assert!(matches!(effect, Effect::SetPsiBrowsedTier { tier: 3 }));
    let (_, effect) = PsiPowersGui.handle_msg(&PsiPowersGuiState, &PsiPowersGuiMsg::SelectPower(5));
    assert!(matches!(effect, Effect::SelectPsiPower { power_id: 5 }));
}

#[test]
fn a_nav_step_is_a_selection_step_on_the_matching_axis() {
    assert!(matches!(
        NavStep::TierNext.effect(),
        Effect::StepPsiSelection { axis: PsiSelectionAxis::Tier, forward: true }
    ));
    assert!(matches!(
        NavStep::PowerPrev.effect(),
        Effect::StepPsiSelection { axis: PsiSelectionAxis::Power, forward: false }
    ));
}

#[test]
fn labels_and_lookups() {
    assert_eq!(tier_tab_label(3), "psi_tier_3");
    assert_eq!(power_cell_label(25), "psi_power_25");
    assert_eq!(power_index(&vec![1, 2, 9, 2], 2), Some(1));
    assert_eq!(power_index(&vec![1, 2], 8), None);
    assert_eq!(shown_tier(0), 1);
    assert_eq!(shown_tier(9), 5);
    assert_eq!(shown_tier(4), 4);
}

#[test]
fn the_hover_and_the_click_agree_everywhere_on_the_panel() {
    let registry = registry();
    let known = vec![-1001];
    // Sample the whole panel on a 2 px lattice (20 tenths).
    let mut x = 0;
    while x < PANEL_W {
        let mut y = 0;
        while y < PANEL_H {
            let hovered = help_key(1, x, y).map(|key| if key == TIER_STRIP_HELP_KEY { "tab".to_owned() } else { key });
            let clicked = if tab_at(x, y).is_some() {
                Some("tab".to_owned())
            } else {
                cell_at(x, y).map(|(column, row)| grid_cell(1, column, row, &registry, &known, None))
                    .filter(|cell| cell.selectable)
                    .map(|cell| format!("psi{}", cell.power_id))
            };
            if hovered.as_deref() == Some(&format!("psi{}", power_id_at_cell(1, 0, 0))) {
                assert_eq!(clicked, None, "the marker is never clickable");
            } else {
                assert_eq!(hovered, clicked, "at ({x}, {y})");
            }
            y += 20;
        }
        x += 20;
    }
}

#[test]
fn the_tier_marker_cell_is_not_selectable() {
    let registry = registry();
    let known = vec![-1001, -1002];
    assert!(!grid_cell(1, 0, 0, &registry, &known, None).selectable);
    for column in 0..2usize {
        for row in 0..ROWS {
            if (column, row) != (0, 0) {
                let cell = grid_cell(1, column, row, &registry, &known, None);
                assert!(cell.selectable, "power {}", cell.power_id);
            }
        }
    }
    assert_eq!(power_cell_label(0), "psi_power_0");
}

#[test]
fn the_strip_art_and_the_grid_follow_the_browsed_tier() {
    let tier = shown_tier(4);
    assert_eq!(tier_strip_art(tier), "iface/psi4.pcx");
    let mut ids = Vec::new();
    for column in 0..2usize {
        for row in 0..ROWS {
            ids.push(power_id_at_cell(tier, column, row));
        }
    }
    assert!(ids.contains(&25), "{ids:?}");
    assert!(!ids.contains(&1));
}

/// Full deflection is a million.
const FULL: i32 = 1_000_000;

#[test]
fn stick_navigation_is_edge_triggered_with_hysteresis() {
    let (step, latched) = stick_nav(0, FULL, false);
    assert_eq!(step, Some(NavStep::TierNext));
    assert!(latched);
    // Held: nothing more happens, and the latch survives.
    assert_eq!(stick_nav(0, FULL, true), (None, true));
    // Released past the hysteresis gap: unlatched, still no step.
    assert_eq!(stick_nav(0, 400_000, true), (None, true));
    assert_eq!(stick_nav(0, 0, true), (None, false));
    // ...and only then does the next flick register.
    assert_eq!(stick_nav(0, -FULL, false).0, Some(NavStep::TierPrev));
}

#[test]
fn the_dominant_stick_axis_decides_the_step() {
    assert_eq!(stick_nav(FULL, 0, false).0, Some(NavStep::PowerNext));
    assert_eq!(stick_nav(-FULL, 0, false).0, Some(NavStep::PowerPrev));
    // A diagonal is one step, never two: the larger component wins.
    assert_eq!(stick_nav(900_000, 600_000, false).0, Some(NavStep::PowerNext));
    assert_eq!(stick_nav(600_000, 900_000, false).0, Some(NavStep::TierNext));
    // Below the engage threshold nothing happens at all.
    assert_eq!(stick_nav(400_000, 400_000, false), (None, false));
}
