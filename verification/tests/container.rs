use shock2vr::container::{
    backpack_cell_at, backpack_footprint_rect, ContainerGui, ContainerGuiMsg, ContainerGuiState,
    Handedness, ItemFacts, PanelBackdrop, BACKPACK_GRID_X, BACKPACK_GRID_Y, BLOCK_TEXTURE,
    SLOT_PITCH_X, SLOT_PITCH_Y,
};
use shock2vr::effect::{Effect, EntityId, MessagePayload};
use shock2vr::layout::Rect;

const CONTAINER: EntityId = EntityId(100);
const ITEM: EntityId = EntityId(101);
const INVENTORY: EntityId = EntityId(102);

/// An ordinary grabbable item (`MOVE`).
fn grabbable() -> ItemFacts {
    ItemFacts { always_collected: false, download_pickup: false, can_grab: true, use_only: false }
}

/// A keycard: collected on touch, held in a grip until release.
fn keycard() -> ItemFacts {
    ItemFacts { always_collected: true, download_pickup: true, can_grab: true, use_only: false }
}

fn handle(gui: &ContainerGui, msg: ContainerGuiMsg, item: ItemFacts) -> Effect {
    gui.handle_msg(&ContainerGuiState {}, &msg, item, Some(INVENTORY), Effect::NoEffect).1
}

#[test]
fn backpack_cell_at_inverts_the_item_layout_formula() {
    let grid = (10usize, 3usize);
    for y in 0..grid.1 {
        for x in 0..grid.0 {
            let drawn = backpack_footprint_rect((x, y), (1, 1));
            assert_eq!(
                backpack_cell_at(drawn.x + 1, drawn.y + 1, grid),
                Some((x, y)),
                "cell ({x},{y})'s own drawn position must resolve back to it"
            );
        }
    }
}

#[test]
fn backpack_cell_at_rejects_off_grid_and_capped_columns() {
    let grid = (10usize, 3usize);
    assert_eq!(backpack_cell_at(BACKPACK_GRID_X - 1, BACKPACK_GRID_Y, grid), None, "left of the grid");
    assert_eq!(backpack_cell_at(BACKPACK_GRID_X, BACKPACK_GRID_Y - 1, grid), None, "above the grid");
    let capped_x = BACKPACK_GRID_X + SLOT_PITCH_X * 10;
    assert_eq!(backpack_cell_at(capped_x, BACKPACK_GRID_Y, grid), None, "capped column");
}

#[test]
fn loot_container_click_takes_the_item_into_the_backpack() {
    let gui = ContainerGui::loot_container();
    let event = gui.click_msg(ITEM);
    assert!(matches!(event, ContainerGuiMsg::Take(e) if e == ITEM), "clicking a loot item should Take it");
    assert_eq!(
        handle(&gui, event, grabbable()),
        Effect::DropEntityInfo { parent_entity_id: INVENTORY, dropped_entity_id: ITEM }
    );
}

#[test]
fn loot_container_click_frobs_a_keycard() {
    let gui = ContainerGui::loot_container();
    assert_eq!(
        handle(&gui, ContainerGuiMsg::Take(ITEM), keycard()),
        Effect::Send { to: ITEM, payload: MessagePayload::Frob },
        "taking a keycard must collect its credential"
    );
}

#[test]
fn vr_panel_grab_holds_keycards_until_release() {
    let gui = ContainerGui::loot_container();
    for (message, hand) in [
        (ContainerGuiMsg::GrabbedWithLeftHand(ITEM), Handedness::Left),
        (ContainerGuiMsg::GrabbedWithRightHand(ITEM), Handedness::Right),
    ] {
        assert_eq!(handle(&gui, message, keycard()), Effect::GrabEntity { entity_id: ITEM, hand });
    }
    let ordinary = EntityId(103);
    assert_eq!(
        handle(&gui, ContainerGuiMsg::GrabbedWithRightHand(ordinary), grabbable()),
        Effect::GrabEntity { entity_id: ordinary, hand: Handedness::Right }
    );
}

#[test]
fn panel_take_collects_and_physical_grip_defers_downloads() {
    let gui = ContainerGui::loot_container();
    let download = ItemFacts { always_collected: true, download_pickup: true, can_grab: true, use_only: false };
    let nanites = ItemFacts { always_collected: true, download_pickup: false, can_grab: true, use_only: false };
    let log = ItemFacts { always_collected: true, download_pickup: false, can_grab: false, use_only: true };
    for pickup in [download, nanites, log] {
        for message in [
            ContainerGuiMsg::Take(ITEM),
            ContainerGuiMsg::GrabbedWithLeftHand(ITEM),
            ContainerGuiMsg::GrabbedWithRightHand(ITEM),
        ] {
            let effect = handle(&gui, message, pickup);
            if !matches!(message, ContainerGuiMsg::Take(_)) && pickup.download_pickup {
                assert!(matches!(effect, Effect::GrabEntity { entity_id, .. } if entity_id == ITEM));
                continue;
            }
            assert_eq!(effect, Effect::Send { to: ITEM, payload: MessagePayload::Frob }, "{message:?} must collect");
        }
    }
}

#[test]
fn item_grids_sit_on_the_authored_backdrop_cells() {
    for (gui, expected_origin) in [(ContainerGui::loot_container(), (24, 34)), (ContainerGui::inv_container(), (4, 17))] {
        let rect = gui.item_rect((0, 0), (1, 1));
        assert_eq!((rect.x, rect.y), expected_origin, "grid origin");
        assert_eq!((rect.w, rect.h), (35, 34), "one cell of the shared pitch");
    }
    assert_eq!((SLOT_PITCH_X, SLOT_PITCH_Y), (35, 34));
}

#[test]
fn backpack_covers_every_unusable_cell_with_shipped_block_art() {
    // Strength 1 leaves ten usable columns of the fifteen the art draws.
    let gui = ContainerGui::inv_container();
    let usable_columns = 10;
    let mut blocks: Vec<Rect> = Vec::new();
    for y in 0..gui.num_slots_y {
        for x in usable_columns..gui.num_slots_x {
            blocks.push(gui.block_rect((x, y)));
        }
    }
    blocks.sort_by_key(|r| (r.y, r.x));
    assert_eq!(blocks.len(), 15, "Strength 1 blocks five columns x three rows");
    assert_eq!(blocks[0], Rect { x: 354, y: 17, w: 34, h: 32 });
    assert_eq!(blocks[14], Rect { x: 494, y: 85, w: 34, h: 32 });
    assert_eq!(BLOCK_TEXTURE, "iface/block.pcx");
}

#[test]
fn loot_container_click_frobs_a_non_grabbable_item() {
    let gui = ContainerGui::loot_container();
    let disc = ItemFacts { always_collected: false, download_pickup: false, can_grab: false, use_only: true };
    assert_eq!(
        handle(&gui, ContainerGuiMsg::Take(ITEM), disc),
        Effect::Send { to: ITEM, payload: MessagePayload::Frob },
        "non-grabbable contained objects should be used in place"
    );
}

#[test]
fn take_refuses_a_non_grabbable_entity() {
    let gui = ContainerGui::loot_container();
    let stuck = ItemFacts { always_collected: false, download_pickup: false, can_grab: false, use_only: false };
    assert_eq!(handle(&gui, ContainerGuiMsg::Take(EntityId(104)), stuck), Effect::NoEffect);
}

#[test]
fn backpack_click_on_a_weapon_wields_it() {
    // Using a carried weapon wields it; the panel hands on what using the
    // item does.
    let gui = ContainerGui::inv_container();
    for weapon in [EntityId(105), EntityId(106)] {
        let wield = Effect::GrabEntity { entity_id: weapon, hand: Handedness::Right };
        let (_, effect) = gui.handle_msg(&ContainerGuiState {}, &ContainerGuiMsg::Frob(weapon), grabbable(), Some(INVENTORY), wield);
        assert!(matches!(effect, Effect::GrabEntity { entity_id, .. } if entity_id == weapon));
    }
}

#[test]
fn backpack_click_frobs_the_item() {
    let gui = ContainerGui::inv_container();
    assert!(matches!(gui.click_msg(ITEM), ContainerGuiMsg::Frob(e) if e == ITEM));
}

#[test]
fn live_creature_rejects_offered_items() {
    assert_eq!(ContainerGui::loot_creature().on_provide_for_consumption(false), Some(Effect::NoEffect));
}

#[test]
fn lootable_and_ordinary_containers_accept_offered_items() {
    assert!(ContainerGui::loot_creature().on_provide_for_consumption(true).is_none());
    assert!(ContainerGui::loot_container().on_provide_for_consumption(false).is_none());
}

#[test]
fn a_creature_opens_only_once_it_is_lootable() {
    assert!(!ContainerGui::loot_creature().opens_on_frob(false));
    assert!(ContainerGui::loot_creature().opens_on_frob(true));
    assert!(ContainerGui::loot_container().opens_on_frob(false));
    let _ = CONTAINER;
}

#[test]
fn each_backdrop_draws_from_its_own_art() {
    assert_eq!(ContainerGui::inv_container().backdrop.texture("hologram.pcx"), "invback.pcx");
    assert_eq!(PanelBackdrop::HologramGrid.texture("hologram.pcx"), "hologram.pcx");
}
