//! Item panels: the loot panel of a container or corpse (a 4x4 grid on a
//! bare hologram) and the player's backpack strip (a 15x3 grid on its art).
//! Items sit on a grid of 35x34 px cells; the pixel an item is drawn at and
//! the cell a pointer resolves to come from one formula.
use vstd::prelude::*;

use crate::effect::{Effect, EntityId, MessagePayload};
use crate::layout::{spec_contains, Rect};

verus! {

/// The cell pitch of both grids, in panel pixels.
pub const SLOT_PITCH_X: i32 = 35;
pub const SLOT_PITCH_Y: i32 = 34;

/// The backpack grid's top-left, in `invback.pcx` pixels.
pub const BACKPACK_GRID_X: i32 = 4;
pub const BACKPACK_GRID_Y: i32 = 17;

/// The loot panel keeps the flat MFD slot's 188 px width.
pub const LOOT_PANEL_WIDTH: i32 = 188;

/// Cells of the loot grid.
pub const LOOT_SLOTS_X: usize = 4;
pub const LOOT_SLOTS_Y: usize = 4;

/// Room below the loot grid.
pub const LOOT_GRID_MARGIN: i32 = 8;

/// Room above the loot grid, clear of the host's close button.
pub const LOOT_GRID_TOP_MARGIN: i32 = 34;

/// The loot grid's left edge: centred in the panel width.
pub const LOOT_GRID_X: i32 = 24;

/// The cell-interior art drawn over a blocked backpack cell, and its size.
pub const BLOCK_TEXTURE: &'static str = "iface/block.pcx";
pub const BLOCK_W: i32 = 34;
pub const BLOCK_H: i32 = 32;

/// The rect an item of `dimensions` cells at `cell` covers in the backpack.
pub open spec fn spec_backpack_footprint(cell: (int, int), dimensions: (int, int)) -> Rect {
    Rect {
        x: (BACKPACK_GRID_X + SLOT_PITCH_X * cell.0) as i32,
        y: (BACKPACK_GRID_Y + SLOT_PITCH_Y * cell.1) as i32,
        w: (SLOT_PITCH_X * dimensions.0) as i32,
        h: (SLOT_PITCH_Y * dimensions.1) as i32,
    }
}

/// The backpack rect of an item of `dimensions` cells at `cell`.
pub fn backpack_footprint_rect(cell: (usize, usize), dimensions: (usize, usize)) -> (r: Rect)
    requires
        cell.0 < 1000,
        cell.1 < 1000,
        dimensions.0 < 1000,
        dimensions.1 < 1000,
    ensures
        r == spec_backpack_footprint((cell.0 as int, cell.1 as int), (dimensions.0 as int, dimensions.1 as int)),
{
    Rect {
        x: BACKPACK_GRID_X + SLOT_PITCH_X * cell.0 as i32,
        y: BACKPACK_GRID_Y + SLOT_PITCH_Y * cell.1 as i32,
        w: SLOT_PITCH_X * dimensions.0 as i32,
        h: SLOT_PITCH_Y * dimensions.1 as i32,
    }
}

/// The backpack cell under a panel pixel, within the usable `grid` (columns
/// and rows); none off the grid, including a capped column.
pub open spec fn spec_backpack_cell_at(px: int, py: int, grid: (int, int)) -> Option<(int, int)> {
    let lx = px - BACKPACK_GRID_X;
    let ly = py - BACKPACK_GRID_Y;
    if lx < 0 || ly < 0 {
        None
    } else {
        let x = lx / (SLOT_PITCH_X as int);
        let y = ly / (SLOT_PITCH_Y as int);
        if x < grid.0 && y < grid.1 {
            Some((x, y))
        } else {
            None
        }
    }
}

/// The backpack cell under a panel pixel; see [`spec_backpack_cell_at`].
pub fn backpack_cell_at(px: i32, py: i32, grid: (usize, usize)) -> (r: Option<(usize, usize)>)
    ensures
        match spec_backpack_cell_at(px as int, py as int, (grid.0 as int, grid.1 as int)) {
            Some((x, y)) => r == Some((x as usize, y as usize)),
            None => r is None,
        },
{
    if px < BACKPACK_GRID_X || py < BACKPACK_GRID_Y {
        return None;
    }
    let x = ((px - BACKPACK_GRID_X) / SLOT_PITCH_X) as usize;
    let y = ((py - BACKPACK_GRID_Y) / SLOT_PITCH_Y) as usize;
    if x < grid.0 && y < grid.1 {
        Some((x, y))
    } else {
        None
    }
}

/// A pointer and an item's own drawn position never resolve to different
/// cells: every pixel of a usable cell's footprint resolves to that cell.
pub proof fn law_cell_at_inverts_the_item_layout(cell: (int, int), grid: (int, int), px: int, py: int)
    requires
        0 <= cell.0 < grid.0,
        0 <= cell.1 < grid.1,
        cell.0 < 1000,
        cell.1 < 1000,
        spec_contains(spec_backpack_footprint(cell, (1, 1)), px, py),
    ensures
        spec_backpack_cell_at(px, py, grid) == Some(cell),
{
    let lx = px - BACKPACK_GRID_X;
    let ly = py - BACKPACK_GRID_Y;
    assert(lx / (SLOT_PITCH_X as int) == cell.0) by (nonlinear_arith)
        requires
            SLOT_PITCH_X * cell.0 <= lx < SLOT_PITCH_X * cell.0 + SLOT_PITCH_X,
            SLOT_PITCH_X == 35,
    ;
    assert(ly / (SLOT_PITCH_Y as int) == cell.1) by (nonlinear_arith)
        requires
            SLOT_PITCH_Y * cell.1 <= ly < SLOT_PITCH_Y * cell.1 + SLOT_PITCH_Y,
            SLOT_PITCH_Y == 34,
    ;
}

/// What a panel draws behind its item cells.
#[derive(Clone, Debug)]
pub enum PanelBackdrop {
    /// The panel's own art, filling the panel.
    Art(String),
    /// A bare hologram grid over the item cells and nothing else.
    HologramGrid,
}

impl PanelBackdrop {
    /// The bitmap this backdrop draws from; `hologram_tile` is the hologram
    /// grid's tile texture.
    pub fn texture<'a>(&'a self, hologram_tile: &'a str) -> (r: &'a str)
        ensures
            r@ == match self {
                PanelBackdrop::Art(t) => t@,
                PanelBackdrop::HologramGrid => hologram_tile@,
            },
    {
        match self {
            PanelBackdrop::Art(t) => t.as_str(),
            PanelBackdrop::HologramGrid => hologram_tile,
        }
    }
}

/// An item panel: its backdrop, its size, its grid, and what a click does.
pub struct ContainerGui {
    pub backdrop: PanelBackdrop,
    pub width: i32,
    pub height: i32,
    pub inv_offset_x: i32,
    pub inv_offset_y: i32,
    pub num_slots_x: usize,
    pub num_slots_y: usize,
    /// Loot: a click takes the item into the backpack (the backpack itself
    /// uses the item instead).
    pub take_on_click: bool,
    /// A creature's inventory opens only once it is lootable.
    pub require_lootable_creature: bool,
}

/// The state an item panel keeps: none.
#[derive(Clone, Copy, Debug, Default)]
pub struct ContainerGuiState {}

/// Which hand grabbed something.
#[derive(Clone, Copy, Debug, PartialEq, Eq, Structural)]
pub enum Handedness {
    Left,
    Right,
}

/// Input to an item panel.
#[derive(Clone, Copy, Debug)]
pub enum ContainerGuiMsg {
    GrabbedWithLeftHand(EntityId),
    GrabbedWithRightHand(EntityId),
    Frob(EntityId),
    /// Take the item into the player's backpack.
    Take(EntityId),
}

/// What the mission knows about an item a panel message names.
#[derive(Clone, Copy, Debug)]
pub struct ItemFacts {
    /// Nanites, keycards, modules and logs: always collected on touch.
    pub always_collected: bool,
    /// A pickup a grip holds until release (a download).
    pub download_pickup: bool,
    /// Whether the hand can grab it at all.
    pub can_grab: bool,
    /// A use-only object (its frob runs a script).
    pub use_only: bool,
}

/// What a panel message does; see [`ContainerGui::handle_msg`].
pub open spec fn spec_panel_effect(msg: ContainerGuiMsg, item: ItemFacts, backpack: Option<EntityId>, use_carried: Effect) -> Effect {
    match msg {
        ContainerGuiMsg::GrabbedWithLeftHand(ent) => grab_outcome(ent, item, Handedness::Left),
        ContainerGuiMsg::GrabbedWithRightHand(ent) => grab_outcome(ent, item, Handedness::Right),
        ContainerGuiMsg::Frob(_) => use_carried,
        ContainerGuiMsg::Take(ent) => if item.always_collected {
            Effect::Send { to: ent, payload: MessagePayload::Frob }
        } else if !item.can_grab {
            if item.use_only {
                Effect::Send { to: ent, payload: MessagePayload::Frob }
            } else {
                Effect::NoEffect
            }
        } else {
            match backpack {
                Some(b) => Effect::DropEntityInfo { parent_entity_id: b, dropped_entity_id: ent },
                None => Effect::NoEffect,
            }
        },
    }
}

/// A grip on a panel item: an always-collected pickup is collected at once
/// (a download waits for release), anything else goes into the hand.
pub open spec fn grab_outcome(entity_id: EntityId, item: ItemFacts, hand: Handedness) -> Effect {
    if item.always_collected && !item.download_pickup {
        Effect::Send { to: entity_id, payload: MessagePayload::Frob }
    } else {
        Effect::GrabEntity { entity_id, hand }
    }
}

impl ContainerGui {
    /// The loot panel of a container or corpse.
    pub fn loot_container() -> (r: ContainerGui)
        ensures
            r.backdrop is HologramGrid,
            r.width == LOOT_PANEL_WIDTH,
            r.height == LOOT_GRID_TOP_MARGIN + SLOT_PITCH_Y * LOOT_SLOTS_Y + LOOT_GRID_MARGIN,
            r.inv_offset_x == LOOT_GRID_X && r.inv_offset_y == LOOT_GRID_TOP_MARGIN,
            r.num_slots_x == LOOT_SLOTS_X && r.num_slots_y == LOOT_SLOTS_Y,
            r.take_on_click && !r.require_lootable_creature,
    {
        ContainerGui {
            backdrop: PanelBackdrop::HologramGrid,
            width: LOOT_PANEL_WIDTH,
            height: LOOT_GRID_TOP_MARGIN + SLOT_PITCH_Y * 4 + LOOT_GRID_MARGIN,
            inv_offset_x: LOOT_GRID_X,
            inv_offset_y: LOOT_GRID_TOP_MARGIN,
            num_slots_x: LOOT_SLOTS_X,
            num_slots_y: LOOT_SLOTS_Y,
            take_on_click: true,
            require_lootable_creature: false,
        }
    }

    /// The loot panel of a creature's inventory: the loot layout, gated on
    /// the creature being lootable.
    pub fn loot_creature() -> (r: ContainerGui)
        ensures
            r.backdrop is HologramGrid,
            r.width == LOOT_PANEL_WIDTH,
            r.height == LOOT_GRID_TOP_MARGIN + SLOT_PITCH_Y * LOOT_SLOTS_Y + LOOT_GRID_MARGIN,
            r.inv_offset_x == LOOT_GRID_X && r.inv_offset_y == LOOT_GRID_TOP_MARGIN,
            r.num_slots_x == LOOT_SLOTS_X && r.num_slots_y == LOOT_SLOTS_Y,
            r.take_on_click && r.require_lootable_creature,
    {
        ContainerGui { require_lootable_creature: true, ..ContainerGui::loot_container() }
    }

    /// The player's backpack strip.
    pub fn inv_container() -> (r: ContainerGui)
        ensures
            r.backdrop matches PanelBackdrop::Art(t) && t@ == "invback.pcx"@,
            r.width == 635 && r.height == 120,
            r.inv_offset_x == BACKPACK_GRID_X && r.inv_offset_y == BACKPACK_GRID_Y,
            r.num_slots_x == 15 && r.num_slots_y == 3,
            !r.take_on_click && !r.require_lootable_creature,
    {
        ContainerGui {
            backdrop: PanelBackdrop::Art(String::from_str("invback.pcx")),
            width: 635,
            height: 120,
            inv_offset_x: BACKPACK_GRID_X,
            inv_offset_y: BACKPACK_GRID_Y,
            num_slots_x: 15,
            num_slots_y: 3,
            take_on_click: false,
            require_lootable_creature: false,
        }
    }

    /// Whether frobbing opens the panel: always, but a creature's only once
    /// it is lootable (a corpse, or an invulnerable posed NPC).
    pub fn opens_on_frob(&self, creature_lootable: bool) -> (r: bool)
        ensures
            r == (!self.require_lootable_creature || creature_lootable),
    {
        !self.require_lootable_creature || creature_lootable
    }

    /// An item offered to a sealed creature is claimed without a transfer
    /// (`Some(NoEffect)`), so it drops in the world; elsewhere the shared
    /// transfer applies (`None`).
    pub fn on_provide_for_consumption(&self, creature_lootable: bool) -> (r: Option<Effect>)
        ensures
            (self.require_lootable_creature && !creature_lootable) ==> r == Some(Effect::NoEffect),
            !(self.require_lootable_creature && !creature_lootable) ==> r is None,
    {
        if self.require_lootable_creature && !creature_lootable {
            Some(Effect::NoEffect)
        } else {
            None
        }
    }

    /// The message a click on an item sends: take it (loot), or use it
    /// (backpack).
    pub fn click_msg(&self, item: EntityId) -> (r: ContainerGuiMsg)
        ensures
            self.take_on_click ==> r == ContainerGuiMsg::Take(item),
            !self.take_on_click ==> r == ContainerGuiMsg::Frob(item),
    {
        if self.take_on_click {
            ContainerGuiMsg::Take(item)
        } else {
            ContainerGuiMsg::Frob(item)
        }
    }

    /// Where an item of `dimensions` cells at `cell` is drawn on this panel.
    pub fn item_rect(&self, cell: (usize, usize), dimensions: (usize, usize)) -> (r: Rect)
        requires
            cell.0 < 1000,
            cell.1 < 1000,
            dimensions.0 < 1000,
            dimensions.1 < 1000,
            -1_000_000 <= self.inv_offset_x <= 1_000_000,
            -1_000_000 <= self.inv_offset_y <= 1_000_000,
        ensures
            r == (Rect {
                x: (self.inv_offset_x + SLOT_PITCH_X * cell.0) as i32,
                y: (self.inv_offset_y + SLOT_PITCH_Y * cell.1) as i32,
                w: (SLOT_PITCH_X * dimensions.0) as i32,
                h: (SLOT_PITCH_Y * dimensions.1) as i32,
            }),
    {
        Rect {
            x: self.inv_offset_x + SLOT_PITCH_X * cell.0 as i32,
            y: self.inv_offset_y + SLOT_PITCH_Y * cell.1 as i32,
            w: SLOT_PITCH_X * dimensions.0 as i32,
            h: SLOT_PITCH_Y * dimensions.1 as i32,
        }
    }

    /// Where the block art over a capped backpack cell is drawn: the cell's
    /// 34x32 interior at the cell's corner.
    pub fn block_rect(&self, cell: (usize, usize)) -> (r: Rect)
        requires
            cell.0 < 1000,
            cell.1 < 1000,
            -1_000_000 <= self.inv_offset_x <= 1_000_000,
            -1_000_000 <= self.inv_offset_y <= 1_000_000,
        ensures
            r == (Rect {
                x: (self.inv_offset_x + SLOT_PITCH_X * cell.0) as i32,
                y: (self.inv_offset_y + SLOT_PITCH_Y * cell.1) as i32,
                w: BLOCK_W,
                h: BLOCK_H,
            }),
    {
        Rect {
            x: self.inv_offset_x + SLOT_PITCH_X * cell.0 as i32,
            y: self.inv_offset_y + SLOT_PITCH_Y * cell.1 as i32,
            w: BLOCK_W,
            h: BLOCK_H,
        }
    }

    /// What a panel message does. A grab collects an always-collected item
    /// at once (unless it is a download a grip holds), and otherwise puts it
    /// in the hand. A use click does what using the carried item does
    /// (`use_carried`). A take collects an always-collected item; an item the
    /// hand cannot grab is frobbed in place when it is use-only and left
    /// alone otherwise; anything else moves into the player's `backpack`
    /// (when there is one).
    pub fn handle_msg(
        &self,
        state: &ContainerGuiState,
        msg: &ContainerGuiMsg,
        item: ItemFacts,
        backpack: Option<EntityId>,
        use_carried: Effect,
    ) -> (r: (ContainerGuiState, Effect))
        ensures
            r.1 == spec_panel_effect(*msg, item, backpack, use_carried),
    {
        let effect = match msg {
            ContainerGuiMsg::GrabbedWithLeftHand(ent) => grab_effect(*ent, item, Handedness::Left),
            ContainerGuiMsg::GrabbedWithRightHand(ent) => grab_effect(*ent, item, Handedness::Right),
            ContainerGuiMsg::Frob(_) => use_carried,
            ContainerGuiMsg::Take(ent) => {
                if item.always_collected {
                    Effect::Send { to: *ent, payload: MessagePayload::Frob }
                } else if !item.can_grab {
                    if item.use_only {
                        Effect::Send { to: *ent, payload: MessagePayload::Frob }
                    } else {
                        Effect::NoEffect
                    }
                } else {
                    match backpack {
                        Some(b) => Effect::DropEntityInfo { parent_entity_id: b, dropped_entity_id: *ent },
                        None => Effect::NoEffect,
                    }
                }
            },
        };
        (ContainerGuiState {}, effect)
    }
}

/// A grip on a panel item: an always-collected pickup is collected at once
/// (a download waits for release), anything else goes into the hand.
pub fn grab_effect(entity_id: EntityId, item: ItemFacts, hand: Handedness) -> (e: Effect)
    ensures
        e == grab_outcome(entity_id, item, hand),
{
    if item.always_collected && !item.download_pickup {
        Effect::Send { to: entity_id, payload: MessagePayload::Frob }
    } else {
        Effect::GrabEntity { entity_id, hand }
    }
}

} // verus!
