//! The psi power selection panel: a five-tab tier strip over a 2x4 grid of
//! discipline icons, with a help panel underneath. Power ids come in blocks
//! of eight per tier: `(tier - 1) * 8` is the tier's capacity marker (drawn,
//! never selectable) and the next seven are its disciplines, so the grid is
//! the tier's id block, cell by cell.
//!
//! Placement is decided once, in panel coordinates measured in tenths of a
//! pixel (every authored edge is a multiple of a tenth): the rect a button is
//! drawn at is the rect that hit-tests it, so hover and click agree.
use vstd::prelude::*;
use vstd::hash_map::StringHashMap;

use crate::effect::{Effect, PsiSelectionAxis};
use crate::layout::{spec_contains, Rect};
use crate::text::{decimal, push_decimal, trim_copy, trimmed};

verus! {

/// The panel (`PSI.PCX`'s own size), in tenths of a pixel.
pub const PANEL_W: i32 = 1880;
pub const PANEL_H: i32 = 2960;

/// How many discipline tiers the panel pages through.
pub const TIERS: i32 = 5;

/// Power ids per tier: the marker and seven disciplines.
pub const POWERS_PER_TIER: i32 = 8;

/// The clickable row of tabs inside the tier strip art.
pub const TIER_STRIP_X: i32 = 320;
pub const TIER_STRIP_Y: i32 = 100;
pub const TIER_STRIP_W: i32 = 1420;
pub const TIER_STRIP_H: i32 = 180;

/// The tier strip's rect.
pub open spec fn spec_tier_strip() -> Rect {
    Rect { x: TIER_STRIP_X, y: TIER_STRIP_Y, w: TIER_STRIP_W, h: TIER_STRIP_H }
}

/// The clickable row of tabs.
pub fn tier_strip() -> (r: Rect)
    ensures
        r == spec_tier_strip(),
{
    Rect { x: TIER_STRIP_X, y: TIER_STRIP_Y, w: TIER_STRIP_W, h: TIER_STRIP_H }
}

/// One tab's width: a fifth of the strip.
pub const TAB_W: i32 = 284;

/// The left edge of each grid column.
pub const COLUMN_X: [i32; 2] = [360, 1050];

/// The first row's top edge and the row pitch.
pub const ROW_Y: i32 = 340;
pub const ROW_H: i32 = 300;

/// Grid rows.
pub const ROWS: usize = 4;

/// An icon's authored size.
pub const ICON_W: i32 = 660;
pub const ICON_H: i32 = 300;

/// The help text panel under the grid.
pub fn help_rect() -> (r: Rect)
    ensures
        r == (Rect { x: 150, y: 1620, w: 1590, h: 1020 }),
{
    Rect { x: 150, y: 1620, w: 1590, h: 1020 }
}

/// The help-table key of the tier strip's one line.
pub const TIER_STRIP_HELP_KEY: &'static str = "buytext0";

/// The rect of tab `tab` (0-based): a fifth of the strip.
pub open spec fn spec_tab_rect(tab: int) -> Rect {
    Rect { x: (TIER_STRIP_X + tab * TAB_W) as i32, y: TIER_STRIP_Y, w: TAB_W, h: TIER_STRIP_H }
}

/// A tab's rect; hit-testing inverts it and the tab's button is drawn at it.
pub fn tab_rect(tab: i32) -> (r: Rect)
    requires
        0 <= tab < TIERS,
    ensures
        r == spec_tab_rect(tab as int),
{
    Rect { x: TIER_STRIP_X + tab * TAB_W, y: TIER_STRIP_Y, w: TAB_W, h: TIER_STRIP_H }
}

/// The tier (1..5) whose tab is under a point, if any.
pub open spec fn spec_tab_at(px: int, py: int) -> Option<i32> {
    if !spec_contains(spec_tier_strip(), px, py) {
        None
    } else {
        Some(((px - TIER_STRIP_X) / (TAB_W as int) + 1) as i32)
    }
}

/// The tier strip tab under a point, if any.
pub fn tab_at(px: i32, py: i32) -> (r: Option<i32>)
    ensures
        r == spec_tab_at(px as int, py as int),
{
    let strip = tier_strip();
    if !strip.contains_half_open(px, py) {
        return None;
    }
    Some((px - TIER_STRIP_X) / TAB_W + 1)
}

/// Where a cell's icon is drawn.
pub open spec fn spec_cell_rect(column: int, row: int) -> Rect {
    Rect {
        x: if column == 0 {
            COLUMN_X[0]
        } else {
            COLUMN_X[1]
        },
        y: (ROW_Y + row * ROW_H) as i32,
        w: ICON_W,
        h: ICON_H,
    }
}

/// The rect a grid cell's icon and button are drawn at.
pub fn cell_rect(column: usize, row: usize) -> (r: Rect)
    requires
        column < 2,
        row < ROWS,
    ensures
        r == spec_cell_rect(column as int, row as int),
{
    Rect { x: COLUMN_X[column], y: ROW_Y + row as i32 * ROW_H, w: ICON_W, h: ICON_H }
}

/// The grid cell (column, row) under a point: the column by the half-plane at
/// column 1's edge, the row by the pitch, confirmed against the cell's own
/// rect so that the gutter beside an icon is nobody's cell.
pub open spec fn spec_cell_at(px: int, py: int) -> Option<(usize, usize)> {
    let column: int = if px >= COLUMN_X[1] {
        1
    } else {
        0
    };
    if py < ROW_Y {
        None
    } else {
        let row = (py - ROW_Y) / (ROW_H as int);
        if row >= ROWS {
            None
        } else if spec_contains(spec_cell_rect(column, row), px, py) {
            Some((column as usize, row as usize))
        } else {
            None
        }
    }
}

/// The grid cell under a point, if any; see [`spec_cell_at`].
pub fn cell_at(px: i32, py: i32) -> (r: Option<(usize, usize)>)
    ensures
        r == spec_cell_at(px as int, py as int),
{
    let column: usize = if px >= COLUMN_X[1] {
        1
    } else {
        0
    };
    if py < ROW_Y {
        return None;
    }
    let row = ((py - ROW_Y) / ROW_H) as usize;
    if row >= ROWS {
        return None;
    }
    let rect = cell_rect(column, row);
    if rect.contains_half_open(px, py) {
        Some((column, row))
    } else {
        None
    }
}

/// One hit test, not two: a point is on a cell exactly when it lies in the
/// rect that cell's button is drawn at, and on a tab exactly when it lies in
/// that tab's rect.
pub proof fn law_hover_and_click_agree(px: int, py: int)
    ensures
        forall|column: int, row: int|
            0 <= column < 2 && 0 <= row < ROWS ==> (spec_cell_at(px, py) == Some((column as usize, row as usize))
                <==> spec_contains(#[trigger] spec_cell_rect(column, row), px, py)),
        forall|tab: int|
            0 <= tab < TIERS ==> (spec_tab_at(px, py) == Some((tab + 1) as i32) <==> spec_contains(
                #[trigger] spec_tab_rect(tab),
                px,
                py,
            )),
{
    assert forall|column: int, row: int|
        0 <= column < 2 && 0 <= row < ROWS implies (spec_cell_at(px, py) == Some((column as usize, row as usize))
        <==> spec_contains(#[trigger] spec_cell_rect(column, row), px, py)) by {
        if spec_contains(spec_cell_rect(column, row), px, py) {
            assert((py - ROW_Y) / (ROW_H as int) == row) by (nonlinear_arith)
                requires
                    ROW_Y + row * ROW_H <= py < ROW_Y + row * ROW_H + ROW_H,
                    ROW_H == 300,
            ;
        }
    }
    assert forall|tab: int|
        0 <= tab < TIERS implies (spec_tab_at(px, py) == Some((tab + 1) as i32) <==> spec_contains(
        #[trigger] spec_tab_rect(tab),
        px,
        py,
    )) by {
        if spec_contains(spec_tier_strip(), px, py) {
            let q = (px - TIER_STRIP_X) / (TAB_W as int);
            assert(q * TAB_W <= px - TIER_STRIP_X < q * TAB_W + TAB_W) by (nonlinear_arith)
                requires
                    q == (px - TIER_STRIP_X) / (TAB_W as int),
                    TAB_W == 284,
            ;
            if q == tab {
            } else if q < tab {
                assert(q * TAB_W + TAB_W <= tab * TAB_W) by (nonlinear_arith)
                    requires
                        q < tab,
                        TAB_W == 284,
                ;
            } else {
                assert(tab * TAB_W + TAB_W <= q * TAB_W) by (nonlinear_arith)
                    requires
                        tab < q,
                        TAB_W == 284,
                ;
            }
        }
    }
}

/// The power id a cell of `tier` shows, reading the left column top to
/// bottom and then the right: cell (0, 0) is the tier's capacity marker.
pub open spec fn spec_power_id_at_cell(tier: int, column: int, row: int) -> int {
    (tier - 1) * POWERS_PER_TIER + column * ROWS + row
}

/// The power id a grid cell of `tier` shows.
pub fn power_id_at_cell(tier: i32, column: usize, row: usize) -> (r: i32)
    requires
        -0x0fff_ffff <= tier <= 0x0fff_ffff,
        column < 2,
        row < ROWS,
    ensures
        r == spec_power_id_at_cell(tier as int, column as int, row as int),
{
    (tier - 1) * POWERS_PER_TIER + (column * ROWS + row) as i32
}

/// Whether a power id is a tier's capacity marker: drawn, never selectable.
pub open spec fn spec_is_tier_marker(power_id: int) -> bool {
    power_id % (POWERS_PER_TIER as int) == 0
}

/// Whether a power id is a tier's capacity marker.
pub fn is_tier_marker(power_id: i32) -> (r: bool)
    ensures
        r == spec_is_tier_marker(power_id as int),
{
    let shifted: i64 = power_id as i64 + 0x1_0000_0000i64;
    assert(shifted % 8 == (power_id as int) % 8) by (nonlinear_arith)
        requires
            shifted == power_id + 0x1_0000_0000,
    ;
    shifted % 8 == 0
}

/// The icon variant a cell draws: 2 selected, 1 trained, 0 otherwise.
pub open spec fn spec_icon_kind(trained: bool, selected: bool) -> u8 {
    if selected {
        2
    } else if trained {
        1
    } else {
        0
    }
}

/// The icon variant of a cell.
pub fn icon_kind(trained: bool, selected: bool) -> (r: u8)
    ensures
        r == spec_icon_kind(trained, selected),
{
    if selected {
        2
    } else if trained {
        1
    } else {
        0
    }
}

/// The automation label of a tier tab: `psi_tier_<n>`.
pub fn tier_tab_label(tier: i32) -> (r: String)
    ensures
        r@ == "psi_tier_"@ + decimal(tier as int),
{
    let mut label = String::from_str("psi_tier_");
    push_decimal(&mut label, tier as i64);
    label
}

/// The automation label of a power cell: `psi_power_<id>`.
pub fn power_cell_label(power_id: i32) -> (r: String)
    ensures
        r@ == "psi_power_"@ + decimal(power_id as int),
{
    let mut label = String::from_str("psi_power_");
    push_decimal(&mut label, power_id as i64);
    label
}

/// The help-table key naming a power's icon: `psiicon<id>`.
pub fn icon_key(power_id: i32) -> (r: String)
    ensures
        r@ == "psiicon"@ + decimal(power_id as int),
{
    let mut key = String::from_str("psiicon");
    push_decimal(&mut key, power_id as i64);
    key
}

/// A power's icon basename: the help table's `psiicon<id>` entry, trimmed,
/// when it has a non-blank one, else the positional guess `picn<NN>`.
pub open spec fn spec_icon_basename(entry: Option<Seq<char>>, power_id: int) -> Seq<char> {
    match entry {
        Some(e) if trimmed(e).len() > 0 => trimmed(e),
        _ => if 0 <= power_id < 10 {
            "picn0"@ + decimal(power_id)
        } else {
            "picn"@ + decimal(power_id)
        },
    }
}

/// A power's icon basename; `entry` is the help table's `psiicon<id>` entry
/// (see [`icon_key`]), if it has one.
pub fn icon_basename(entry: Option<&str>, power_id: i32) -> (r: String)
    ensures
        r@ == spec_icon_basename(
            match entry {
                Some(e) => Some(e@),
                None => None,
            },
            power_id as int,
        ),
{
    if let Some(e) = entry {
        let name = trim_copy(e);
        if name.unicode_len() > 0 {
            return name;
        }
    }
    let mut name = if 0 <= power_id && power_id < 10 {
        String::from_str("picn0")
    } else {
        String::from_str("picn")
    };
    push_decimal(&mut name, power_id as i64);
    name
}

/// The texture of a power's icon variant: `iface/<basename>_<kind>.pcx`.
pub fn icon_texture(basename: &str, kind: u8) -> (r: String)
    ensures
        r@ == "iface/"@ + basename@ + "_"@ + decimal(kind as int) + ".pcx"@,
{
    let mut path = String::from_str("iface/");
    path.append(basename);
    path.append("_");
    push_decimal(&mut path, kind as i64);
    path.append(".pcx");
    path
}

/// The tier strip art of a browsed tier: `iface/psi<tier>.pcx`.
pub fn tier_strip_art(tier: i32) -> (r: String)
    ensures
        r@ == "iface/psi"@ + decimal(tier as int) + ".pcx"@,
{
    let mut path = String::from_str("iface/psi");
    push_decimal(&mut path, tier as i64);
    path.append(".pcx");
    path
}

/// The tier the panel shows for the browsed tier: clamped to 1..5.
pub open spec fn spec_shown_tier(browsed: i32) -> i32 {
    if browsed < 1 {
        1
    } else if browsed > TIERS {
        TIERS
    } else {
        browsed
    }
}

/// The tier the panel shows.
pub fn shown_tier(browsed: i32) -> (r: i32)
    ensures
        r == spec_shown_tier(browsed),
        1 <= r <= TIERS,
{
    if browsed < 1 {
        1
    } else if browsed > TIERS {
        TIERS
    } else {
        browsed
    }
}

/// The registry index of a power id: the first entry whose power id it is.
/// Tier markers have none.
pub fn power_index(power_ids: &Vec<i32>, power_id: i32) -> (r: Option<usize>)
    ensures
        match r {
            Some(i) => i < power_ids@.len() && power_ids@[i as int] == power_id && forall|k: int|
                0 <= k < i ==> power_ids@[k] != power_id,
            None => !power_ids@.contains(power_id),
        },
{
    let mut i: usize = 0;
    while i < power_ids.len()
        invariant
            i <= power_ids@.len(),
            forall|k: int| 0 <= k < i ==> power_ids@[k] != power_id,
        decreases power_ids@.len() - i,
    {
        if power_ids[i] == power_id {
            return Some(i);
        }
        i += 1;
    }
    None
}

/// A registry entry of a psi power: its id, its template and its tier.
#[derive(Clone, Copy, Debug, PartialEq, Eq, Structural)]
pub struct PsiPowerEntry {
    pub power_id: i32,
    pub template_id: i32,
    pub tier: i32,
}

/// What a grid cell shows: the power id, the icon variant, and whether it is
/// a button (only a real power is).
#[derive(Clone, Copy, Debug, PartialEq, Eq, Structural)]
pub struct GridCell {
    pub power_id: i32,
    pub kind: u8,
    pub selectable: bool,
}

/// The index of the first registry entry with `power_id`, if any.
pub open spec fn first_entry(registry: Seq<PsiPowerEntry>, power_id: i32) -> Option<int> {
    if exists|i: int| 0 <= i < registry.len() && registry[i].power_id == power_id {
        Some(
            choose|i: int|
                0 <= i < registry.len() && registry[i].power_id == power_id && forall|k: int|
                    0 <= k < i ==> registry[k].power_id != power_id,
        )
    } else {
        None
    }
}

/// Whether a cell counts as trained: a real power when its template is
/// known; the tier's marker once anything in the tier is.
pub open spec fn spec_cell_trained(
    tier: i32,
    power_id: i32,
    registry: Seq<PsiPowerEntry>,
    known: Seq<i32>,
) -> bool {
    if spec_is_tier_marker(power_id as int) {
        exists|i: int| 0 <= i < registry.len() && registry[i].tier == tier && known.contains(registry[i].template_id)
    } else {
        match first_entry(registry, power_id) {
            Some(i) => known.contains(registry[i].template_id),
            None => false,
        }
    }
}

/// What a grid cell of `tier` shows, given the power registry, the known
/// power templates and the selected power id.
pub open spec fn spec_grid_cell(
    tier: i32,
    column: int,
    row: int,
    registry: Seq<PsiPowerEntry>,
    known: Seq<i32>,
    selected: Option<i32>,
) -> GridCell {
    let power_id = spec_power_id_at_cell(tier as int, column, row) as i32;
    GridCell {
        power_id,
        kind: spec_icon_kind(spec_cell_trained(tier, power_id, registry, known), selected == Some(power_id)),
        selectable: !spec_is_tier_marker(power_id as int) && first_entry(registry, power_id) is Some,
    }
}

fn contains_i32(v: &Vec<i32>, x: i32) -> (r: bool)
    ensures
        r == v@.contains(x),
{
    let mut i: usize = 0;
    while i < v.len()
        invariant
            i <= v@.len(),
            forall|k: int| 0 <= k < i ==> v@[k] != x,
        decreases v@.len() - i,
    {
        if v[i] == x {
            assert(v@[i as int] == x);
            return true;
        }
        i += 1;
    }
    false
}

fn first_index(registry: &Vec<PsiPowerEntry>, power_id: i32) -> (r: Option<usize>)
    ensures
        match r {
            Some(i) => i < registry@.len() && registry@[i as int].power_id == power_id && forall|k: int|
                0 <= k < i ==> registry@[k].power_id != power_id,
            None => forall|k: int| 0 <= k < registry@.len() ==> registry@[k].power_id != power_id,
        },
{
    let mut i: usize = 0;
    while i < registry.len()
        invariant
            i <= registry@.len(),
            forall|k: int| 0 <= k < i ==> registry@[k].power_id != power_id,
        decreases registry@.len() - i,
    {
        if registry[i].power_id == power_id {
            return Some(i);
        }
        i += 1;
    }
    None
}

/// What a grid cell shows; see [`spec_grid_cell`].
pub fn grid_cell(
    tier: i32,
    column: usize,
    row: usize,
    registry: &Vec<PsiPowerEntry>,
    known: &Vec<i32>,
    selected: Option<i32>,
) -> (r: GridCell)
    requires
        1 <= tier <= TIERS,
        column < 2,
        row < ROWS,
    ensures
        r == spec_grid_cell(tier, column as int, row as int, registry@, known@, selected),
{
    let power_id = power_id_at_cell(tier, column, row);
    let marker = is_tier_marker(power_id);
    let index = first_index(registry, power_id);
    proof {
        match index {
            Some(found) => {
                let c = choose|j: int|
                    0 <= j < registry@.len() && registry@[j].power_id == power_id && forall|k: int|
                        0 <= k < j ==> registry@[k].power_id != power_id;
                assert(0 <= c < registry@.len() && registry@[c].power_id == power_id && forall|k: int|
                    0 <= k < c ==> registry@[k].power_id != power_id);
                assert(c == found as int);
            },
            None => {},
        }
    }
    let trained = if marker {
        let mut any = false;
        let mut j: usize = 0;
        while j < registry.len()
            invariant
                j <= registry@.len(),
                any == exists|k: int| 0 <= k < j && registry@[k].tier == tier && known@.contains(registry@[k].template_id),
            decreases registry@.len() - j,
        {
            if registry[j].tier == tier && contains_i32(known, registry[j].template_id) {
                any = true;
            }
            j += 1;
        }
        any
    } else {
        match index {
            Some(found) => contains_i32(known, registry[found].template_id),
            None => false,
        }
    };
    let selected_here = match selected {
        Some(s) => s == power_id,
        None => false,
    };
    GridCell { power_id, kind: icon_kind(trained, selected_here), selectable: !marker && index.is_some() }
}

/// The help-table key for what is under a point: the tier strip's one line
/// over the strip, `psi<id>` over a cell of `tier`, nothing elsewhere.
pub open spec fn spec_help_key(tier: int, px: int, py: int) -> Option<Seq<char>> {
    if spec_tab_at(px, py) is Some {
        Some(TIER_STRIP_HELP_KEY@)
    } else {
        match spec_cell_at(px, py) {
            Some((column, row)) => Some("psi"@ + decimal(spec_power_id_at_cell(tier, column as int, row as int))),
            None => None,
        }
    }
}

/// The help-table key for what is under a point; see [`spec_help_key`].
pub fn help_key(tier: i32, px: i32, py: i32) -> (r: Option<String>)
    requires
        1 <= tier <= TIERS,
    ensures
        match spec_help_key(tier as int, px as int, py as int) {
            Some(k) => r matches Some(s) && s@ == k,
            None => r is None,
        },
{
    if tab_at(px, py).is_some() {
        return Some(String::from_str(TIER_STRIP_HELP_KEY));
    }
    match cell_at(px, py) {
        Some((column, row)) => {
            let mut key = String::from_str("psi");
            push_decimal(&mut key, power_id_at_cell(tier, column, row) as i64);
            Some(key)
        },
        None => None,
    }
}

/// A step the captured thumbstick asks for while the panel is docked.
#[derive(Clone, Copy, Debug, PartialEq, Eq, Structural)]
pub enum NavStep {
    TierPrev,
    TierNext,
    PowerPrev,
    PowerNext,
}

impl NavStep {
    /// The selection step a flick means: up and down walk tiers, left and
    /// right walk the powers of one.
    pub fn effect(self) -> (e: Effect)
        ensures
            e == match self {
                NavStep::TierPrev => Effect::StepPsiSelection { axis: PsiSelectionAxis::Tier, forward: false },
                NavStep::TierNext => Effect::StepPsiSelection { axis: PsiSelectionAxis::Tier, forward: true },
                NavStep::PowerPrev => Effect::StepPsiSelection { axis: PsiSelectionAxis::Power, forward: false },
                NavStep::PowerNext => Effect::StepPsiSelection { axis: PsiSelectionAxis::Power, forward: true },
            },
    {
        let (axis, forward) = match self {
            NavStep::TierPrev => (PsiSelectionAxis::Tier, false),
            NavStep::TierNext => (PsiSelectionAxis::Tier, true),
            NavStep::PowerPrev => (PsiSelectionAxis::Power, false),
            NavStep::PowerNext => (PsiSelectionAxis::Power, true),
        };
        Effect::StepPsiSelection { axis, forward }
    }
}

/// How far the stick must be pushed to register a step, and how far it must
/// come back before the next one, in millionths of full deflection. The gap
/// is hysteresis: a stick resting just under the threshold cannot chatter
/// through the whole tier.
pub const NAV_ENGAGE: i32 = 500_000;
pub const NAV_RELEASE: i32 = 300_000;

pub open spec fn abs_int(v: int) -> int {
    if v < 0 { -v } else { v }
}

/// Edge-triggered stick navigation on a stick at `(x, y)` (millionths of full
/// deflection): a latched stick steps nowhere and stays latched until it comes
/// back under the release threshold; an unlatched one steps (and latches) once
/// pushed past the engage threshold, along its dominant axis (vertical on a
/// tie).
pub open spec fn spec_stick_nav(x: int, y: int, latched: bool) -> (Option<NavStep>, bool) {
    let magnitude = if abs_int(x) >= abs_int(y) { abs_int(x) } else { abs_int(y) };
    if latched {
        (None, magnitude >= NAV_RELEASE)
    } else if magnitude < NAV_ENGAGE {
        (None, false)
    } else if abs_int(y) >= abs_int(x) {
        (Some(if y > 0 { NavStep::TierNext } else { NavStep::TierPrev }), true)
    } else {
        (Some(if x > 0 { NavStep::PowerNext } else { NavStep::PowerPrev }), true)
    }
}

/// One frame of stick navigation; see [`spec_stick_nav`].
pub fn stick_nav(x: i32, y: i32, latched: bool) -> (r: (Option<NavStep>, bool))
    ensures
        r == spec_stick_nav(x as int, y as int, latched),
{
    let ax: i64 = if x < 0 { -(x as i64) } else { x as i64 };
    let ay: i64 = if y < 0 { -(y as i64) } else { y as i64 };
    let magnitude = if ax >= ay { ax } else { ay };
    if latched {
        return (None, magnitude >= NAV_RELEASE as i64);
    }
    if magnitude < NAV_ENGAGE as i64 {
        return (None, false);
    }
    let step = if ay >= ax {
        if y > 0 {
            NavStep::TierNext
        } else {
            NavStep::TierPrev
        }
    } else if x > 0 {
        NavStep::PowerNext
    } else {
        NavStep::PowerPrev
    };
    (Some(step), true)
}

/// One step per flick: a frame that steps leaves the stick latched, and a
/// latched stick steps nowhere whatever it does next, until a frame under the
/// release threshold unlatches it.
pub proof fn law_one_step_per_flick(x: int, y: int, x2: int, y2: int)
    requires
        spec_stick_nav(x, y, false).0 is Some,
    ensures
        spec_stick_nav(x, y, false).1,
        spec_stick_nav(x2, y2, spec_stick_nav(x, y, false).1).0 is None,
{
}

/// The psi power selection panel.
pub struct PsiPowersGui;

/// The panel keeps no state of its own: the browsed tier lives in the
/// mission, which moves it when the selection moves.
#[derive(Clone, Copy, Debug, Default)]
pub struct PsiPowersGuiState;

/// Input to the panel.
#[derive(Clone, Copy, Debug)]
pub enum PsiPowersGuiMsg {
    /// Browse a tier; changes nothing the amp casts.
    BrowseTier(i32),
    /// Select a power; the mission checks it is trained.
    SelectPower(i32),
}

impl PsiPowersGui {
    /// A tab browses its tier; a power cell asks to select its power.
    pub fn handle_msg(&self, state: &PsiPowersGuiState, msg: &PsiPowersGuiMsg) -> (r: (PsiPowersGuiState, Effect))
        ensures
            r.1 == match *msg {
                PsiPowersGuiMsg::BrowseTier(tier) => Effect::SetPsiBrowsedTier { tier },
                PsiPowersGuiMsg::SelectPower(power_id) => Effect::SelectPsiPower { power_id },
            },
    {
        let effect = match msg {
            PsiPowersGuiMsg::BrowseTier(tier) => Effect::SetPsiBrowsedTier { tier: *tier },
            PsiPowersGuiMsg::SelectPower(power_id) => Effect::SelectPsiPower { power_id: *power_id },
        };
        (PsiPowersGuiState, effect)
    }
}

/// The psi help table (`psihelp.str`): icon names, discipline help and the
/// tier strip's line.
pub struct GlobalPsiStrings(pub StringHashMap<String>);

impl GlobalPsiStrings {
    /// An empty table.
    pub fn new() -> (r: GlobalPsiStrings)
        ensures
            r.0@ == Map::<Seq<char>, String>::empty(),
    {
        GlobalPsiStrings(StringHashMap::new())
    }

    /// Adds (or replaces) an entry.
    pub fn insert(&mut self, key: &str, value: &str)
        ensures
            final(self).0@ == old(self).0@.insert(key@, final(self).0@[key@]),
            final(self).0@[key@]@ == value@,
    {
        self.0.insert(String::from_str(key), String::from_str(value));
    }

    /// The entry under `key`, if any.
    pub fn get(&self, key: &str) -> (r: Option<&str>)
        ensures
            match r {
                Some(v) => self.0@.contains_key(key@) && v@ == self.0@[key@]@,
                None => !self.0@.contains_key(key@),
            },
    {
        match self.0.get(key) {
            Some(v) => Some(v.as_str()),
            None => None,
        }
    }

    /// A power's icon basename from this table; see [`icon_basename`].
    pub fn icon_basename(&self, power_id: i32) -> (r: String)
        ensures
            ({
                let key = "psiicon"@ + decimal(power_id as int);
                r@ == spec_icon_basename(
                    if self.0@.contains_key(key) {
                        Some(self.0@[key]@)
                    } else {
                        None
                    },
                    power_id as int,
                )
            }),
    {
        let key = icon_key(power_id);
        icon_basename(self.get(key.as_str()), power_id)
    }
}

} // verus!
