//! The automap panel: the level's page art, one dim decal per explored map
//! location, and the bright decal of the location the player is in.
use vstd::prelude::*;

use crate::layout::Rect;
use crate::text::{copy_prefix_before, prefix_before};

verus! {

/// The map frame (`MAPBACK.PCX`), in pixels.
pub const MAP_PANEL_W: i32 = 636;
pub const MAP_PANEL_H: i32 = 296;

/// Where the page art sits inside the frame.
pub const PAGE_X: i32 = 10;
pub const PAGE_Y: i32 = 8;

/// The automap panel.
pub struct MapGui;

/// The map keeps no state.
#[derive(Clone, Copy, Debug, Default)]
pub struct MapGuiState {}

/// One decal drawn over the page: the location it shows, whether it is the
/// bright (current location) art or the dim (explored) one, and where.
#[derive(Clone, Copy, Debug, PartialEq, Eq, Structural)]
pub struct MapDecal {
    pub location: i32,
    pub bright: bool,
    pub rect: Rect,
}

/// A page rect moved into the frame.
pub open spec fn on_page(r: Rect) -> Rect {
    Rect { x: (PAGE_X + r.x) as i32, y: (PAGE_Y + r.y) as i32, w: r.w, h: r.h }
}

/// Whether a page rect can be moved into the frame without overflow.
pub open spec fn rect_placeable(r: Rect) -> bool {
    r.x <= i32::MAX - PAGE_X && r.y <= i32::MAX - PAGE_Y
}

/// The decals of one explored location: its dim decal where the page has an
/// explored rect for it, then its bright decal where it is the current
/// location and the page has a revealed rect for it.
pub open spec fn location_decals(
    location: i32,
    current: Option<i32>,
    explored_rects: Seq<Rect>,
    revealed_rects: Seq<Rect>,
) -> Seq<MapDecal> {
    let dim = if 0 <= location < explored_rects.len() {
        seq![MapDecal { location, bright: false, rect: on_page(explored_rects[location as int]) }]
    } else {
        seq![]
    };
    let bright = if current == Some(location) && 0 <= location < revealed_rects.len() {
        seq![MapDecal { location, bright: true, rect: on_page(revealed_rects[location as int]) }]
    } else {
        seq![]
    };
    dim + bright
}

/// The decals of every explored location, in the order explored.
pub open spec fn map_decals(
    explored: Seq<i32>,
    current: Option<i32>,
    explored_rects: Seq<Rect>,
    revealed_rects: Seq<Rect>,
) -> Seq<MapDecal>
    decreases explored.len(),
{
    if explored.len() == 0 {
        seq![]
    } else {
        map_decals(explored.drop_last(), current, explored_rects, revealed_rects) + location_decals(
            explored.last(),
            current,
            explored_rects,
            revealed_rects,
        )
    }
}

impl MapGui {
    /// The page backdrop: the level's page art, or the no-map art for a
    /// level that ships no automap page (no revealed rects).
    pub fn has_page(&self, revealed_rects: &Vec<Rect>) -> (r: bool)
        ensures
            r == (revealed_rects@.len() > 0),
    {
        revealed_rects.len() > 0
    }

    /// The decals to draw; see [`map_decals`].
    pub fn decals(
        &self,
        explored: &Vec<i32>,
        current: Option<i32>,
        explored_rects: &Vec<Rect>,
        revealed_rects: &Vec<Rect>,
    ) -> (r: Vec<MapDecal>)
        requires
            forall|i: int| 0 <= i < explored_rects@.len() ==> rect_placeable(#[trigger] explored_rects@[i]),
            forall|i: int| 0 <= i < revealed_rects@.len() ==> rect_placeable(#[trigger] revealed_rects@[i]),
        ensures
            r@ == map_decals(explored@, current, explored_rects@, revealed_rects@),
    {
        let mut decals: Vec<MapDecal> = Vec::new();
        let mut i: usize = 0;
        while i < explored.len()
            invariant
                i <= explored@.len(),
                forall|k: int| 0 <= k < explored_rects@.len() ==> rect_placeable(#[trigger] explored_rects@[k]),
                forall|k: int| 0 <= k < revealed_rects@.len() ==> rect_placeable(#[trigger] revealed_rects@[k]),
                decals@ == map_decals(explored@.take(i as int), current, explored_rects@, revealed_rects@),
            decreases explored@.len() - i,
        {
            let location = explored[i];
            let ghost before = decals@;
            if 0 <= location && (location as usize) < explored_rects.len() {
                let r = explored_rects[location as usize];
                decals.push(
                    MapDecal { location, bright: false, rect: Rect { x: PAGE_X + r.x, y: PAGE_Y + r.y, w: r.w, h: r.h } },
                );
            }
            let is_current = match current {
                Some(c) => c == location,
                None => false,
            };
            if is_current && 0 <= location && (location as usize) < revealed_rects.len() {
                let r = revealed_rects[location as usize];
                decals.push(
                    MapDecal { location, bright: true, rect: Rect { x: PAGE_X + r.x, y: PAGE_Y + r.y, w: r.w, h: r.h } },
                );
            }
            proof {
                assert(explored@.take(i as int + 1).drop_last() =~= explored@.take(i as int));
                assert(explored@.take(i as int + 1).last() == location);
                assert(decals@ =~= before + location_decals(location, current, explored_rects@, revealed_rects@));
            }
            i += 1;
        }
        assert(explored@.take(explored@.len() as int) =~= explored@);
        decals
    }
}

/// The level name of a mission file: the part before its first dot.
pub fn level_name(mission: &str) -> (r: String)
    ensures
        r@ == prefix_before(mission@, '.'),
{
    copy_prefix_before(mission, '.')
}

} // verus!
