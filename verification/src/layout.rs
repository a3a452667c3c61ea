//! Panel placement, decided once in whole panel units: a control's rect is
//! both where it is drawn and where it is hit-tested. The HRM plug raised
//! beside an MFD panel, and the weapon settings panel's rows, live here.
use vstd::prelude::*;

verus! {

/// A rectangle on a panel, in the panel's own units.
#[derive(Clone, Copy, Debug, PartialEq, Eq, Structural)]
pub struct Rect {
    pub x: i32,
    pub y: i32,
    pub w: i32,
    pub h: i32,
}

/// Whether a point lies in a rect, left and top edges included, right and
/// bottom excluded.
pub open spec fn spec_contains(r: Rect, px: int, py: int) -> bool {
    r.x <= px < r.x + r.w && r.y <= py < r.y + r.h
}

impl Rect {
    /// Whether the point `(px, py)` lies in the rect; see [`spec_contains`].
    pub fn contains_half_open(&self, px: i32, py: i32) -> (r: bool)
        ensures
            r == spec_contains(*self, px as int, py as int),
    {
        self.x as i64 <= px as i64 && (px as i64) < self.x as i64 + self.w as i64 && self.y as i64 <= py as i64
            && (py as i64) < self.y as i64 + self.h as i64
    }
}

/// Width of the MFD body a plug sits beside.
pub const PLUG_BODY_W: i32 = 188;

/// Where the plug is raised: 96 px down, overlapping the body's right edge.
pub open spec fn spec_plug_rect() -> Rect {
    Rect { x: 179, y: 96, w: 73, h: 194 }
}

/// The plug's rect, beside the MFD body.
pub fn plug_rect() -> (r: Rect)
    ensures
        r == spec_plug_rect(),
{
    Rect { x: 179, y: 96, w: 73, h: 194 }
}

/// The canvas width of a panel that keeps room for a plug.
pub const PLUG_CANVAS_W: i32 = 252;

/// The plug's button, in panel coordinates: plug-local (16, 114), 52x74.
pub fn plug_button_rect() -> (r: Rect)
    ensures
        r == (Rect { x: (spec_plug_rect().x + 16) as i32, y: (spec_plug_rect().y + 114) as i32, w: 52, h: 74 }),
{
    let plug = plug_rect();
    Rect { x: plug.x + 16, y: plug.y + 114, w: 52, h: 74 }
}

/// Which board a plug opens.
#[derive(Clone, Copy, Debug, PartialEq, Eq, Structural)]
pub enum PlugKind {
    Hack,
    Repair,
    Modify,
}

impl PlugKind {
    /// The plug's backdrop, then its button's rest and lit art.
    pub fn art(self) -> (r: (&'static str, &'static str, &'static str))
        ensures
            (r.0@, r.1@, r.2@) == match self {
                PlugKind::Hack => ("plughack.pcx"@, "plugh0.pcx"@, "plugh1.pcx"@),
                PlugKind::Repair => ("plugrep.pcx"@, "plugr0.pcx"@, "plugr1.pcx"@),
                PlugKind::Modify => ("plugmod.pcx"@, "plugm0.pcx"@, "plugm1.pcx"@),
            },
    {
        match self {
            PlugKind::Hack => ("plughack.pcx", "plugh0.pcx", "plugh1.pcx"),
            PlugKind::Repair => ("plugrep.pcx", "plugr0.pcx", "plugr1.pcx"),
            PlugKind::Modify => ("plugmod.pcx", "plugm0.pcx", "plugm1.pcx"),
        }
    }
}

/// The room a panel keeps beside its body, and the rect of what is drawn
/// there while it shows.
#[derive(Clone, Copy, Debug, PartialEq, Eq, Structural)]
pub struct PanelSidecar {
    pub body_width: i32,
    pub rect: Option<Rect>,
}

/// The sidecar of a panel that keeps room for a plug; the plug's rect only
/// while it is `shown`.
pub fn plug_sidecar(shown: bool) -> (r: PanelSidecar)
    ensures
        r.body_width == PLUG_BODY_W,
        shown ==> r.rect == Some(spec_plug_rect()),
        !shown ==> r.rect is None,
{
    PanelSidecar {
        body_width: PLUG_BODY_W,
        rect: if shown {
            Some(plug_rect())
        } else {
            None
        },
    }
}

/// The weapon settings panel (`SETTINGS.PCX`), in pixels.
pub const SETTINGS_PANEL_W: i32 = 188;
pub const SETTINGS_PANEL_H: i32 = 300;

/// `SETSEL.PCX`'s authored size: a setting row is exactly this.
pub const HIGHLIGHT_W: i32 = 164;
pub const HIGHLIGHT_H: i32 = 68;

/// The gun's short name, on the art's name bar.
pub const NAME_X: i32 = 24;
pub const NAME_Y: i32 = 133;

/// Where the row text stops on the right.
pub const ROW_TEXT_RIGHT: i32 = 175;

/// The modification line: 50 px above the first row.
pub const MOD_LEVEL_Y: i32 = 100;

/// The rect of fire-setting row `setting`: the highlight and the click
/// target at once.
pub open spec fn spec_setting_row(setting: int) -> Rect {
    if setting == 0 {
        Rect { x: 11, y: 150, w: HIGHLIGHT_W, h: HIGHLIGHT_H }
    } else {
        Rect { x: 11, y: 220, w: HIGHLIGHT_W, h: HIGHLIGHT_H }
    }
}

/// A fire-setting row's rect.
pub fn setting_row(setting: usize) -> (r: Rect)
    requires
        setting < 2,
    ensures
        r == spec_setting_row(setting as int),
{
    if setting == 0 {
        Rect { x: 11, y: 150, w: HIGHLIGHT_W, h: HIGHLIGHT_H }
    } else {
        Rect { x: 11, y: 220, w: HIGHLIGHT_W, h: HIGHLIGHT_H }
    }
}

/// Where a row's text starts, inset from the row.
pub fn row_text_origin(setting: usize) -> (r: (i32, i32))
    requires
        setting < 2,
    ensures
        r == (if setting == 0 {
            (22i32, 153i32)
        } else {
            (22i32, 223i32)
        }),
{
    if setting == 0 {
        (22, 153)
    } else {
        (22, 223)
    }
}

/// `UNLOAD0.PCX`, centred and flush to the panel's bottom edge.
pub open spec fn spec_unload_rect() -> Rect {
    Rect { x: 23, y: 278, w: 142, h: 22 }
}

/// The UNLOAD button's rect.
pub fn unload_rect() -> (r: Rect)
    ensures
        r == spec_unload_rect(),
{
    Rect { x: 23, y: 278, w: 142, h: 22 }
}

/// Where a row's text must stop: the row's bottom, or UNLOAD's top where the
/// button overlays the row.
pub fn row_text_bottom(row: Rect) -> (r: i32)
    requires
        i32::MIN <= row.y + row.h <= i32::MAX,
    ensures
        r == if row.y + row.h < spec_unload_rect().y {
            row.y + row.h
        } else {
            spec_unload_rect().y as int
        },
{
    let bottom = row.y + row.h;
    let unload = unload_rect();
    if bottom < unload.y {
        bottom
    } else {
        unload.y
    }
}

} // verus!
