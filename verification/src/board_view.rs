//! How an HRM board is drawn on its 188x296 canvas: a node every 30x36 px
//! from (16, 48), bars behind connected lit nodes, the node art by state, a
//! result overlay for a finished (or unpaid-for) board, the cost, and the
//! START or RESET control.
use vstd::prelude::*;

use crate::hrm::{hack_cost, spec_hack_cost, spec_index, HackDiff, HackNode, HackPhase, BOARD_HEIGHT, BOARD_WIDTH};
use crate::layout::Rect;
use crate::text::{decimal, push_decimal};

verus! {

/// The first node's corner and the node pitch.
pub const BOARD_X: i32 = 16;
pub const BOARD_Y: i32 = 48;
pub const BOARD_DX: i32 = 30;
pub const BOARD_DY: i32 = 36;

/// The 16x16 rect of node `(x, y)`: its art and its hit target.
pub fn node_rect(x: usize, y: usize) -> (r: Rect)
    requires
        x < BOARD_WIDTH,
        y < BOARD_HEIGHT,
    ensures
        r == (Rect { x: (BOARD_X + BOARD_DX * x) as i32, y: (BOARD_Y + BOARD_DY * y) as i32, w: 16, h: 16 }),
{
    Rect { x: BOARD_X + BOARD_DX * x as i32, y: BOARD_Y + BOARD_DY * y as i32, w: 16, h: 16 }
}

/// The art of a node over the board's own outline: lit, burned and mined
/// nodes have one; a free node shows the outline; an empty slot is nothing.
pub open spec fn spec_node_texture(node: HackNode) -> Option<Seq<char>> {
    match node {
        HackNode::Lit => Some("hrmon.pcx"@),
        HackNode::Burned => Some("hrmburn.pcx"@),
        HackNode::Mine => Some("hrmmine.pcx"@),
        _ => None,
    }
}

/// The art of a node; see [`spec_node_texture`].
pub fn node_texture(node: HackNode) -> (r: Option<&'static str>)
    ensures
        match spec_node_texture(node) {
            Some(t) => r matches Some(s) && s@ == t,
            None => r is None,
        },
{
    match node {
        HackNode::Lit => Some("hrmon.pcx"),
        HackNode::Burned => Some("hrmburn.pcx"),
        HackNode::Mine => Some("hrmmine.pcx"),
        _ => None,
    }
}

/// Whether a node is a hit target: every slot but an empty one.
pub fn node_is_playable(node: HackNode) -> (r: bool)
    ensures
        r == (node != HackNode::Empty),
{
    node != HackNode::Empty
}

/// The automation label of node `(x, y)`: `node-<x>-<y>`.
pub fn node_label(x: usize, y: usize) -> (r: String)
    requires
        x < BOARD_WIDTH,
        y < BOARD_HEIGHT,
    ensures
        r@ == "node-"@ + decimal(x as int) + "-"@ + decimal(y as int),
{
    let mut label = String::from_str("node-");
    push_decimal(&mut label, x as i64);
    label.append("-");
    push_decimal(&mut label, y as i64);
    label
}

/// Whether a bar joins node `(x, y)` to its right-hand neighbour: both lit.
pub open spec fn spec_bar_right(nodes: Seq<HackNode>, x: int, y: int) -> bool {
    x + 1 < BOARD_WIDTH && nodes[spec_index(x, y)] == HackNode::Lit && nodes[spec_index(x + 1, y)] == HackNode::Lit
}

/// Whether a bar joins node `(x, y)` to the node below: both lit.
pub open spec fn spec_bar_down(nodes: Seq<HackNode>, x: int, y: int) -> bool {
    y + 1 < BOARD_HEIGHT && nodes[spec_index(x, y)] == HackNode::Lit && nodes[spec_index(x, y + 1)] == HackNode::Lit
}

/// Whether a horizontal bar (`hrmbarh.pcx`, 30x16 at the node) is drawn
/// from node `(x, y)`.
pub fn bar_right(nodes: &[HackNode; 20], x: usize, y: usize) -> (r: bool)
    requires
        x < BOARD_WIDTH,
        y < BOARD_HEIGHT,
    ensures
        r == spec_bar_right(nodes@, x as int, y as int),
{
    x + 1 < BOARD_WIDTH && nodes[y * BOARD_WIDTH + x] == HackNode::Lit && nodes[y * BOARD_WIDTH + x + 1]
        == HackNode::Lit
}

/// Whether a vertical bar (`hrmbarv.pcx`, 16x36 at the node) is drawn from
/// node `(x, y)`.
pub fn bar_down(nodes: &[HackNode; 20], x: usize, y: usize) -> (r: bool)
    requires
        x < BOARD_WIDTH,
        y < BOARD_HEIGHT,
    ensures
        r == spec_bar_down(nodes@, x as int, y as int),
{
    y + 1 < BOARD_HEIGHT && nodes[y * BOARD_WIDTH + x] == HackNode::Lit && nodes[(y + 1) * BOARD_WIDTH + x]
        == HackNode::Lit
}

/// The overlay a board wears: won, lost, unwinnable, or unpaid for; none
/// while unpaid or in play.
pub open spec fn spec_result_overlay(phase: HackPhase) -> Option<Seq<char>> {
    match phase {
        HackPhase::Won => Some("winh.pcx"@),
        HackPhase::Lost => Some("loseh.pcx"@),
        HackPhase::Unwinnable => Some("failh.pcx"@),
        HackPhase::InsufficientNanites => Some("payh.pcx"@),
        _ => None,
    }
}

/// The overlay a board wears (drawn at 13,42, 142x134); see
/// [`spec_result_overlay`].
pub fn result_overlay(phase: HackPhase) -> (r: Option<&'static str>)
    ensures
        match spec_result_overlay(phase) {
            Some(t) => r matches Some(s) && s@ == t,
            None => r is None,
        },
{
    match phase {
        HackPhase::Won => Some("winh.pcx"),
        HackPhase::Lost => Some("loseh.pcx"),
        HackPhase::Unwinnable => Some("failh.pcx"),
        HackPhase::InsufficientNanites => Some("payh.pcx"),
        _ => None,
    }
}

/// The board's control (drawn at 157,232, 20x56): RESET while a board is in
/// play or unwinnable, START before one is dealt or paid for, none once it is
/// won or lost. As (rest art, lit art, label).
pub open spec fn spec_start_control(phase: HackPhase) -> Option<(Seq<char>, Seq<char>, Seq<char>)> {
    if phase is Won || phase is Lost {
        None
    } else if phase is Playing || phase is Unwinnable {
        Some(("reset0.pcx"@, "reset1.pcx"@, "reset-hack"@))
    } else {
        Some(("start0.pcx"@, "start1.pcx"@, "start-hack"@))
    }
}

/// The board's control; see [`spec_start_control`].
pub fn start_control(phase: HackPhase) -> (r: Option<(&'static str, &'static str, &'static str)>)
    ensures
        match spec_start_control(phase) {
            Some((a, b, c)) => r matches Some((x, y, z)) && x@ == a && y@ == b && z@ == c,
            None => r is None,
        },
{
    match phase {
        HackPhase::Won | HackPhase::Lost => None,
        HackPhase::Playing | HackPhase::Unwinnable => Some(("reset0.pcx", "reset1.pcx", "reset-hack")),
        _ => Some(("start0.pcx", "start1.pcx", "start-hack")),
    }
}

/// The cost figure drawn after the board art's `COST:` label: the nanite
/// price in decimal.
pub fn cost_text(diff: HackDiff) -> (r: String)
    ensures
        r@ == decimal(spec_hack_cost(diff) as int),
{
    let mut text = String::new();
    push_decimal(&mut text, hack_cost(diff) as i64);
    assert(text@ =~= decimal(spec_hack_cost(diff) as int));
    text
}

} // verus!
