//! The O/S upgrade machines: one free pick from the sixteen traits, at most
//! four installed, and each machine vends once (its used flag is a quest bit
//! keyed by the machine's stable mission id). A pick that is refused never
//! consumes the machine or a slot.
use vstd::prelude::*;

use crate::effect::{Effect, EntityId};
use crate::text::{decimal, push_decimal};
use crate::trainer::{PlayerStats, OS_TRAIT_SLOTS};

verus! {

/// The sixteen O/S traits by their game id, in `TRAITS.STR` order.
pub const OS_TRAITS: [(u8, &'static str); 16] = [
    (1, "Strong Metabolism"),
    (2, "Pharmo-Friendly"),
    (3, "Pack-Rat"),
    (4, "Speedy"),
    (5, "Sharpshooter"),
    (6, "Naturally Able"),
    (7, "Cybernetically Enhanced"),
    (8, "Tank"),
    (9, "Lethal Weapon"),
    (10, "Security Expert"),
    (11, "Smasher"),
    (12, "Cyber-Assimilation"),
    (13, "Replicator Expert"),
    (14, "Power Psi"),
    (15, "Tinker"),
    (16, "Spatially Aware"),
];

pub const TRAIT_STRONG_METABOLISM: u8 = 1;
pub const TRAIT_PHARMO_FRIENDLY: u8 = 2;
pub const TRAIT_PACK_RAT: u8 = 3;
pub const TRAIT_SPEEDY: u8 = 4;
pub const TRAIT_SHARPSHOOTER: u8 = 5;
pub const TRAIT_NATURALLY_ABLE: u8 = 6;
pub const TRAIT_CYBERNETICALLY_ENHANCED: u8 = 7;
pub const TRAIT_TANK: u8 = 8;
pub const TRAIT_LETHAL_WEAPON: u8 = 9;
pub const TRAIT_SECURITY_EXPERT: u8 = 10;
pub const TRAIT_SMASHER: u8 = 11;
/// Cyber-Assimilation: a creature's guaranteed-loot drop on top of its
/// ordinary loot.
pub const TRAIT_CYBER_ASSIMILATION: u8 = 12;
pub const TRAIT_REPLICATOR_EXPERT: u8 = 13;
pub const TRAIT_POWER_PSI: u8 = 14;
pub const TRAIT_TINKER: u8 = 15;
pub const TRAIT_SPATIALLY_AWARE: u8 = 16;

/// Tank: five more maximum (and current) hit points.
pub const TANK_HP_BONUS: i32 = 5;

/// Naturally Able: a one-time bonus of eight cyber modules.
pub const NATURALLY_ABLE_MODULES: i32 = 8;

/// The display name of a trait id, or "?" for one that is not a trait.
pub open spec fn spec_trait_name(trait_id: u8) -> Seq<char> {
    if 1 <= trait_id <= 16 {
        OS_TRAITS[trait_id - 1].1@
    } else {
        "?"@
    }
}

/// The display name of a trait id; see [`spec_trait_name`].
pub fn trait_name(trait_id: u8) -> (r: &'static str)
    ensures
        r@ == spec_trait_name(trait_id),
{
    let mut i: usize = 0;
    while i < 16
        invariant
            i <= 16,
            forall|k: int| 0 <= k < i ==> OS_TRAITS[k].0 != trait_id,
        decreases 16 - i,
    {
        if OS_TRAITS[i].0 == trait_id {
            return OS_TRAITS[i].1;
        }
        i += 1;
    }
    "?"
}

/// The name of the quest bit marking a machine used, keyed by its stable
/// mission object id: `trait_machine_used_<id>`.
pub fn used_bit_name(machine_template_id: i32) -> (r: String)
    ensures
        r@ == "trait_machine_used_"@ + decimal(machine_template_id as int),
{
    let mut name = String::from_str("trait_machine_used_");
    push_decimal(&mut name, machine_template_id as i64);
    name
}

/// A trait's icon art, `trait<NN>.pcx` with the id in at least two digits
/// (`trait00.pcx` is the empty-slot art).
pub open spec fn spec_trait_icon(trait_id: u8) -> Seq<char> {
    if trait_id < 10 {
        "trait0"@ + decimal(trait_id as int) + ".pcx"@
    } else {
        "trait"@ + decimal(trait_id as int) + ".pcx"@
    }
}

/// The icon art of a trait; see [`spec_trait_icon`].
pub fn trait_icon(trait_id: u8) -> (r: String)
    ensures
        r@ == spec_trait_icon(trait_id),
{
    let mut name = if trait_id < 10 {
        String::from_str("trait0")
    } else {
        String::from_str("trait")
    };
    push_decimal(&mut name, trait_id as i64);
    name.append(".pcx");
    name
}

/// The one-line note of a trait's live effect; every one of the sixteen has
/// one, and nothing else does.
pub open spec fn spec_live_effect_note(trait_id: u8) -> Option<Seq<char>> {
    if trait_id == TRAIT_STRONG_METABOLISM {
        Some("25% less radiation damage, 50% less toxin damage"@)
    } else if trait_id == TRAIT_POWER_PSI {
        Some("No burnout HP damage; failed casts still cost psi"@)
    } else if trait_id == TRAIT_SPEEDY {
        Some("15% faster movement"@)
    } else if trait_id == TRAIT_CYBER_ASSIMILATION {
        Some("Robots drop diagnostic modules that heal 15 HP"@)
    } else if trait_id == TRAIT_SECURITY_EXPERT {
        Some("+2 effective Hack at security computers"@)
    } else if trait_id == TRAIT_SPATIALLY_AWARE {
        Some("Full map layout on every deck"@)
    } else if trait_id == TRAIT_SHARPSHOOTER {
        Some("35% more ranged damage (classic retail behavior)"@)
    } else if trait_id == TRAIT_CYBERNETICALLY_ENHANCED {
        Some("Two distinct implants equipped simultaneously"@)
    } else if trait_id == TRAIT_SMASHER {
        Some("Hold trigger 380 ms for +6 melee base damage"@)
    } else if trait_id == TRAIT_LETHAL_WEAPON {
        Some("35% more melee damage"@)
    } else if trait_id == TRAIT_TINKER {
        Some("Half-price weapon modification attempts"@)
    } else if trait_id == TRAIT_TANK {
        Some("+5 max hit points"@)
    } else if trait_id == TRAIT_NATURALLY_ABLE {
        Some("+8 cyber modules"@)
    } else if trait_id == TRAIT_PACK_RAT {
        Some("+3 pack slots"@)
    } else if trait_id == TRAIT_PHARMO_FRIENDLY {
        Some("20% healing, psi and hazard-item bonus"@)
    } else if trait_id == TRAIT_REPLICATOR_EXPERT {
        Some("20% replicator discount"@)
    } else {
        None
    }
}

/// The note of a trait's live effect, if it has one; see
/// [`spec_live_effect_note`].
pub fn live_effect_note(trait_id: u8) -> (r: Option<&'static str>)
    ensures
        match spec_live_effect_note(trait_id) {
            Some(n) => r matches Some(t) && t@ == n,
            None => r is None,
        },
        r is Some <==> 1 <= trait_id <= 16,
{
    match trait_id {
        TRAIT_STRONG_METABOLISM => Some("25% less radiation damage, 50% less toxin damage"),
        TRAIT_POWER_PSI => Some("No burnout HP damage; failed casts still cost psi"),
        TRAIT_SPEEDY => Some("15% faster movement"),
        TRAIT_CYBER_ASSIMILATION => Some("Robots drop diagnostic modules that heal 15 HP"),
        TRAIT_SECURITY_EXPERT => Some("+2 effective Hack at security computers"),
        TRAIT_SPATIALLY_AWARE => Some("Full map layout on every deck"),
        TRAIT_SHARPSHOOTER => Some("35% more ranged damage (classic retail behavior)"),
        TRAIT_CYBERNETICALLY_ENHANCED => Some("Two distinct implants equipped simultaneously"),
        TRAIT_SMASHER => Some("Hold trigger 380 ms for +6 melee base damage"),
        TRAIT_LETHAL_WEAPON => Some("35% more melee damage"),
        TRAIT_TINKER => Some("Half-price weapon modification attempts"),
        TRAIT_TANK => Some("+5 max hit points"),
        TRAIT_NATURALLY_ABLE => Some("+8 cyber modules"),
        TRAIT_PACK_RAT => Some("+3 pack slots"),
        TRAIT_PHARMO_FRIENDLY => Some("20% healing, psi and hazard-item bonus"),
        TRAIT_REPLICATOR_EXPERT => Some("20% replicator discount"),
        _ => None,
    }
}

/// The panel header when the string table gives none.
pub const FALLBACK_HEADER_LABEL: &'static str = "Choose one upgrade.";

/// The used-machine refusal when the string table gives none.
pub const FALLBACK_USED_LABEL: &'static str = "Your OS has already been upgraded at this unit.";

/// The refusal for a trait this build has no live effect for.
pub const UNAVAILABLE_LABEL: &'static str = "Upgrade unavailable in this build.";

/// The status of a machine still locked behind its wave requirement.
pub const OFFLINE_LABEL: &'static str = "Station offline. Check its wave requirement.";

/// The classic-rules description of each trait, by id order.
pub open spec fn spec_trait_descriptions() -> Seq<Seq<char>> {
    seq![
        "Strong Metabolism: Radiation damage reduced by 25%; toxin damage reduced by 50%."@,
        "Pharmo-Friendly: 20% more benefit from healing, psi and hazard-treatment items."@,
        "Pack-Rat: Adds three extra inventory slots."@,
        "Speedy: Movement speed increased by 15%."@,
        "Sharpshooter: Ranged, non-psionic weapons deal 35% more damage."@,
        "Naturally Able: One-time bonus of 8 cyber modules."@,
        "Cybernetically Enhanced: Allows two implants of different types at once."@,
        "Tank: Adds 5 maximum and current hit points."@,
        "Lethal Weapon: Melee attacks deal 35% more damage."@,
        "Security Expert: +2 Hack at security computers. Requires at least Hack 1."@,
        "Smasher: Hold trigger for 380 ms, then release: +6 melee base damage. In VR, strike within 0.8 s."@,
        "Cyber-Assimilation: Destroyed robots drop repair modules that heal 15 hit points."@,
        "Replicator Expert: Replicator purchases cost 20% less."@,
        "Power Psi: Psionic burnout no longer damages you. Failed casts still spend psi points."@,
        "Tinker: Weapon modification nanite costs reduced by 50%."@,
        "Spatially Aware: The entire map of each sublevel is revealed."@,
    ]
}

/// The trait panel's texts: the description of each trait (index 0 is trait
/// 1), the header, and the used-machine refusal.
pub struct TraitsContext {
    pub descriptions: [String; 16],
    pub header_label: String,
    pub used_label: String,
}

impl TraitsContext {
    /// The texts of a mission: the classic-rules descriptions, and the string
    /// table's header and used-machine lines where it has them (the English
    /// fallbacks where it does not).
    pub fn new(header_label: Option<&str>, used_label: Option<&str>) -> (r: TraitsContext)
        ensures
            forall|i: int| 0 <= i < 16 ==> #[trigger] r.descriptions[i]@ == spec_trait_descriptions()[i],
            r.header_label@ == match header_label {
                Some(h) => h@,
                None => FALLBACK_HEADER_LABEL@,
            },
            r.used_label@ == match used_label {
                Some(u) => u@,
                None => FALLBACK_USED_LABEL@,
            },
    {
        let descriptions = [
            String::from_str("Strong Metabolism: Radiation damage reduced by 25%; toxin damage reduced by 50%."),
            String::from_str("Pharmo-Friendly: 20% more benefit from healing, psi and hazard-treatment items."),
            String::from_str("Pack-Rat: Adds three extra inventory slots."),
            String::from_str("Speedy: Movement speed increased by 15%."),
            String::from_str("Sharpshooter: Ranged, non-psionic weapons deal 35% more damage."),
            String::from_str("Naturally Able: One-time bonus of 8 cyber modules."),
            String::from_str("Cybernetically Enhanced: Allows two implants of different types at once."),
            String::from_str("Tank: Adds 5 maximum and current hit points."),
            String::from_str("Lethal Weapon: Melee attacks deal 35% more damage."),
            String::from_str("Security Expert: +2 Hack at security computers. Requires at least Hack 1."),
            String::from_str(
                "Smasher: Hold trigger for 380 ms, then release: +6 melee base damage. In VR, strike within 0.8 s.",
            ),
            String::from_str("Cyber-Assimilation: Destroyed robots drop repair modules that heal 15 hit points."),
            String::from_str("Replicator Expert: Replicator purchases cost 20% less."),
            String::from_str("Power Psi: Psionic burnout no longer damages you. Failed casts still spend psi points."),
            String::from_str("Tinker: Weapon modification nanite costs reduced by 50%."),
            String::from_str("Spatially Aware: The entire map of each sublevel is revealed."),
        ];
        let header_label = match header_label {
            Some(h) => String::from_str(h),
            None => String::from_str(FALLBACK_HEADER_LABEL),
        };
        let used_label = match used_label {
            Some(u) => String::from_str(u),
            None => String::from_str(FALLBACK_USED_LABEL),
        };
        TraitsContext { descriptions, header_label, used_label }
    }
}

/// The O/S upgrade panel.
pub struct TraitGui;

/// The panel's state: the feedback line of the last pick.
#[derive(Clone, Debug)]
pub struct TraitGuiState {
    pub message: Option<String>,
}

impl Default for TraitGuiState {
    fn default() -> (s: TraitGuiState)
        ensures
            s.message is None,
    {
        TraitGuiState { message: None }
    }
}

/// Input to the panel.
#[derive(Clone, Copy, Debug)]
pub enum TraitGuiMsg {
    Pick(u8),
}

/// Why picking `trait_id` at a machine is refused, or `None` when it is
/// installed: a machine without a stable id, one still offline, one already
/// used, a trait without a live effect (any id outside 1..16), one already
/// installed, or no free slot, checked in that order.
pub open spec fn spec_pick_refusal(
    template_id: Option<i32>,
    locked: bool,
    used: bool,
    used_label: Seq<char>,
    owned: Seq<u8>,
    trait_id: u8,
) -> Option<Seq<char>> {
    if template_id is None {
        Some("This upgrade unit is not responding."@)
    } else if locked {
        Some(OFFLINE_LABEL@)
    } else if used {
        Some(used_label)
    } else if spec_live_effect_note(trait_id) is None {
        Some(UNAVAILABLE_LABEL@)
    } else if owned.contains(trait_id) {
        Some(spec_trait_name(trait_id) + " is already installed."@)
    } else if owned.len() >= OS_TRAIT_SLOTS {
        Some("All O/S upgrade slots are full."@)
    } else {
        None
    }
}

impl TraitGui {
    /// Picking a trait at `machine`: the refusal of [`spec_pick_refusal`], or
    /// "<name> installed." and the effect that installs it and marks the
    /// machine used. `template_id` is the machine's stable mission id, `used`
    /// whether its used bit is set.
    pub fn handle_msg(
        &self,
        machine: EntityId,
        msg: &TraitGuiMsg,
        template_id: Option<i32>,
        locked: bool,
        used: bool,
        used_label: &str,
        stats: &PlayerStats,
    ) -> (r: (TraitGuiState, Effect))
        ensures
            ({
                let trait_id = msg->Pick_0;
                match spec_pick_refusal(template_id, locked, used, used_label@, stats.os_traits@, trait_id) {
                    Some(text) => r.0.message matches Some(m) && m@ == text && r.1 is NoEffect,
                    None => {
                        &&& r.0.message matches Some(m) && m@ == spec_trait_name(trait_id) + " installed."@
                        &&& r.1 == (Effect::AcquireOsTrait { trait_id, machine })
                    },
                }
            }),
    {
        let TraitGuiMsg::Pick(trait_id) = msg;
        let trait_id = *trait_id;
        let refusal: Option<String> = if template_id.is_none() {
            Some(String::from_str("This upgrade unit is not responding."))
        } else if locked {
            Some(String::from_str(OFFLINE_LABEL))
        } else if used {
            Some(String::from_str(used_label))
        } else if live_effect_note(trait_id).is_none() {
            Some(String::from_str(UNAVAILABLE_LABEL))
        } else if stats.has_os_trait(trait_id) {
            let mut text = String::from_str(trait_name(trait_id));
            text.append(" is already installed.");
            Some(text)
        } else if stats.os_traits.len() >= OS_TRAIT_SLOTS {
            Some(String::from_str("All O/S upgrade slots are full."))
        } else {
            None
        };
        match refusal {
            Some(message) => (TraitGuiState { message: Some(message) }, Effect::NoEffect),
            None => {
                let mut text = String::from_str(trait_name(trait_id));
                text.append(" installed.");
                (TraitGuiState { message: Some(text) }, Effect::AcquireOsTrait { trait_id, machine })
            },
        }
    }

    /// The status line under the description: offline, used, or (for a
    /// hovered trait without a live effect) unavailable.
    pub fn status_text(&self, locked: bool, used: bool, used_label: &str, hovered: Option<u8>) -> (r: Option<String>)
        ensures
            locked ==> (r matches Some(t) && t@ == OFFLINE_LABEL@),
            !locked && used ==> (r matches Some(t) && t@ == used_label@),
            !locked && !used ==> match hovered {
                Some(id) if spec_live_effect_note(id) is None => r matches Some(t) && t@ == UNAVAILABLE_LABEL@,
                _ => r is None,
            },
    {
        if locked {
            Some(String::from_str(OFFLINE_LABEL))
        } else if used {
            Some(String::from_str(used_label))
        } else {
            match hovered {
                Some(id) => if live_effect_note(id).is_none() {
                    Some(String::from_str(UNAVAILABLE_LABEL))
                } else {
                    None
                },
                None => None,
            }
        }
    }

    /// The art of owned-slot `slot`: the installed trait's icon, or the
    /// empty-slot art.
    pub fn slot_icon(&self, owned: &Vec<u8>, slot: usize) -> (r: String)
        ensures
            slot < owned@.len() ==> r@ == spec_trait_icon(owned@[slot as int]),
            slot >= owned@.len() ==> r@ == "trait00.pcx"@,
    {
        if slot < owned.len() {
            trait_icon(owned[slot])
        } else {
            String::from_str("trait00.pcx")
        }
    }

    /// The traits the selection matrix offers a button for: every trait not
    /// yet installed, in id order.
    pub fn offered_traits(&self, owned: &Vec<u8>) -> (r: Vec<u8>)
        ensures
            r@ == unowned_traits(owned@, 16),
    {
        let mut offered: Vec<u8> = Vec::new();
        let mut i: usize = 0;
        while i < 16
            invariant
                i <= 16,
                offered@ == unowned_traits(owned@, i as nat),
            decreases 16 - i,
        {
            let id = OS_TRAITS[i].0;
            assert(id == (i + 1) as u8);
            let mut owned_already = false;
            let mut j: usize = 0;
            while j < owned.len()
                invariant
                    j <= owned@.len(),
                    owned_already == exists|k: int| 0 <= k < j && owned@[k] == id,
                decreases owned@.len() - j,
            {
                if owned[j] == id {
                    owned_already = true;
                }
                j += 1;
            }
            if !owned_already {
                offered.push(id);
            }
            i += 1;
        }
        offered
    }
}

/// The trait ids 1..=n that are not in `owned`, in id order.
pub open spec fn unowned_traits(owned: Seq<u8>, n: nat) -> Seq<u8>
    decreases n,
{
    if n == 0 {
        seq![]
    } else {
        let before = unowned_traits(owned, (n - 1) as nat);
        if owned.contains(n as u8) {
            before
        } else {
            before.push(n as u8)
        }
    }
}


/// Where the panel's cells sit, in tenths of a pixel of the 188x296 art: the
/// owned-slots row at (15, 35) with a 35 px pitch, and the 4x4 selection
/// matrix at (15, 76) with a 34.5 x 33.5 px pitch; every cell is 34x32.
pub const OWNED_X: i32 = 150;
pub const OWNED_Y: i32 = 350;
pub const OWNED_PITCH: i32 = 350;
pub const MATRIX_X: i32 = 150;
pub const MATRIX_Y: i32 = 760;
pub const MATRIX_PITCH_X: i32 = 345;
pub const MATRIX_PITCH_Y: i32 = 335;
pub const CELL_W: i32 = 340;
pub const CELL_H: i32 = 320;

/// Whether matrix cell `idx` (trait `idx + 1`, column `idx % 4`, row
/// `idx / 4`) covers a point, its edges included.
pub open spec fn matrix_cell_covers(idx: int, px: int, py: int) -> bool {
    let x = MATRIX_X + MATRIX_PITCH_X * (idx % 4);
    let y = MATRIX_Y + MATRIX_PITCH_Y * (idx / 4);
    x <= px <= x + CELL_W && y <= py <= y + CELL_H
}

/// The first matrix cell from `idx` on that covers a point.
pub open spec fn first_matrix_hit(px: int, py: int, idx: int) -> Option<int>
    decreases 16 - idx,
{
    if idx >= 16 || idx < 0 {
        None
    } else if matrix_cell_covers(idx, px, py) {
        Some(idx)
    } else {
        first_matrix_hit(px, py, idx + 1)
    }
}

/// The trait whose matrix cell is under a point (tenths of a pixel).
pub open spec fn spec_hovered_trait(px: int, py: int) -> Option<u8> {
    match first_matrix_hit(px, py, 0) {
        Some(idx) => Some((idx + 1) as u8),
        None => None,
    }
}

/// The trait whose matrix cell is under a point (tenths of a pixel); see
/// [`spec_hovered_trait`].
pub fn hovered_trait(px: i32, py: i32) -> (r: Option<u8>)
    ensures
        r == spec_hovered_trait(px as int, py as int),
{
    let mut idx: i32 = 0;
    while idx < 16
        invariant
            0 <= idx <= 16,
            first_matrix_hit(px as int, py as int, 0) == first_matrix_hit(px as int, py as int, idx as int),
        decreases 16 - idx,
    {
        let x: i64 = MATRIX_X as i64 + MATRIX_PITCH_X as i64 * (idx % 4) as i64;
        let y: i64 = MATRIX_Y as i64 + MATRIX_PITCH_Y as i64 * (idx / 4) as i64;
        if x <= px as i64 && px as i64 <= x + CELL_W as i64 && y <= py as i64 && py as i64 <= y + CELL_H as i64 {
            return Some((idx + 1) as u8);
        }
        idx += 1;
    }
    None
}

/// Whether owned slot `slot` covers a point, its edges included.
pub open spec fn owned_slot_covers(slot: int, px: int, py: int) -> bool {
    let x = OWNED_X + OWNED_PITCH * slot;
    x <= px <= x + CELL_W && OWNED_Y <= py <= OWNED_Y + CELL_H
}

/// The first owned slot from `slot` on that covers a point.
pub open spec fn first_owned_hit(owned: Seq<u8>, px: int, py: int, slot: int) -> Option<u8>
    decreases owned.len() - slot,
{
    if slot >= owned.len() || slot < 0 {
        None
    } else if owned_slot_covers(slot, px, py) {
        Some(owned[slot])
    } else {
        first_owned_hit(owned, px, py, slot + 1)
    }
}

/// What the description well explains under a point: an installed trait's
/// icon in the owned row, else a matrix cell of a trait not yet installed
/// (an installed trait's cell is empty and explains nothing).
pub open spec fn spec_hovered_help(owned: Seq<u8>, px: int, py: int) -> Option<u8> {
    match first_owned_hit(owned, px, py, 0) {
        Some(id) => Some(id),
        None => match spec_hovered_trait(px, py) {
            Some(id) if !owned.contains(id) => Some(id),
            _ => None,
        },
    }
}

/// The trait the description well explains under a point; see
/// [`spec_hovered_help`].
pub fn hovered_help(owned: &Vec<u8>, px: i32, py: i32) -> (r: Option<u8>)
    ensures
        r == spec_hovered_help(owned@, px as int, py as int),
{
    let mut slot: usize = 0;
    while slot < owned.len()
        invariant
            slot <= owned@.len(),
            first_owned_hit(owned@, px as int, py as int, 0) == first_owned_hit(owned@, px as int, py as int, slot as int),
        decreases owned@.len() - slot,
    {
        let x: i128 = OWNED_X as i128 + OWNED_PITCH as i128 * slot as i128;
        if x <= px as i128 && px as i128 <= x + CELL_W as i128 && OWNED_Y <= py && py <= OWNED_Y + CELL_H {
            return Some(owned[slot]);
        }
        slot += 1;
    }
    match hovered_trait(px, py) {
        Some(id) => {
            if contains_u8(owned, id) {
                None
            } else {
                Some(id)
            }
        },
        None => None,
    }
}

fn contains_u8(v: &Vec<u8>, x: u8) -> (r: bool)
    ensures
        r == v@.contains(x),
{
    let mut i: usize = 0;
    while i < v.len()
        invariant
            i <= v@.len(),
            forall|k: int| 0 <= k < i ==> v@[k] != x,
        decreases v@.len() - i,
    {
        if v[i] == x {
            return true;
        }
        i += 1;
    }
    false
}

/// The description well's text: the hovered trait's description when
/// something is hovered (fresh help wins over the last pick's feedback; the
/// trait's name stands in without the mission's texts), else that feedback.
pub fn description_text(context: Option<&TraitsContext>, hovered: Option<u8>, message: &Option<String>) -> (r: Option<
    String,
>)
    ensures
        match hovered {
            Some(id) => r matches Some(t) && match context {
                Some(c) if 1 <= id <= 16 => t@ == c.descriptions[id - 1]@,
                _ => t@ == spec_trait_name(id),
            },
            None => match message {
                Some(m) => r matches Some(t) && t@ == m@,
                None => r is None,
            },
        },
{
    match hovered {
        Some(id) => match context {
            Some(c) if 1 <= id && id <= 16 => Some(c.descriptions[(id - 1) as usize].clone()),
            _ => Some(String::from_str(trait_name(id))),
        },
        None => match message {
            Some(m) => Some(m.clone()),
            None => None,
        },
    }
}

} // verus!
