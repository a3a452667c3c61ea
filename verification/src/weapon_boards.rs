//! Modify and repair modes on the shared HRM board.
//!
//! A gun can be modified twice, each time on the board against the Modify
//! skill and the gun's own terms (the second always the harder); losing
//! breaks the gun. A broken gun is repaired on the same board against the
//! Repair skill; losing destroys it. Both boards are hosted by a synthetic
//! panel that presents whichever gun the player asked about, so each opening
//! deals a fresh board.
use vstd::prelude::*;

use crate::effect::{combines, Effect, EntityId, ObjectState};
use crate::hack_panels::{is_fresh_board, is_out_of_order};
use crate::hrm::{board_step_holds, handle_hrm_msg, HackDiff, HackPhase, HackState, HrmContext, KeyPadMsg};
use crate::panels::{repair_critical_failure, repair_success, REPAIR_CONDITION_BONUS};
use crate::text::{decimal, fill_percent_d, replace_percent_d};

verus! {

/// The last modification a gun can take.
pub const MAX_MODIFICATION: i32 = 2;

/// The second modification demands this many Modify levels more than the gun
/// authors.
pub const SECOND_MODIFICATION_SKILL_PREMIUM: i32 = 2;

/// What the mission knows about a weapon that the modify and repair boards
/// read: its gun state, its scripts, its object state and its authored terms.
#[derive(Clone, Copy, Debug)]
pub struct WeaponFacts {
    /// Whether it tracks gun state (`PropGunState`) at all.
    pub has_gun_state: bool,
    /// Whether it authors a modify script (the table of what a modification
    /// does).
    pub has_modify_script: bool,
    /// Whether it is the psi amp, which inherits a gun state that means
    /// nothing.
    pub is_psi_amp: bool,
    pub object_state: ObjectState,
    /// The raw modification count of its gun state.
    pub modification: i32,
    /// `P$ModifyDif`: the terms of the first modification.
    pub modify_diff: Option<HackDiff>,
    /// `P$Modify2Di`: the terms of the second.
    pub modify2_diff: Option<HackDiff>,
    /// `P$RepairDif`: the terms it is repaired on.
    pub repair_diff: Option<HackDiff>,
    /// The Modify and Repair levels it authors as required.
    pub required_modify: i32,
    pub required_repair: i32,
}

/// The string-table messages the two boards' entry refusals show.
pub struct BoardStrings {
    /// A gun that has taken every modification.
    pub modify_maxed: String,
    /// Modify skill too low; `%d` is the level required.
    pub modify_skill_req: String,
    /// Repair skill too low; `%d` is the level required.
    pub repair_skill_req: String,
}

/// A gun's modification level, clamped to what a gun can reach (0 without a
/// gun state).
pub open spec fn spec_modification_level(facts: WeaponFacts) -> i32 {
    if !facts.has_gun_state || facts.modification < 0 {
        0
    } else if facts.modification > MAX_MODIFICATION {
        MAX_MODIFICATION
    } else {
        facts.modification
    }
}

/// A weapon's current modification level, from 0 to [`MAX_MODIFICATION`].
pub fn modification_level(facts: &WeaponFacts) -> (r: i32)
    ensures
        r == spec_modification_level(*facts),
        0 <= r <= MAX_MODIFICATION,
{
    if !facts.has_gun_state || facts.modification < 0 {
        0
    } else if facts.modification > MAX_MODIFICATION {
        MAX_MODIFICATION
    } else {
        facts.modification
    }
}

/// The terms of the next modification: the first's at level 0, the second's
/// at level 1, none past that.
pub open spec fn spec_next_modify_diff(facts: WeaponFacts) -> Option<HackDiff> {
    let level = spec_modification_level(facts);
    if level == 0 {
        facts.modify_diff
    } else if level == 1 {
        facts.modify2_diff
    } else {
        None
    }
}

/// The terms a weapon's next modification is played on.
pub fn next_modify_diff(facts: &WeaponFacts) -> (r: Option<HackDiff>)
    ensures
        r == spec_next_modify_diff(*facts),
{
    let level = modification_level(facts);
    if level == 0 {
        facts.modify_diff
    } else if level == 1 {
        facts.modify2_diff
    } else {
        None
    }
}

/// What asking to modify a gun comes to.
#[derive(Clone, Copy, Debug, PartialEq, Eq, Structural)]
pub enum ModifyEntry {
    /// Open the board on this gun.
    Board,
    /// The gun has had every modification it can take.
    AlreadyFullyModified,
    /// The player's Modify skill is below what this modification demands.
    SkillRequired { level: i32 },
    /// Not a gun modification does anything to, or one that has given out.
    NotModifiable,
}

/// A weapon modify mode acts on at all: it tracks gun state and authors a
/// modify script.
pub open spec fn is_modifiable_gun(facts: WeaponFacts) -> bool {
    facts.has_gun_state && facts.has_modify_script
}

/// The Modify level the next modification demands.
pub open spec fn spec_required_modify_level(facts: WeaponFacts) -> int {
    if spec_modification_level(facts) >= 1 {
        facts.required_modify + SECOND_MODIFICATION_SKILL_PREMIUM
    } else {
        facts.required_modify as int
    }
}

/// What asking to modify a gun with these facts comes to, for a player whose
/// effective Modify level is `player_level`.
pub open spec fn spec_modify_entry(facts: WeaponFacts, player_level: i32) -> ModifyEntry {
    if !is_modifiable_gun(facts) || is_out_of_order(facts.object_state) {
        ModifyEntry::NotModifiable
    } else if spec_modification_level(facts) >= MAX_MODIFICATION || spec_next_modify_diff(facts) is None {
        ModifyEntry::AlreadyFullyModified
    } else if player_level < spec_required_modify_level(facts) {
        ModifyEntry::SkillRequired { level: spec_required_modify_level(facts) as i32 }
    } else {
        ModifyEntry::Board
    }
}

/// Decides what asking to modify a gun does; `player_level` is the board's
/// own effective Modify level, so the door and the odds behind it agree.
pub fn modify_entry(facts: &WeaponFacts, player_level: i32) -> (r: ModifyEntry)
    requires
        facts.required_modify <= i32::MAX - SECOND_MODIFICATION_SKILL_PREMIUM,
    ensures
        r == spec_modify_entry(*facts, player_level),
{
    if !(facts.has_gun_state && facts.has_modify_script)
        || matches!(facts.object_state, ObjectState::Broken | ObjectState::Destroyed) {
        return ModifyEntry::NotModifiable;
    }
    let level = modification_level(facts);
    if level >= MAX_MODIFICATION || next_modify_diff(facts).is_none() {
        return ModifyEntry::AlreadyFullyModified;
    }
    let required = if level >= 1 {
        facts.required_modify + SECOND_MODIFICATION_SKILL_PREMIUM
    } else {
        facts.required_modify
    };
    if player_level < required {
        return ModifyEntry::SkillRequired { level: required };
    }
    ModifyEntry::Board
}

/// The effect of the settings panel's MODIFY control on gun `weapon`, or
/// `None` when the gun offers no such control.
pub fn use_modify_control(weapon: EntityId, facts: &WeaponFacts, player_level: i32, strings: &BoardStrings) -> (r:
    Option<Effect>)
    requires
        facts.required_modify <= i32::MAX - SECOND_MODIFICATION_SKILL_PREMIUM,
    ensures
        match spec_modify_entry(*facts, player_level) {
            ModifyEntry::NotModifiable => r is None,
            ModifyEntry::Board => r == Some(Effect::OpenWeaponModify { entity_id: weapon }),
            ModifyEntry::AlreadyFullyModified => r matches Some(Effect::ShowMessage { text })
                && text@ == strings.modify_maxed@,
            ModifyEntry::SkillRequired { level } => r matches Some(Effect::ShowMessage { text })
                && text@ == replace_percent_d(strings.modify_skill_req@, decimal(level as int)),
        },
{
    match modify_entry(facts, player_level) {
        ModifyEntry::NotModifiable => None,
        ModifyEntry::Board => Some(Effect::OpenWeaponModify { entity_id: weapon }),
        ModifyEntry::AlreadyFullyModified => Some(
            Effect::ShowMessage { text: String::from_str(strings.modify_maxed.as_str()) },
        ),
        ModifyEntry::SkillRequired { level } => Some(
            Effect::ShowMessage { text: fill_percent_d(strings.modify_skill_req.as_str(), level) },
        ),
    }
}

/// Whether the settings panel draws a MODIFY control: whenever modification
/// means anything to the gun, so a fully modified gun still has somewhere to
/// be told so.
pub fn offers_modify_control(facts: &WeaponFacts, player_level: i32) -> (r: bool)
    requires
        facts.required_modify <= i32::MAX - SECOND_MODIFICATION_SKILL_PREMIUM,
    ensures
        r == (spec_modify_entry(*facts, player_level) != ModifyEntry::NotModifiable),
{
    modify_entry(facts, player_level) != ModifyEntry::NotModifiable
}

/// A won modify board: one more modification, from level `from_level`.
pub fn modify_success(weapon: EntityId, from_level: i32) -> (e: Effect)
    ensures
        e == (Effect::ModifyWeapon { entity_id: weapon, expected_level: from_level }),
{
    Effect::ModifyWeapon { entity_id: weapon, expected_level: from_level }
}

/// A lost modify board breaks the gun; unlike a lost repair, nothing is
/// destroyed, so the gun can still be repaired.
pub fn modify_critical_failure(weapon: EntityId) -> (e: Effect)
    ensures
        e == (Effect::SetObjectState { entity_id: weapon, state: ObjectState::Broken }),
{
    Effect::SetObjectState { entity_id: weapon, state: ObjectState::Broken }
}

/// The modify board's state.
#[derive(Clone, Copy, Debug)]
pub struct WeaponModifyState {
    pub hack: HackState,
}

impl Default for WeaponModifyState {
    fn default() -> (s: WeaponModifyState)
        ensures
            is_fresh_board(s.hack),
    {
        WeaponModifyState { hack: HackState::default() }
    }
}

/// Input to the modify board.
#[derive(Clone, Copy, Debug)]
pub enum WeaponModifyMsg {
    Board(KeyPadMsg),
}

/// The panel that hosts the modify board.
pub struct WeaponModifyGui;

impl WeaponModifyGui {
    /// One host serves every gun, so its board never outlives the opening it
    /// was dealt for.
    pub fn resets_state_on_frob(&self) -> (r: bool)
        ensures
            r,
    {
        true
    }

    /// Every opening starts on a fresh, unpaid board.
    pub fn prepare_state_on_frob(&self, state: &mut WeaponModifyState)
        ensures
            is_fresh_board(final(state).hack),
    {
        *state = WeaponModifyState::default();
    }

    /// Plays a board input against the presented gun `subject` (with what
    /// the mission knows of it now). Input is ignored without a subject, and
    /// once the gun is no longer one a board is open for (fully modified, or
    /// broken by a lost board): no attempt is charged that could do nothing.
    pub fn handle_msg(
        &self,
        state: &WeaponModifyState,
        msg: &WeaponModifyMsg,
        subject: Option<(EntityId, WeaponFacts)>,
        player_level: i32,
        chance: i32,
        mine_count: i32,
        payment: Option<Effect>,
        seed: u64,
    ) -> (r: (WeaponModifyState, Effect))
        requires
            subject matches Some((_, f)) ==> f.required_modify <= i32::MAX - SECOND_MODIFICATION_SKILL_PREMIUM,
        ensures
            match subject {
                None => r.0.hack == state.hack && r.1 is NoEffect,
                Some((gun, facts)) => if spec_modify_entry(facts, player_level) != ModifyEntry::Board {
                    r.0.hack == state.hack && r.1 is NoEffect
                } else {
                    *msg matches WeaponModifyMsg::Board(m) && board_step_holds(
                        gun,
                        state.hack,
                        m,
                        HrmContext::Modify,
                        chance,
                        mine_count,
                        payment,
                        seed,
                        Effect::ModifyWeapon { entity_id: gun, expected_level: spec_modification_level(facts) },
                        Effect::SetObjectState { entity_id: gun, state: ObjectState::Broken },
                        (r.0.hack, r.1),
                    )
                },
            },
    {
        let WeaponModifyMsg::Board(m) = msg;
        let Some((gun, facts)) = subject else {
            return (*state, Effect::NoEffect);
        };
        if modify_entry(&facts, player_level) != ModifyEntry::Board {
            return (*state, Effect::NoEffect);
        }
        let level = modification_level(&facts);
        let (hack, effect) = handle_hrm_msg(
            gun,
            &state.hack,
            m,
            HrmContext::Modify,
            chance,
            mine_count,
            payment,
            seed,
            modify_success(gun, level),
            modify_critical_failure(gun),
        );
        (WeaponModifyState { hack }, effect)
    }
}

/// A gun that has given out: the one thing repair mode applies to. The psi
/// amp is excluded, its gun state meaning nothing.
pub open spec fn is_broken_gun(facts: WeaponFacts) -> bool {
    facts.has_gun_state && !facts.is_psi_amp && is_out_of_order(facts.object_state)
}

/// What using a broken gun comes to.
#[derive(Clone, Copy, Debug, PartialEq, Eq, Structural)]
pub enum RepairEntry {
    /// Open the board on this gun.
    Board,
    /// The player's Repair skill is below the level the gun authors.
    SkillRequired { level: i32 },
    /// Not a broken gun, or one without repair terms.
    NotRepairable,
}

/// What using an item with these facts does about its being broken, for a
/// player whose effective Repair level is `player_level`.
pub open spec fn spec_repair_entry(facts: WeaponFacts, player_level: i32) -> RepairEntry {
    if !is_broken_gun(facts) || facts.repair_diff is None {
        RepairEntry::NotRepairable
    } else if player_level < facts.required_repair {
        RepairEntry::SkillRequired { level: facts.required_repair }
    } else {
        RepairEntry::Board
    }
}

/// Decides what using an item from the inventory does about its being broken.
pub fn repair_entry(facts: &WeaponFacts, player_level: i32) -> (r: RepairEntry)
    ensures
        r == spec_repair_entry(*facts, player_level),
{
    let broken_gun = facts.has_gun_state && !facts.is_psi_amp
        && matches!(facts.object_state, ObjectState::Broken | ObjectState::Destroyed);
    if !broken_gun || facts.repair_diff.is_none() {
        return RepairEntry::NotRepairable;
    }
    if player_level < facts.required_repair {
        return RepairEntry::SkillRequired { level: facts.required_repair };
    }
    RepairEntry::Board
}

/// The effect of using a carried `item` when it is a broken gun, or `None`
/// when it is not one and the ordinary use applies.
pub fn use_broken_weapon(item: EntityId, facts: &WeaponFacts, player_level: i32, strings: &BoardStrings) -> (r:
    Option<Effect>)
    ensures
        match spec_repair_entry(*facts, player_level) {
            RepairEntry::NotRepairable => r is None,
            RepairEntry::Board => r == Some(Effect::OpenWeaponRepair { entity_id: item }),
            RepairEntry::SkillRequired { level } => r matches Some(Effect::ShowMessage { text })
                && text@ == replace_percent_d(strings.repair_skill_req@, decimal(level as int)),
        },
{
    match repair_entry(facts, player_level) {
        RepairEntry::NotRepairable => None,
        RepairEntry::Board => Some(Effect::OpenWeaponRepair { entity_id: item }),
        RepairEntry::SkillRequired { level } => Some(
            Effect::ShowMessage { text: fill_percent_d(strings.repair_skill_req.as_str(), level) },
        ),
    }
}

/// The gun the repair panel presents and the terms its board is played on,
/// pinned when the board is dealt: a lost board destroys the gun, and the
/// board must still show the loss.
#[derive(Clone, Copy, Debug)]
pub struct WeaponRepairSubject {
    pub gun: EntityId,
    pub terms: HackDiff,
}

/// The subject a board opened on `gun` now would be dealt for, or `None` when
/// a board is not what asking to repair it comes to.
pub fn repair_subject(gun: EntityId, facts: &WeaponFacts, player_level: i32) -> (r: Option<WeaponRepairSubject>)
    ensures
        spec_repair_entry(*facts, player_level) == RepairEntry::Board ==> (r matches Some(s) && s.gun == gun
            && Some(s.terms) == facts.repair_diff),
        spec_repair_entry(*facts, player_level) != RepairEntry::Board ==> r is None,
{
    if repair_entry(facts, player_level) != RepairEntry::Board {
        return None;
    }
    match facts.repair_diff {
        Some(terms) => Some(WeaponRepairSubject { gun, terms }),
        None => None,
    }
}

/// The repair board's state.
#[derive(Clone, Copy, Debug)]
pub struct WeaponRepairState {
    pub hack: HackState,
}

impl Default for WeaponRepairState {
    fn default() -> (s: WeaponRepairState)
        ensures
            is_fresh_board(s.hack),
    {
        WeaponRepairState { hack: HackState::default() }
    }
}

/// Input to the repair board.
#[derive(Clone, Copy, Debug)]
pub enum WeaponRepairMsg {
    Board(KeyPadMsg),
}

/// The panel that hosts the repair board.
pub struct WeaponRepairGui;

impl WeaponRepairGui {
    /// One host serves every gun, so its board never outlives the opening it
    /// was dealt for.
    pub fn resets_state_on_frob(&self) -> (r: bool)
        ensures
            r,
    {
        true
    }

    /// Every opening starts on a fresh, unpaid board.
    pub fn prepare_state_on_frob(&self, state: &mut WeaponRepairState)
        ensures
            is_fresh_board(final(state).hack),
    {
        *state = WeaponRepairState::default();
    }

    /// The board to draw: a gun that no longer exists was destroyed by a lost
    /// board, so it wears the lost face whatever the state says.
    pub fn board_to_draw(&self, state: &WeaponRepairState, gun_exists: bool) -> (r: HackState)
        ensures
            gun_exists ==> r == state.hack,
            !gun_exists ==> r == (HackState { phase: HackPhase::Lost, ..state.hack }),
    {
        if gun_exists {
            state.hack
        } else {
            HackState { phase: HackPhase::Lost, ..state.hack }
        }
    }

    /// Plays a board input against the pinned `subject`; `gun_now` is what the
    /// mission knows of that gun now (`None` once it is gone). Input is
    /// ignored without a subject and once the gun is no longer broken
    /// (repaired, or destroyed by a lost board).
    pub fn handle_msg(
        &self,
        state: &WeaponRepairState,
        msg: &WeaponRepairMsg,
        subject: Option<WeaponRepairSubject>,
        gun_now: Option<WeaponFacts>,
        chance: i32,
        mine_count: i32,
        payment: Option<Effect>,
        seed: u64,
    ) -> (r: (WeaponRepairState, Effect))
        ensures
            match subject {
                None => r.0.hack == state.hack && r.1 is NoEffect,
                Some(s) => if !(gun_now matches Some(f) && is_broken_gun(f)) {
                    r.0.hack == state.hack && r.1 is NoEffect
                } else {
                    *msg matches WeaponRepairMsg::Board(m) && exists|success: Effect, critical: Effect|
                        {
                            &&& combines(success, seq![
                                Effect::SetObjectState { entity_id: s.gun, state: ObjectState::Normal },
                                Effect::AdjustWeaponCondition { entity_id: s.gun, delta_points: REPAIR_CONDITION_BONUS },
                            ])
                            &&& critical == (Effect::DestroyEntity { entity_id: s.gun })
                            &&& board_step_holds(
                                s.gun,
                                state.hack,
                                m,
                                HrmContext::Repair,
                                chance,
                                mine_count,
                                payment,
                                seed,
                                success,
                                critical,
                                (r.0.hack, r.1),
                            )
                        }
                },
            },
    {
        let WeaponRepairMsg::Board(m) = msg;
        let Some(s) = subject else {
            return (*state, Effect::NoEffect);
        };
        let broken = match gun_now {
            Some(f) => f.has_gun_state && !f.is_psi_amp
                && matches!(f.object_state, ObjectState::Broken | ObjectState::Destroyed),
            None => false,
        };
        if !broken {
            return (*state, Effect::NoEffect);
        }
        let success = repair_success(s.gun);
        let critical = repair_critical_failure(s.gun);
        let ghost gs = success;
        let ghost gc = critical;
        let (hack, effect) = handle_hrm_msg(
            s.gun,
            &state.hack,
            m,
            HrmContext::Repair,
            chance,
            mine_count,
            payment,
            seed,
            success,
            critical,
        );
        let r = (WeaponRepairState { hack }, effect);
        assert(board_step_holds(s.gun, state.hack, *m, HrmContext::Repair, chance, mine_count, payment, seed, gs, gc, (r.0.hack, r.1)));
        r
    }
}

/// An item's inventory art: its broken icon while it has given out and
/// authors a non-empty one, its ordinary icon otherwise.
pub fn inventory_icon(object_state: ObjectState, broken_icon: Option<&str>, icon: Option<&str>) -> (r: Option<String>)
    ensures
        match broken_icon {
            Some(b) if is_out_of_order(object_state) && b@.len() > 0 => r matches Some(t) && t@ == b@,
            _ => match icon {
                Some(i) => r matches Some(t) && t@ == i@,
                None => r is None,
            },
        },
{
    if matches!(object_state, ObjectState::Broken | ObjectState::Destroyed) {
        if let Some(b) = broken_icon {
            if b.unicode_len() > 0 {
                return Some(String::from_str(b));
            }
        }
    }
    match icon {
        Some(i) => Some(String::from_str(i)),
        None => None,
    }
}

} // verus!
