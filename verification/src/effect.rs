//! The effects scripts and panels ask the mission to apply, and the entity
//! handle they name.
use vstd::prelude::*;

use crate::container::Handedness;
use crate::trainer::TrainerTarget;

verus! {

/// A live entity of the mission.
#[derive(Clone, Copy, Debug, PartialEq, Eq, Structural)]
pub struct EntityId(pub u64);

/// The persistent state of an object (`P$ObjState`).
#[derive(Clone, Copy, Debug, PartialEq, Eq, Structural)]
pub enum ObjectState {
    Normal,
    Broken,
    Destroyed,
    Hacked,
    Locked,
}

/// The named sounds the panels and scripts play.
#[derive(Clone, Copy, Debug, PartialEq, Eq, Structural)]
pub enum Sound {
    /// Refusal blip: an illegal move, or no nanites.
    Login,
    StartHack,
    HackSuccess,
    HackCritical,
    /// A node was played.
    Hacking,
    /// A keypad key press.
    KeypadPress,
    /// A keypad code was accepted.
    KeypadAccepted,
    /// A replicator refused a selection.
    ReplicatorFail,
}

impl Sound {
    /// The sound schema's name.
    pub fn name(&self) -> (r: &'static str)
        ensures
            r@ == sound_name(*self),
    {
        match self {
            Sound::Login => "login",
            Sound::StartHack => "start_hack",
            Sound::HackSuccess => "hack_success",
            Sound::HackCritical => "hack_critical",
            Sound::Hacking => "hacking",
            Sound::KeypadPress => "bkeypad",
            Sound::KeypadAccepted => "hacksucc",
            Sound::ReplicatorFail => "repfail",
        }
    }
}

/// The schema name of each sound.
pub open spec fn sound_name(sound: Sound) -> Seq<char> {
    match sound {
        Sound::Login => "login"@,
        Sound::StartHack => "start_hack"@,
        Sound::HackSuccess => "hack_success"@,
        Sound::HackCritical => "hack_critical"@,
        Sound::Hacking => "hacking"@,
        Sound::KeypadPress => "bkeypad"@,
        Sound::KeypadAccepted => "hacksucc"@,
        Sound::ReplicatorFail => "repfail"@,
    }
}

/// A message one object sends another.
#[derive(Clone, Copy, Debug, PartialEq, Eq, Structural)]
pub enum MessagePayload {
    TurnOn { from: EntityId },
    TurnOff { from: EntityId },
    Frob,
    Recharge,
    Collided { with: EntityId },
    SensorBeginIntersect { with: EntityId },
    SensorEndIntersect { with: EntityId },
    /// A hand ray over the object, holding `held` if anything.
    Hover { held: Option<EntityId> },
    /// The object was dropped from the player's inventory or implant slot.
    Drop,
}

/// An AI team.
#[derive(Clone, Copy, Debug, PartialEq, Eq, Structural)]
pub enum AITeam {
    Good,
    Neutral,
    Bad1,
    Bad2,
    Bad3,
    Bad4,
    Bad5,
}

/// The state a quest bit is set to.
#[derive(Clone, Copy, Debug, PartialEq, Eq, Structural)]
pub enum QuestBitValue {
    Unknown,
    Incomplete,
    Complete,
}

/// Which way a psi selection step walks: across tiers, or across the powers
/// of one tier.
#[derive(Clone, Copy, Debug, PartialEq, Eq, Structural)]
pub enum PsiSelectionAxis {
    Tier,
    Power,
}

/// How a level transition sets up the player's hit and psi points at the
/// destination.
#[derive(Clone, Copy, Debug, PartialEq, Eq, Structural)]
pub enum PlayerVitalsTransition {
    /// Carry the live pools over: deck changes, reloads, training years.
    Preserve,
    /// Derive fresh pools at the destination: the first career loadout.
    InitializeFromDestination,
}

/// Effects that reach past the current mission.
#[derive(Debug, PartialEq, Eq)]
pub enum GlobalEffect {
    /// Save the game to this file.
    Save { file_name: String },
    /// Load the game from this file.
    Load { file_name: String },
    /// Ride to another deck, arriving at the given location marker and
    /// triggering the named entities there.
    TransitionLevel {
        level_file: String,
        loc: Option<i32>,
        entities_to_trigger: Vec<String>,
        vitals_transition: PlayerVitalsTransition,
    },
    /// Save and load again at once.
    TestReload,
    /// Death with no reconstruction available: the game-over screen.
    GameOver,
    /// Play the ending and enter the campaign's terminal state.
    CompleteCampaign,
    /// Quit the game.
    Quit,
}

/// An effect for the mission to apply.
#[derive(Debug, PartialEq, Eq)]
pub enum Effect {
    NoEffect,
    Combined { effects: Vec<Effect> },
    Multiple(Vec<Effect>),
    GlobalEffect(GlobalEffect),
    PlaySound { source: Option<EntityId>, sound: Sound },
    AwardXP { amount: i32 },
    AdjustHitPoints { entity_id: EntityId, delta: i32 },
    AdjustStackCount { entity_id: EntityId, delta: i32 },
    RechargeAmmo { entity_id: EntityId, capacity: i32 },
    DestroyEntity { entity_id: EntityId },
    SlayEntity { entity_id: EntityId },
    ReplaceEntity { entity_id: EntityId, template_id: i32 },
    SetObjectState { entity_id: EntityId, state: ObjectState },
    Send { to: EntityId, payload: MessagePayload },
    ShowMessage { text: String },
    TrainerPurchase { target: TrainerTarget },
    AcquireOsTrait { trait_id: u8, machine: EntityId },
    SetPsiBrowsedTier { tier: i32 },
    SelectPsiPower { power_id: i32 },
    /// Move the psi selection one step along an axis.
    StepPsiSelection { axis: PsiSelectionAxis, forward: bool },
    UseHealingItem {
        entity_id: EntityId,
        total: i32,
        pulse: i32,
        first_pulse_ms: u32,
        pulse_interval_ms: u32,
    },
    ReplicatorPurchase { cost: i32, template_name: String, hopper: EntityId },
    SetGunSetting { entity_id: EntityId, setting: i32 },
    UnloadWeapon { entity_id: EntityId },
    ModifyWeapon { entity_id: EntityId, expected_level: i32 },
    /// Give a weapon back this many condition points.
    AdjustWeaponCondition { entity_id: EntityId, delta_points: i32 },
    OpenWeaponModify { entity_id: EntityId },
    OpenWeaponRepair { entity_id: EntityId },
    OpenResearchReports,
    SuspendResearch,
    BeginResearch { entity_id: EntityId },
    SetQuestBit { quest_bit_name: String, quest_bit_value: QuestBitValue },
    /// Move an entity into a container (the player's backpack).
    DropEntityInfo { parent_entity_id: EntityId, dropped_entity_id: EntityId },
    SetLocked { entity_id: EntityId, locked: bool },
    /// The player entered or left a radiation room.
    RadiationRoom { entity_id: EntityId, entered: bool },
    /// Use a toxin patch, removing this many tenths of a toxin level.
    UseToxinPatch { entity_id: EntityId, amount_tenths: i32 },
    /// Clear the player's toxin (or radiation) level.
    ClearHazard { toxin: bool },
    ClearEnvironmentalRadiation,
    ToggleHazardArmor { entity_id: EntityId },
    /// Put an entity into a hand.
    GrabEntity { entity_id: EntityId, hand: Handedness },
    /// Stand the station alarm down.
    ClearSecurityAlarm { from: EntityId },
    /// Keep the level's cameras from seeing the player for this many
    /// milliseconds.
    BlindSecurityCameras { ms: i32 },
    SetAITeam { entity_id: EntityId, team: AITeam },
    /// Play a sound by its schema name.
    PlayNamedSound { source: Option<EntityId>, name: String },
    /// Record a log as collected.
    CollectLog { entity_id: EntityId, deck: u32, log: u32 },
    /// Show a banner for this many milliseconds.
    ShowBanner { text: String, duration_ms: u32 },
    /// Play an object's `activate` environmental sound (chosen by its class
    /// tags) at its position.
    PlayActivateSound { source: EntityId },
}

/// The effects `e` applies, in order, with every grouping opened up and every
/// `NoEffect` dropped.
pub open spec fn flatten_one(e: Effect) -> Seq<Effect>
    decreases e,
{
    match e {
        Effect::NoEffect => seq![],
        Effect::Combined { effects } => flatten_seq(effects@),
        Effect::Multiple(effects) => flatten_seq(effects@),
        _ => seq![e],
    }
}

/// The effects a list applies, in order, as [`flatten_one`] opens them.
pub open spec fn flatten_seq(effects: Seq<Effect>) -> Seq<Effect>
    decreases effects,
{
    if effects.len() == 0 {
        seq![]
    } else {
        flatten_one(effects[0]) + flatten_seq(effects.drop_first())
    }
}

/// The effect playing `sound` from `entity_id`.
pub open spec fn sound_from(entity_id: EntityId, sound: Sound) -> Effect {
    Effect::PlaySound { source: Some(entity_id), sound }
}

/// Plays `sound` from `entity_id`.
pub fn play_sound(entity_id: EntityId, sound: Sound) -> (e: Effect)
    ensures
        e == sound_from(entity_id, sound),
{
    Effect::PlaySound { source: Some(entity_id), sound }
}

/// Whether `e` groups exactly `effects`, in order.
pub open spec fn combines(e: Effect, effects: Seq<Effect>) -> bool {
    e matches Effect::Combined { effects: inner } && inner@ == effects
}

/// Groups two effects, applied in order.
pub fn combine_two(first: Effect, second: Effect) -> (e: Effect)
    ensures
        combines(e, seq![first, second]),
{
    let mut effects = Vec::new();
    effects.push(first);
    effects.push(second);
    assert(effects@ =~= seq![first, second]);
    Effect::Combined { effects }
}

impl Effect {
    /// Groups effects to be applied together, in order.
    pub fn combine(effects: Vec<Effect>) -> (e: Effect)
        ensures
            e == (Effect::Combined { effects }),
    {
        Effect::Combined { effects }
    }

    /// The plain effects of a list, in order: groupings are opened up
    /// recursively and `NoEffect` is dropped.
    pub fn flatten(effects: Vec<Effect>) -> (r: Vec<Effect>)
        ensures
            r@ == flatten_seq(effects@),
        decreases effects@,
    {
        let ghost original = effects@;
        let mut rest = effects;
        let mut ret: Vec<Effect> = Vec::new();
        while rest.len() > 0
            invariant
                original == effects@,
                ret@ + flatten_seq(rest@) == flatten_seq(original),
                forall|k: int| 0 <= k < rest@.len() ==> decreases_to!(original => #[trigger] rest@[k]),
            decreases rest.len(),
        {
            let ghost before = rest@;
            let v = rest.remove(0);
            assert(before.drop_first() =~= rest@);
            assert(decreases_to!(original => v));
            assert forall|k: int| 0 <= k < rest@.len() implies decreases_to!(original => #[trigger] rest@[k]) by {
                assert(rest@[k] == before[k + 1]);
            }
            let ghost gv = v;
            match v {
                Effect::NoEffect => {
                    assert(ret@ + seq![] == ret@);
                },
                Effect::Multiple(inner) => {
                    assert(decreases_to!(gv => inner));
                    assert(decreases_to!(inner => inner@));
                    assert(decreases_to!(original => inner@));
                    let mut flat = Self::flatten(inner);
                    let ghost old_ret = ret@;
                    ret.append(&mut flat);
                    assert(ret@ + flatten_seq(rest@) =~= old_ret + (flatten_one(before[0]) + flatten_seq(before.drop_first())));
                },
                Effect::Combined { effects: inner } => {
                    assert(decreases_to!(gv => inner));
                    assert(decreases_to!(inner => inner@));
                    assert(decreases_to!(original => inner@));
                    let mut flat = Self::flatten(inner);
                    let ghost old_ret = ret@;
                    ret.append(&mut flat);
                    assert(ret@ + flatten_seq(rest@) =~= old_ret + (flatten_one(before[0]) + flatten_seq(before.drop_first())));
                },
                _ => {
                    let ghost old_ret = ret@;
                    ret.push(v);
                    assert(ret@ + flatten_seq(rest@) =~= old_ret + (flatten_one(before[0]) + flatten_seq(before.drop_first())));
                },
            }
        }
        assert(ret@ + seq![] =~= ret@);
        ret
    }
}

} // verus!
