//! The panels that host an HRM board: security consoles and turrets (the
//! shared hack board), computers, security crates and replicators. Each
//! starts a fresh board when it is opened, refuses objects that are broken or
//! already hacked, and says what winning and losing do to the object.
use vstd::prelude::*;
use vstd::hash_map::StringHashMap;

use crate::container::{spec_panel_effect, ContainerGui, ContainerGuiMsg, ContainerGuiState, ItemFacts};
use crate::scripts::{lower_ascii, to_ascii_lowercase};
use crate::effect::{
    combine_two, combines, play_sound, sound_from, AITeam, Effect, EntityId, MessagePayload, ObjectState, Sound,
};
use crate::hrm::{
    board_step_holds, handle_hrm_msg, hack_shape, HackDiff, HackPhase, HackState, HrmContext,
    KeyPadMsg,
};

verus! {

/// Whether an object has given out: broken or destroyed.
pub open spec fn is_out_of_order(state: ObjectState) -> bool {
    state is Broken || state is Destroyed
}

/// A state that holds an unpaid hacking board and nothing else of note.
pub open spec fn is_fresh_board(hack: HackState) -> bool {
    hack.phase == HackPhase::Unpaid && hack.nodes@ == hack_shape() && hack.rng_state == 0
}

/// The state of the shared hack board (security consoles, turrets).
#[derive(Clone, Copy, Debug)]
pub struct HackBoardState {
    pub hack: HackState,
}

impl Default for HackBoardState {
    fn default() -> (s: HackBoardState)
        ensures
            is_fresh_board(s.hack),
    {
        HackBoardState { hack: HackState::default() }
    }
}

/// A message to the shared hack board.
#[derive(Clone, Copy, Debug)]
pub enum HackBoardMsg {
    Hack(KeyPadMsg),
}

/// The panel every device hacked on the HRM board shows; the device supplies
/// what winning does and whether it offers a board at all.
pub struct HackBoardGui;

impl HackBoardGui {
    /// A board in progress survives closing and reopening the panel; any other
    /// board (won, lost, unpaid) starts over.
    pub fn prepare_state_on_frob(&self, state: &mut HackBoardState)
        ensures
            old(state).hack.phase == HackPhase::Playing ==> *final(state) == *old(state),
            old(state).hack.phase != HackPhase::Playing ==> is_fresh_board(final(state).hack),
    {
        if state.hack.phase != HackPhase::Playing {
            *state = HackBoardState::default();
        }
    }

    /// Frobbing opens the board on a device that is neither broken nor
    /// destroyed, authors hack terms, and (by its own rule) offers a board.
    pub fn opens_on_frob(&self, object_state: ObjectState, has_hack_diff: bool, is_offered: bool) -> (r: bool)
        ensures
            r == (!is_out_of_order(object_state) && has_hack_diff && is_offered),
    {
        !matches!(object_state, ObjectState::Broken | ObjectState::Destroyed) && has_hack_diff
            && is_offered
    }

    /// Plays a board input for a device; a device without hack terms ignores
    /// it. The roll is made at a security console when `security_computer`.
    pub fn handle_msg(
        &self,
        entity_id: EntityId,
        state: &HackBoardState,
        msg: &HackBoardMsg,
        diff: Option<HackDiff>,
        security_computer: bool,
        chance: i32,
        mine_count: i32,
        payment: Option<Effect>,
        seed: u64,
        success: Effect,
        critical_failure: Effect,
    ) -> (r: (HackBoardState, Effect))
        ensures
            diff is None ==> r.0 == *state && r.1 is NoEffect,
            diff is Some ==> (msg matches HackBoardMsg::Hack(m) && board_step_holds(
                entity_id,
                state.hack,
                *m,
                HrmContext::Hack { security_computer },
                chance,
                mine_count,
                payment,
                seed,
                success,
                critical_failure,
                (r.0.hack, r.1),
            )),
    {
        if diff.is_none() {
            return (*state, Effect::NoEffect);
        }
        let HackBoardMsg::Hack(m) = msg;
        let (hack, effect) = handle_hrm_msg(
            entity_id,
            &state.hack,
            m,
            HrmContext::Hack { security_computer },
            chance,
            mine_count,
            payment,
            seed,
            success,
            critical_failure,
        );
        (HackBoardState { hack }, effect)
    }
}

/// A critical failure breaks the hacked object for good.
pub fn break_on_critical_failure(entity_id: EntityId) -> (e: Effect)
    ensures
        e == (Effect::SetObjectState { entity_id, state: ObjectState::Broken }),
{
    Effect::SetObjectState { entity_id, state: ObjectState::Broken }
}

/// The state of a computer's panel.
#[derive(Clone, Copy, Debug)]
pub struct ComputerState {
    pub hack: HackState,
}

impl Default for ComputerState {
    fn default() -> (s: ComputerState)
        ensures
            is_fresh_board(s.hack),
    {
        ComputerState { hack: HackState::default() }
    }
}

/// A message to a computer's panel.
#[derive(Clone, Copy, Debug)]
pub enum ComputerMsg {
    Hack(KeyPadMsg),
}

/// A computer's hacking panel.
pub struct ComputerGui;

/// What winning a computer's board does: every `Hacking` link is switched on,
/// then the computer is replaced by its authored hacked `Corpse` when it has
/// one, or otherwise persistently marked hacked.
pub open spec fn computer_success_effects(
    entity_id: EntityId,
    hacking_links: Seq<EntityId>,
    hacked_replacement: Option<i32>,
) -> Seq<Effect> {
    Seq::new(
        hacking_links.len(),
        |i: int| Effect::Send { to: hacking_links[i], payload: MessagePayload::TurnOn { from: entity_id } },
    ).push(
        match hacked_replacement {
            Some(template_id) => Effect::ReplaceEntity { entity_id, template_id },
            None => Effect::SetObjectState { entity_id, state: ObjectState::Hacked },
        },
    )
}

/// What winning a computer's board does; see [`computer_success_effects`].
pub fn computer_hack_success(
    entity_id: EntityId,
    hacking_links: &Vec<EntityId>,
    hacked_replacement: Option<i32>,
) -> (e: Effect)
    ensures
        combines(e, computer_success_effects(entity_id, hacking_links@, hacked_replacement)),
{
    let mut effects: Vec<Effect> = Vec::new();
    let mut i: usize = 0;
    while i < hacking_links.len()
        invariant
            i <= hacking_links.len(),
            effects@ =~= Seq::new(
                i as nat,
                |k: int| Effect::Send { to: hacking_links@[k], payload: MessagePayload::TurnOn { from: entity_id } },
            ),
        decreases hacking_links.len() - i,
    {
        effects.push(Effect::Send { to: hacking_links[i], payload: MessagePayload::TurnOn { from: entity_id } });
        i += 1;
    }
    effects.push(
        match hacked_replacement {
            Some(template_id) => Effect::ReplaceEntity { entity_id, template_id },
            None => Effect::SetObjectState { entity_id, state: ObjectState::Hacked },
        },
    );
    assert(effects@ =~= computer_success_effects(entity_id, hacking_links@, hacked_replacement));
    Effect::Combined { effects }
}

/// What losing a computer's board does: the computer breaks for good.
pub fn computer_hack_critical_failure(entity_id: EntityId) -> (e: Effect)
    ensures
        e == (Effect::SetObjectState { entity_id, state: ObjectState::Broken }),
{
    break_on_critical_failure(entity_id)
}

impl ComputerGui {
    /// A computer can be hacked unless it is broken, destroyed or already
    /// hacked, and only when it authors hack terms.
    pub fn opens_on_frob(&self, object_state: ObjectState, has_hack_diff: bool) -> (r: bool)
        ensures
            r == (!(is_out_of_order(object_state) || object_state is Hacked) && has_hack_diff),
    {
        !matches!(object_state, ObjectState::Broken | ObjectState::Destroyed | ObjectState::Hacked)
            && has_hack_diff
    }

    /// Only a board in progress survives reopening.
    pub fn prepare_state_on_frob(&self, state: &mut ComputerState)
        ensures
            old(state).hack.phase == HackPhase::Playing ==> *final(state) == *old(state),
            old(state).hack.phase != HackPhase::Playing ==> is_fresh_board(final(state).hack),
    {
        if state.hack.phase != HackPhase::Playing {
            *state = ComputerState::default();
        }
    }

    /// Plays a board input; a computer without hack terms ignores it.
    pub fn handle_msg(
        &self,
        entity_id: EntityId,
        state: &ComputerState,
        msg: &ComputerMsg,
        diff: Option<HackDiff>,
        chance: i32,
        mine_count: i32,
        payment: Option<Effect>,
        seed: u64,
        success: Effect,
        critical_failure: Effect,
    ) -> (r: (ComputerState, Effect))
        ensures
            diff is None ==> r.0 == *state && r.1 is NoEffect,
            diff is Some ==> (msg matches ComputerMsg::Hack(m) && board_step_holds(
                entity_id,
                state.hack,
                *m,
                HrmContext::Hack { security_computer: false },
                chance,
                mine_count,
                payment,
                seed,
                success,
                critical_failure,
                (r.0.hack, r.1),
            )),
    {
        if diff.is_none() {
            return (*state, Effect::NoEffect);
        }
        let ComputerMsg::Hack(m) = msg;
        let (hack, effect) = handle_hrm_msg(
            entity_id,
            &state.hack,
            m,
            HrmContext::Hack { security_computer: false },
            chance,
            mine_count,
            payment,
            seed,
            success,
            critical_failure,
        );
        (ComputerState { hack }, effect)
    }
}


impl HackBoardGui {
    pub fn new() -> (r: HackBoardGui) {
        HackBoardGui
    }
}

/// What the Security Expert trait is worth at a security console, and
/// nowhere else.
pub const SECURITY_EXPERT_HACK_BONUS: i32 = 2;

/// The station's security console, hacked on the shared board: winning
/// stands the alarm down and blinds the cameras for the console's authored
/// hack time.
pub struct SecurityConsole;

impl SecurityConsole {
    /// The console's worth in Hack skill: the Security Expert bonus when the
    /// player has the trait.
    pub fn skill_bonus(has_security_expert: bool) -> (r: i32)
        ensures
            r == if has_security_expert {
                SECURITY_EXPERT_HACK_BONUS
            } else {
                0
            },
    {
        if has_security_expert {
            SECURITY_EXPERT_HACK_BONUS
        } else {
            0
        }
    }

    /// A won console: the alarm stands down, and the cameras are blind for
    /// the authored hack time (none without one).
    pub fn on_success(entity_id: EntityId, hack_time_ms: Option<i32>) -> (e: Effect)
        ensures
            combines(
                e,
                seq![
                    Effect::ClearSecurityAlarm { from: entity_id },
                    Effect::BlindSecurityCameras {
                        ms: match hack_time_ms {
                            Some(t) => t,
                            None => 0,
                        },
                    },
                ],
            ),
    {
        let ms = match hack_time_ms {
            Some(t) => t,
            None => 0,
        };
        let e = combine_two(Effect::ClearSecurityAlarm { from: entity_id }, Effect::BlindSecurityCameras { ms });
        assert(seq![Effect::ClearSecurityAlarm { from: entity_id }, Effect::BlindSecurityCameras { ms }] =~= seq![
            Effect::ClearSecurityAlarm { from: entity_id },
            Effect::BlindSecurityCameras {
                ms: match hack_time_ms {
                    Some(t) => t,
                    None => 0,
                },
            },
        ]);
        e
    }
}

/// A turret, hacked on the shared board: winning moves it onto the player's
/// team, and a turret already there offers no board.
pub struct HackableTurret;

/// The player's AI team.
pub const PLAYER_TEAM: AITeam = AITeam::Good;

impl HackableTurret {
    /// A won turret joins the player's team.
    pub fn on_success(entity_id: EntityId) -> (e: Effect)
        ensures
            e == (Effect::SetAITeam { entity_id, team: PLAYER_TEAM }),
    {
        Effect::SetAITeam { entity_id, team: PLAYER_TEAM }
    }

    /// Only a turret not yet on the player's team offers a board.
    pub fn is_offered(team: AITeam) -> (r: bool)
        ensures
            r == (team != PLAYER_TEAM),
    {
        team != PLAYER_TEAM
    }
}

/// A security crate: hacked open on the board while locked, a loot panel
/// once open, finished for good once a lost board ruins it.
pub struct HackableCrateGui {
    pub loot: ContainerGui,
}

impl HackableCrateGui {
    pub fn new() -> (r: HackableCrateGui)
        ensures
            r.loot.take_on_click && !r.loot.require_lootable_creature,
    {
        HackableCrateGui { loot: ContainerGui::loot_container() }
    }
}

/// The crate panel's state: its board and its loot panel's.
#[derive(Clone, Copy, Debug)]
pub struct HackableCrateState {
    pub hack: HackState,
    pub loot: ContainerGuiState,
}

impl Default for HackableCrateState {
    fn default() -> (s: HackableCrateState)
        ensures
            is_fresh_board(s.hack),
    {
        HackableCrateState { hack: HackState::default(), loot: ContainerGuiState {} }
    }
}

/// Input to the crate panel.
#[derive(Clone, Copy, Debug)]
pub enum HackableCrateMsg {
    Hack(KeyPadMsg),
    Loot(ContainerGuiMsg),
}

/// A crate still sealed behind a hack: locked, with terms to hack against.
pub open spec fn crate_can_hack(state: ObjectState, has_diff: bool) -> bool {
    state == ObjectState::Locked && has_diff
}

/// A crate whose contents are reachable: neither ruined nor sealed.
pub open spec fn crate_is_open(state: ObjectState, has_diff: bool) -> bool {
    !is_out_of_order(state) && !crate_can_hack(state, has_diff)
}

impl HackableCrateGui {
    /// A ruined crate does not open at all.
    pub fn opens_on_frob(&self, object_state: ObjectState) -> (r: bool)
        ensures
            r == !is_out_of_order(object_state),
    {
        !matches!(object_state, ObjectState::Broken | ObjectState::Destroyed)
    }

    /// What the panel presents: the loot panel once the crate is open (a
    /// locked crate without hack terms counts as open), the board otherwise.
    pub fn shows_loot(&self, object_state: ObjectState, has_diff: bool) -> (r: bool)
        ensures
            r == crate_is_open(object_state, has_diff),
    {
        !matches!(object_state, ObjectState::Broken | ObjectState::Destroyed)
            && !(object_state == ObjectState::Locked && has_diff)
    }

    /// The board to draw: a ruined crate wears the lost face whatever the
    /// state says (the phase does not survive a save; the object state does).
    pub fn board_to_draw(&self, state: &HackableCrateState, object_state: ObjectState) -> (r: HackState)
        ensures
            is_out_of_order(object_state) ==> r == (HackState { phase: HackPhase::Lost, ..state.hack }),
            !is_out_of_order(object_state) ==> r == state.hack,
    {
        if matches!(object_state, ObjectState::Broken | ObjectState::Destroyed) {
            HackState { phase: HackPhase::Lost, ..state.hack }
        } else {
            state.hack
        }
    }

    /// A crate input. Board input plays only while the crate can be hacked
    /// (winning marks it hacked, losing ruins it); loot input only counts
    /// once it is open, and goes to its loot panel.
    pub fn handle_msg(
        &self,
        entity_id: EntityId,
        state: &HackableCrateState,
        msg: &HackableCrateMsg,
        object_state: ObjectState,
        diff: Option<HackDiff>,
        chance: i32,
        mine_count: i32,
        payment: Option<Effect>,
        seed: u64,
        item: ItemFacts,
        backpack: Option<EntityId>,
        use_carried: Effect,
    ) -> (r: (HackableCrateState, Effect))
        ensures
            match *msg {
                HackableCrateMsg::Hack(m) => if crate_can_hack(object_state, diff is Some) {
                    board_step_holds(
                        entity_id,
                        state.hack,
                        m,
                        HrmContext::Hack { security_computer: false },
                        chance,
                        mine_count,
                        payment,
                        seed,
                        Effect::SetObjectState { entity_id, state: ObjectState::Hacked },
                        Effect::SetObjectState { entity_id, state: ObjectState::Broken },
                        (r.0.hack, r.1),
                    )
                } else {
                    r.0.hack == state.hack && r.1 is NoEffect
                },
                HackableCrateMsg::Loot(m) => {
                    &&& r.0.hack == state.hack
                    &&& !crate_is_open(object_state, diff is Some) ==> r.1 is NoEffect
                    &&& crate_is_open(object_state, diff is Some) ==> r.1 == spec_panel_effect(m, item, backpack, use_carried)
                },
            },
    {
        match msg {
            HackableCrateMsg::Hack(m) => {
                let can_hack = object_state == ObjectState::Locked && diff.is_some();
                if !can_hack {
                    return (*state, Effect::NoEffect);
                }
                let (hack, effect) = handle_hrm_msg(
                    entity_id,
                    &state.hack,
                    m,
                    HrmContext::Hack { security_computer: false },
                    chance,
                    mine_count,
                    payment,
                    seed,
                    Effect::SetObjectState { entity_id, state: ObjectState::Hacked },
                    Effect::SetObjectState { entity_id, state: ObjectState::Broken },
                );
                (HackableCrateState { hack, ..*state }, effect)
            },
            HackableCrateMsg::Loot(m) => {
                let ruined = matches!(object_state, ObjectState::Broken | ObjectState::Destroyed);
                let sealed = object_state == ObjectState::Locked && diff.is_some();
                if ruined || sealed {
                    return (*state, Effect::NoEffect);
                }
                let (loot, effect) = self.loot.handle_msg(&state.loot, m, item, backpack, use_carried);
                (HackableCrateState { loot, ..*state }, effect)
            },
        }
    }

    /// An item released onto the crate. A free-hack tool (an ICE pick) on a
    /// crate that can be hacked opens it and is used up; anything else
    /// offered to a sealed or ruined crate is refused (`Some(NoEffect)`), and
    /// an open crate takes the ordinary deposit (`None`).
    pub fn on_provide_for_consumption(
        &self,
        entity_id: EntityId,
        object_state: ObjectState,
        has_diff: bool,
        provided: EntityId,
        provided_is_free_hack: bool,
    ) -> (r: Option<Effect>)
        ensures
            (crate_can_hack(object_state, has_diff) && provided_is_free_hack) ==> (r matches Some(e) && combines(
                e,
                seq![
                    Effect::SetObjectState { entity_id, state: ObjectState::Hacked },
                    Effect::DestroyEntity { entity_id: provided },
                    sound_from(entity_id, Sound::HackSuccess),
                ],
            )),
            !(crate_can_hack(object_state, has_diff) && provided_is_free_hack) ==> r == if crate_is_open(
                object_state,
                has_diff,
            ) {
                None
            } else {
                Some(Effect::NoEffect)
            },
    {
        let can_hack = object_state == ObjectState::Locked && has_diff;
        if can_hack && provided_is_free_hack {
            let opened = Effect::SetObjectState { entity_id, state: ObjectState::Hacked };
            let used = Effect::DestroyEntity { entity_id: provided };
            let chime = play_sound(entity_id, Sound::HackSuccess);
            let ghost g = seq![opened, used, chime];
            let mut effects: Vec<Effect> = Vec::new();
            effects.push(opened);
            effects.push(used);
            effects.push(chime);
            assert(effects@ =~= g);
            return Some(Effect::Combined { effects });
        }
        let ruined = matches!(object_state, ObjectState::Broken | ObjectState::Destroyed);
        if ruined || can_hack {
            Some(Effect::NoEffect)
        } else {
            None
        }
    }
}

/// The computer instructions shown when an object authors none.
pub const FALLBACK_HACK_TEXT: &'static str = "Complete the circuit to hack this computer.";

/// The computers' instruction strings (`hacktext.str`), keyed in lower case.
pub struct ComputerContext {
    pub hack_text: StringHashMap<String>,
}

impl ComputerContext {
    /// The table entry for an authored key, looked up in lower case.
    pub fn resolve(&self, key: &str) -> (r: Option<String>)
        ensures
            ({
                let k = key@.map_values(|c: char| lower_ascii(c));
                match r {
                    Some(t) => self.hack_text@.contains_key(k) && t@ == self.hack_text@[k]@,
                    None => !self.hack_text@.contains_key(k),
                }
            }),
    {
        let lowered = to_ascii_lowercase(key);
        match self.hack_text.get(lowered.as_str()) {
            Some(t) => Some(t.clone()),
            None => None,
        }
    }
}

/// The instructions a computer's board shows: its authored key resolved in
/// the table (the key itself when the table lacks it, or there is no table),
/// or the stock line when it authors none.
pub fn authored_hack_text(key: Option<&str>, context: Option<&ComputerContext>) -> (r: String)
    ensures
        match key {
            None => r@ == FALLBACK_HACK_TEXT@,
            Some(k) => {
                let lk = k@.map_values(|c: char| lower_ascii(c));
                match context {
                    Some(ctx) if ctx.hack_text@.contains_key(lk) => r@ == ctx.hack_text@[lk]@,
                    _ => r@ == k@,
                }
            },
        },
{
    let Some(k) = key else {
        return String::from_str(FALLBACK_HACK_TEXT);
    };
    match context {
        Some(ctx) => match ctx.resolve(k) {
            Some(t) => t,
            None => String::from_str(k),
        },
        None => String::from_str(k),
    }
}

/// Which face of the replicator is showing.
#[derive(Clone, Copy, Debug, PartialEq, Eq, Structural)]
pub enum ReplicatorPanel {
    Inventory,
    Hacking,
}

/// The replicator panel: its feedback line, its face, and its board.
#[derive(Debug)]
pub struct ReplicatorState {
    pub message: Option<String>,
    pub panel: ReplicatorPanel,
    pub hack: HackState,
}

impl Default for ReplicatorState {
    /// The inventory face with no feedback and an unpaid board.
    fn default() -> (s: ReplicatorState)
        ensures
            s.message is None,
            s.panel == ReplicatorPanel::Inventory,
            is_fresh_board(s.hack),
    {
        ReplicatorState { message: None, panel: ReplicatorPanel::Inventory, hack: HackState::default() }
    }
}

/// A message to the replicator panel.
#[derive(Clone, Copy, Debug)]
pub enum ReplicatorMsg {
    SelectItem(usize),
    OpenHack,
    Hack(KeyPadMsg),
}

/// What a replicator sells: six slots of archetype names and prices.
#[derive(Debug)]
pub struct ReplicatorInventory {
    pub costs: [i32; 6],
    pub object_names: Vec<String>,
}

/// The inventory a replicator offers: none while it is broken or destroyed,
/// its hacked inventory once hacked, its ordinary one otherwise.
pub fn active_inventory(
    object_state: ObjectState,
    contents: Option<ReplicatorInventory>,
    hacked_contents: Option<ReplicatorInventory>,
) -> (r: Option<ReplicatorInventory>)
    ensures
        r == (if is_out_of_order(object_state) {
            None
        } else if object_state is Hacked {
            hacked_contents
        } else {
            contents
        }),
{
    match object_state {
        ObjectState::Broken | ObjectState::Destroyed => None,
        ObjectState::Hacked => hacked_contents,
        _ => contents,
    }
}

/// A replicator can be hacked unless it is broken, destroyed or already
/// hacked, and only when it authors hack terms and a hacked inventory.
pub fn replicator_can_hack(object_state: ObjectState, has_hack_diff: bool, has_hacked_contents: bool) -> (r: bool)
    ensures
        r == (!(is_out_of_order(object_state) || object_state is Hacked) && has_hack_diff
            && has_hacked_contents),
{
    !matches!(object_state, ObjectState::Broken | ObjectState::Destroyed | ObjectState::Hacked)
        && has_hack_diff && has_hacked_contents
}

/// Where the replicator's main face starts: pushed right of the plug (73
/// px) while a plug shows, that is while it can be hacked or is broken.
pub fn replicator_main_x(can_hack: bool, broken: bool) -> (r: i32)
    ensures
        r == if can_hack || broken {
            73i32
        } else {
            0i32
        },
{
    if can_hack || broken {
        73
    } else {
        0
    }
}

/// Whether an inventory row shows: it names an object, its authored cost is
/// positive, and so is what it costs the player.
pub fn replicator_row_shown(object_name: &str, authored_cost: i32, effective_cost: i32) -> (r: bool)
    ensures
        r == (object_name@.len() > 0 && authored_cost > 0 && effective_cost > 0),
{
    object_name.unicode_len() > 0 && authored_cost > 0 && effective_cost > 0
}

/// The top edge of inventory row `i`: rows 60 px tall, 4 px apart, from 10.
pub fn replicator_row_y(i: usize) -> (r: i32)
    requires
        i < 1000,
    ensures
        r == 10 + 64 * i,
{
    10 + 64 * i as i32
}

/// The automation label of a row: `buy:<object>`.
pub fn buy_label(object_name: &str) -> (r: String)
    ensures
        r@ == "buy:"@ + object_name@,
{
    let mut label = String::from_str("buy:");
    label.append(object_name);
    label
}

/// The price under a row's icon, in three digits.
pub fn price_text(cost: i32) -> (r: String)
    ensures
        r@ == crate::text::zero_padded(cost as int, 3),
{
    crate::text::zero_padded_string(cost as i64, 3)
}

/// The player's nanites beside the art's label, in four digits.
pub fn nanite_text(nanites: i32) -> (r: String)
    ensures
        r@ == crate::text::zero_padded(nanites as int, 4),
{
    crate::text::zero_padded_string(nanites as i64, 4)
}

/// The line under the rows: the broken and offline notices first, the
/// panel's feedback otherwise.
pub fn replicator_status(broken: bool, offline: bool, feedback: Option<&str>) -> (r: Option<String>)
    ensures
        broken ==> (r matches Some(t) && t@ == "Replicator broken; repair required"@),
        !broken && offline ==> (r matches Some(t) && t@ == "Replicator offline"@),
        !broken && !offline ==> match feedback {
            Some(f) => r matches Some(t) && t@ == f@,
            None => r is None,
        },
{
    if broken {
        Some(String::from_str("Replicator broken; repair required"))
    } else if offline {
        Some(String::from_str("Replicator offline"))
    } else {
        match feedback {
            Some(f) => Some(String::from_str(f)),
            None => None,
        }
    }
}

/// The plug beside the replicator: the hack plug (with its button) while it
/// can be hacked, the repair art (no button: repair is not offered) while it
/// is broken, nothing otherwise.
pub fn replicator_plug(can_hack: bool, broken: bool) -> (r: Option<(crate::layout::PlugKind, bool)>)
    ensures
        can_hack ==> r == Some((crate::layout::PlugKind::Hack, true)),
        !can_hack && broken ==> r == Some((crate::layout::PlugKind::Repair, false)),
        !can_hack && !broken ==> r is None,
{
    if can_hack {
        Some((crate::layout::PlugKind::Hack, true))
    } else if broken {
        Some((crate::layout::PlugKind::Repair, false))
    } else {
        None
    }
}

/// Winning a replicator's board persistently unlocks its hacked inventory.
pub fn replicator_hack_success(entity_id: EntityId) -> (e: Effect)
    ensures
        e == (Effect::SetObjectState { entity_id, state: ObjectState::Hacked }),
{
    Effect::SetObjectState { entity_id, state: ObjectState::Hacked }
}

/// Losing a replicator's board breaks it for good.
pub fn replicator_hack_critical_failure(entity_id: EntityId) -> (e: Effect)
    ensures
        e == (Effect::SetObjectState { entity_id, state: ObjectState::Broken }),
{
    break_on_critical_failure(entity_id)
}

/// `value / 10`, rounded toward zero as integer division does.
pub open spec fn div10_toward_zero(value: int) -> int {
    if value >= 0 { value / 10 } else { -((-value) / 10) }
}

/// The price charged: Replicator Expert takes an integer 20% off (rounding
/// toward zero, computed without overflow), otherwise the authored price.
pub open spec fn spec_replicator_cost(authored_cost: i32, replicator_expert: bool) -> int {
    if replicator_expert { div10_toward_zero(authored_cost * 8) } else { authored_cost as int }
}

/// The price of a replicator item, shared by the display and the purchase so
/// they cannot disagree.
pub fn effective_replicator_cost(authored_cost: i32, replicator_expert: bool) -> (r: i32)
    ensures
        r == spec_replicator_cost(authored_cost, replicator_expert),
{
    if replicator_expert {
        let scaled = authored_cost as i64 * 8;
        let tenth = if scaled >= 0 {
            scaled / 10
        } else {
            -((-scaled) / 10)
        };
        tenth as i32
    } else {
        authored_cost
    }
}

/// The text of a feedback line.
pub open spec fn message_is(message: Option<String>, text: Seq<char>) -> bool {
    message matches Some(m) && m@ == text
}

/// The replicator's panel.
pub struct ReplicatorGui;

impl ReplicatorGui {
    /// Only a paid board in progress on the hacking face survives reopening;
    /// anything else reopens on the inventory.
    pub fn prepare_state_on_frob(&self, state: &mut ReplicatorState)
        ensures
            old(state).panel == ReplicatorPanel::Hacking && old(state).hack.phase == HackPhase::Playing
                ==> *final(state) == *old(state),
            !(old(state).panel == ReplicatorPanel::Hacking && old(state).hack.phase == HackPhase::Playing)
                ==> (final(state).message is None && final(state).panel == ReplicatorPanel::Inventory
                && is_fresh_board(final(state).hack)),
    {
        if state.panel != ReplicatorPanel::Hacking || state.hack.phase != HackPhase::Playing {
            *state = ReplicatorState::default();
        }
    }

    /// Buying the item in `slot`. `inventory` is the active inventory,
    /// `nanites` what the player holds, `hopper` the replicator's output
    /// marker (its `Replicator` link).
    ///
    /// With no inventory the replicator is offline. An empty or unpriced slot
    /// is unavailable; so is one whose discounted price comes to nothing
    /// (the refusal chime plays). A price the player cannot meet is refused
    /// with the chime. Without a hopper the replicator is offline. Otherwise
    /// the feedback clears and the item is bought at the discounted price.
    pub fn select_item(
        &self,
        entity_id: EntityId,
        state: ReplicatorState,
        slot: usize,
        inventory: Option<ReplicatorInventory>,
        replicator_expert: bool,
        nanites: i32,
        hopper: Option<EntityId>,
    ) -> (r: (ReplicatorState, Effect))
        requires
            inventory matches Some(inv) ==> inv.object_names.len() == 6,
        ensures
            r.0.panel == state.panel,
            r.0.hack == state.hack,
            match inventory {
                None => message_is(r.0.message, "Replicator offline"@) && r.1 is NoEffect,
                Some(inv) => {
                    let name = inv.object_names@[slot as int];
                    let authored = inv.costs[slot as int];
                    let cost = spec_replicator_cost(authored, replicator_expert);
                    if slot >= 6 || name@.len() == 0 || authored <= 0 {
                        message_is(r.0.message, "Item unavailable"@) && r.1 is NoEffect
                    } else if cost <= 0 {
                        message_is(r.0.message, "Item unavailable"@) && r.1 == sound_from(
                            entity_id,
                            Sound::ReplicatorFail,
                        )
                    } else if nanites < cost {
                        message_is(r.0.message, "Insufficient nanites"@) && r.1 == sound_from(
                            entity_id,
                            Sound::ReplicatorFail,
                        )
                    } else if hopper is None {
                        message_is(r.0.message, "Replicator offline"@) && r.1 is NoEffect
                    } else {
                        &&& r.0.message is None
                        &&& r.1 matches Effect::ReplicatorPurchase { cost: c, template_name: t, hopper: h }
                        &&& c == cost && t@ == name@ && Some(h) == hopper
                    }
                },
            },
    {
        let ReplicatorState { message: _, panel, hack } = state;
        let Some(contents) = inventory else {
            return (ReplicatorState { message: Some(String::from_str("Replicator offline")), panel, hack }, Effect::NoEffect);
        };
        let ReplicatorInventory { costs, object_names } = contents;
        let mut object_names = object_names;
        if slot >= 6 || object_names[slot].as_str().unicode_len() == 0 || costs[slot] <= 0 {
            return (ReplicatorState { message: Some(String::from_str("Item unavailable")), panel, hack }, Effect::NoEffect);
        }
        let cost = effective_replicator_cost(costs[slot], replicator_expert);
        if cost <= 0 {
            return (
                ReplicatorState { message: Some(String::from_str("Item unavailable")), panel, hack },
                play_sound(entity_id, Sound::ReplicatorFail),
            );
        }
        if nanites < cost {
            return (
                ReplicatorState { message: Some(String::from_str("Insufficient nanites")), panel, hack },
                play_sound(entity_id, Sound::ReplicatorFail),
            );
        }
        let Some(link) = hopper else {
            return (ReplicatorState { message: Some(String::from_str("Replicator offline")), panel, hack }, Effect::NoEffect);
        };
        let template_name = object_names.remove(slot);
        (
            ReplicatorState { message: None, panel, hack },
            Effect::ReplicatorPurchase { cost, template_name, hopper: link },
        )
    }

    /// A replicator is a dispenser, not a container: anything offered to it
    /// (its own output touching the hopper included) is refused and stays in
    /// the world.
    pub fn on_provide_for_consumption(&self) -> (r: Option<Effect>)
        ensures
            r == Some(Effect::NoEffect),
    {
        Some(Effect::NoEffect)
    }

    /// Opening the hacking face: only a hackable replicator switches to it,
    /// clearing the feedback and dealing an unpaid board.
    pub fn open_hack(&self, state: ReplicatorState, can_hack: bool) -> (r: (ReplicatorState, Effect))
        ensures
            can_hack ==> r.0.message is None && r.0.panel == ReplicatorPanel::Hacking && is_fresh_board(
                r.0.hack,
            ),
            !can_hack ==> r.0 == state,
            r.1 is NoEffect,
    {
        if can_hack {
            (ReplicatorState { message: None, panel: ReplicatorPanel::Hacking, hack: HackState::default() }, Effect::NoEffect)
        } else {
            (state, Effect::NoEffect)
        }
    }

    /// A board input: ignored unless the replicator authors hack terms, shows
    /// its hacking face and has not given out; otherwise played on the board.
    pub fn play_board(
        &self,
        entity_id: EntityId,
        state: ReplicatorState,
        msg: KeyPadMsg,
        diff: Option<HackDiff>,
        object_state: ObjectState,
        chance: i32,
        mine_count: i32,
        payment: Option<Effect>,
        seed: u64,
    ) -> (r: (ReplicatorState, Effect))
        ensures
            (diff is None || state.panel != ReplicatorPanel::Hacking || is_out_of_order(object_state))
                ==> r.0 == state && r.1 is NoEffect,
            !(diff is None || state.panel != ReplicatorPanel::Hacking || is_out_of_order(object_state))
                ==> {
                &&& r.0.message == state.message
                &&& r.0.panel == state.panel
                &&& board_step_holds(
                    entity_id,
                    state.hack,
                    msg,
                    HrmContext::Hack { security_computer: false },
                    chance,
                    mine_count,
                    payment,
                    seed,
                    Effect::SetObjectState { entity_id, state: ObjectState::Hacked },
                    Effect::SetObjectState { entity_id, state: ObjectState::Broken },
                    (r.0.hack, r.1),
                )
            },
    {
        if diff.is_none() || state.panel != ReplicatorPanel::Hacking || matches!(
            object_state,
            ObjectState::Broken | ObjectState::Destroyed
        ) {
            return (state, Effect::NoEffect);
        }
        let (hack, effect) = handle_hrm_msg(
            entity_id,
            &state.hack,
            &msg,
            HrmContext::Hack { security_computer: false },
            chance,
            mine_count,
            payment,
            seed,
            replicator_hack_success(entity_id),
            replicator_hack_critical_failure(entity_id),
        );
        (ReplicatorState { hack, ..state }, effect)
    }
}

} // verus!
