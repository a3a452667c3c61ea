//! The numeric keypad, and the choice between a keypad's code entry and its
//! HRM board.
use vstd::prelude::*;

use crate::effect::{combine_two, combines, play_sound, sound_from, Effect, EntityId, Sound};
use crate::hrm::{board_step_holds, handle_hrm_msg, hack_shape, HackDiff, HackPhase, HackState, HrmContext, KeyPadMsg};

verus! {

/// A keypad panel: the digits typed so far, and its board when it is hacked.
#[derive(Clone, Copy, Debug)]
pub struct KeyPadState {
    pub current_value: Option<u32>,
    pub hack: HackState,
}

impl Default for KeyPadState {
    /// Nothing typed, an unpaid board.
    fn default() -> (s: KeyPadState)
        ensures
            s.current_value is None,
            s.hack.phase == HackPhase::Unpaid,
            s.hack.nodes@ == hack_shape(),
            s.hack.rng_state == 0,
    {
        KeyPadState { current_value: None, hack: HackState::default() }
    }
}

/// The terms a keypad is hacked on. A numeric code takes precedence: retail
/// numeric keypads inherit `P$HackDiff` from the same archetype as hack-only
/// panels, so an authored code means the keypad is typed into, not hacked.
pub fn hack_diff_for_keypad(has_numeric_code: bool, hack_diff: Option<HackDiff>) -> (r: Option<HackDiff>)
    ensures
        r == (if has_numeric_code { None } else { hack_diff }),
{
    if has_numeric_code {
        None
    } else {
        hack_diff
    }
}

/// The value shown after a key: a digit is appended, except that a value of
/// five digits starts over at the new digit; CLEAR empties the display; the
/// board's own inputs leave it alone.
pub open spec fn spec_keypad_entry(current: Option<u32>, msg: KeyPadMsg) -> Option<u32> {
    match msg {
        KeyPadMsg::ButtonPressed(n) => match current {
            Some(v) => if v > 9999 {
                Some(n)
            } else {
                Some((v * 10 + n) as u32)
            },
            None => Some(n),
        },
        KeyPadMsg::Clear => None,
        _ => current,
    }
}

/// Whether appending the pressed key to the display fits in a `u32`.
pub open spec fn entry_fits(current: Option<u32>, msg: KeyPadMsg) -> bool {
    match (msg, current) {
        (KeyPadMsg::ButtonPressed(n), Some(v)) => v > 9999 || v * 10 + n <= u32::MAX,
        _ => true,
    }
}

/// The value the keypad shows after `msg`.
pub fn keypad_entry(current: Option<u32>, msg: &KeyPadMsg) -> (r: Option<u32>)
    requires
        entry_fits(current, *msg),
    ensures
        r == spec_keypad_entry(current, *msg),
{
    match msg {
        KeyPadMsg::ButtonPressed(n) => match current {
            Some(v) => if v > 9999 {
                Some(*n)
            } else {
                Some(v * 10 + *n)
            },
            None => Some(*n),
        },
        KeyPadMsg::Clear => None,
        _ => current,
    }
}

/// A code-entry keypad's answer to a key: the new display, and the key click,
/// preceded (when the display now equals the authored code) by the effect of
/// the code: `switch_links` (TurnOn to the keypad's SwitchLinks and itself)
/// and the acceptance chime.
pub fn handle_keypad_msg(
    entity_id: EntityId,
    state: &KeyPadState,
    msg: &KeyPadMsg,
    code: Option<u32>,
    switch_links: Effect,
) -> (r: (KeyPadState, Effect))
    requires
        entry_fits(state.current_value, *msg),
    ensures
        r.0 == (KeyPadState { current_value: spec_keypad_entry(state.current_value, *msg), ..*state }),
        r.1 matches Effect::Combined { effects } && effects@.len() == 2 && effects@[1] == sound_from(
            entity_id,
            Sound::KeypadPress,
        ),
        r.1 matches Effect::Combined { effects } && (if code is Some && spec_keypad_entry(
            state.current_value,
            *msg,
        ) == code {
            combines(effects@[0], seq![switch_links, sound_from(entity_id, Sound::KeypadAccepted)])
        } else {
            effects@[0] is NoEffect
        }),
{
    let entered = keypad_entry(state.current_value, msg);
    let new_state = KeyPadState { current_value: entered, ..*state };
    let matched = match (code, entered) {
        (Some(code), Some(value)) => code == value,
        _ => false,
    };
    let additional = if matched {
        combine_two(switch_links, play_sound(entity_id, Sound::KeypadAccepted))
    } else {
        Effect::NoEffect
    };
    (new_state, combine_two(additional, play_sound(entity_id, Sound::KeypadPress)))
}

/// The keypad panel: typed into when it has a numeric code, hacked on the
/// HRM board otherwise.
pub struct KeyPadGui;

impl KeyPadGui {
    /// A keypad input. With hack terms (`hack_diff`, already `None` for a
    /// keypad with a code; see [`hack_diff_for_keypad`]) it is played on the
    /// board, where winning does what the code would (`switch_links`) and
    /// losing does nothing; without, it is a key press (see
    /// [`handle_keypad_msg`]) against the authored `code`.
    pub fn handle_msg(
        &self,
        entity_id: EntityId,
        state: &KeyPadState,
        msg: &KeyPadMsg,
        code: Option<u32>,
        hack_diff: Option<HackDiff>,
        chance: i32,
        mine_count: i32,
        payment: Option<Effect>,
        seed: u64,
        switch_links: Effect,
    ) -> (r: (KeyPadState, Effect))
        requires
            hack_diff is None ==> entry_fits(state.current_value, *msg),
        ensures
            hack_diff is Some ==> {
                &&& r.0.current_value == state.current_value
                &&& board_step_holds(
                    entity_id,
                    state.hack,
                    *msg,
                    HrmContext::Hack { security_computer: false },
                    chance,
                    mine_count,
                    payment,
                    seed,
                    switch_links,
                    Effect::NoEffect,
                    (r.0.hack, r.1),
                )
            },
            hack_diff is None ==> {
                &&& r.0 == (KeyPadState { current_value: spec_keypad_entry(state.current_value, *msg), ..*state })
                &&& r.1 matches Effect::Combined { effects } && effects@.len() == 2 && effects@[1] == sound_from(
                    entity_id,
                    Sound::KeypadPress,
                ) && (if code is Some && spec_keypad_entry(state.current_value, *msg) == code {
                    combines(effects@[0], seq![switch_links, sound_from(entity_id, Sound::KeypadAccepted)])
                } else {
                    effects@[0] is NoEffect
                })
            },
    {
        if hack_diff.is_some() {
            let (hack, effect) = handle_hrm_msg(
                entity_id,
                &state.hack,
                msg,
                HrmContext::Hack { security_computer: false },
                chance,
                mine_count,
                payment,
                seed,
                switch_links,
                Effect::NoEffect,
            );
            return (KeyPadState { hack, ..*state }, effect);
        }
        handle_keypad_msg(entity_id, state, msg, code, switch_links)
    }
}

} // verus!
