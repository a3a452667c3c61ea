use shock2vr::effect::{Effect, EntityId, MessagePayload, ObjectState};
use shock2vr::hack_panels::{
    authored_hack_text, computer_hack_critical_failure, computer_hack_success, ComputerGui, ComputerState,
    FALLBACK_HACK_TEXT,
};
use shock2vr::hrm::{HackPhase, HackState};
use shock2vr::text::{wrap_hack_text, HACK_TEXT_LINE_LENGTH};

#[test]
fn localized_hack_text_is_wrapped_without_losing_words() {
    let text = "Hack all three Interlocks to disable shields.";
    let lines = wrap_hack_text(text);
    assert_eq!(lines.join(" "), text);
    assert!(lines.iter().all(|line| line.len() <= HACK_TEXT_LINE_LENGTH));
}

#[test]
fn computer_reopening_preserves_only_an_in_progress_hack() {
    let gui = ComputerGui;
    let mut state = ComputerState {
        hack: HackState {
            phase: HackPhase::Playing,
            rng_state: 42,
            ..HackState::default()
        },
    };
    gui.prepare_state_on_frob(&mut state);
    assert_eq!(state.hack.phase, HackPhase::Playing);
    assert_eq!(state.hack.rng_state, 42);

    state.hack.phase = HackPhase::Won;
    gui.prepare_state_on_frob(&mut state);
    assert_eq!(state.hack.phase, HackPhase::Unpaid);
}

#[test]
fn a_computer_without_authored_text_shows_the_stock_line() {
    assert_eq!(authored_hack_text(None, None), FALLBACK_HACK_TEXT);
    // Without a string table the authored key is shown as it stands.
    assert_eq!(authored_hack_text(Some("Eng1Hack"), None), "Eng1Hack");
}

#[test]
fn success_activates_hacking_links_and_uses_authored_replacement() {
    let router = EntityId(312);
    let computer = EntityId(7);
    let effects = Effect::flatten(vec![computer_hack_success(computer, &vec![router], Some(1269))]);
    assert!(effects.contains(&Effect::Send { to: router, payload: MessagePayload::TurnOn { from: computer } }));
    assert!(effects.contains(&Effect::ReplaceEntity { entity_id: computer, template_id: 1269 }));
}

#[test]
fn success_without_corpse_persists_hacked_state() {
    let computer = EntityId(7);
    let effects = Effect::flatten(vec![computer_hack_success(computer, &vec![], None)]);
    assert!(effects.contains(&Effect::SetObjectState { entity_id: computer, state: ObjectState::Hacked }));
}

#[test]
fn critical_failure_persists_broken_state() {
    let computer = EntityId(7);
    assert_eq!(
        computer_hack_critical_failure(computer),
        Effect::SetObjectState { entity_id: computer, state: ObjectState::Broken }
    );
}

#[test]
fn broken_and_hacked_computers_do_not_reopen() {
    let gui = ComputerGui;
    for state in [ObjectState::Broken, ObjectState::Hacked] {
        assert!(!gui.opens_on_frob(state, true));
    }
    assert!(gui.opens_on_frob(ObjectState::Normal, true));
}
