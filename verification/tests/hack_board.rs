use shock2vr::effect::{AITeam, Effect, EntityId, ObjectState};
use shock2vr::hack_panels::{
    break_on_critical_failure, HackBoardGui, HackBoardState, HackableTurret, SecurityConsole, PLAYER_TEAM,
};
use shock2vr::hrm::{HackPhase, HackState};

#[test]
fn hack_board_reopening_preserves_only_an_in_progress_hack() {
    let gui = HackBoardGui::new();
    let mut state = HackBoardState {
        hack: HackState {
            phase: HackPhase::Playing,
            rng_state: 42,
            ..HackState::default()
        },
    };
    gui.prepare_state_on_frob(&mut state);
    assert_eq!(state.hack.phase, HackPhase::Playing);
    assert_eq!(state.hack.rng_state, 42);

    state.hack.phase = HackPhase::Won;
    gui.prepare_state_on_frob(&mut state);
    assert_eq!(state.hack.phase, HackPhase::Unpaid);
}

#[test]
fn a_broken_device_or_one_without_terms_offers_no_board() {
    let gui = HackBoardGui::new();
    assert!(gui.opens_on_frob(ObjectState::Normal, true, true));
    assert!(!gui.opens_on_frob(ObjectState::Broken, true, true));
    assert!(!gui.opens_on_frob(ObjectState::Destroyed, true, true));
    assert!(!gui.opens_on_frob(ObjectState::Normal, false, true));
    assert!(!gui.opens_on_frob(ObjectState::Normal, true, false));
}

#[test]
fn a_won_turret_joins_the_player_and_a_friendly_one_offers_nothing() {
    let turret = EntityId(9);
    assert!(matches!(
        HackableTurret::on_success(turret),
        Effect::SetAITeam { entity_id, team: AITeam::Good } if entity_id == turret
    ));
    assert!(HackableTurret::is_offered(AITeam::Bad1));
    assert!(!HackableTurret::is_offered(AITeam::Good));
}

#[test]
fn a_won_console_stands_security_down_and_blinds_the_cameras() {
    let console = EntityId(4);
    let effects = Effect::flatten(vec![SecurityConsole::on_success(console, Some(120_000))]);
    assert!(effects.iter().any(|e| matches!(e, Effect::ClearSecurityAlarm { from } if *from == console)));
    assert!(effects.iter().any(|e| matches!(e, Effect::BlindSecurityCameras { ms: 120_000 })));
    assert_eq!(SecurityConsole::skill_bonus(true), 2);
    assert_eq!(SecurityConsole::skill_bonus(false), 0);
}

#[test]
fn a_broken_or_already_hacked_device_does_not_reopen() {
    // A device whose own rule offers a board only until it is hacked.
    let offered = |state: ObjectState| state != ObjectState::Hacked;
    for state in [ObjectState::Broken, ObjectState::Hacked] {
        assert!(!HackBoardGui::new().opens_on_frob(state, true, offered(state)));
    }
}

#[test]
fn a_device_with_no_authored_terms_is_not_hackable() {
    assert!(!HackBoardGui::new().opens_on_frob(ObjectState::Normal, false, true));
}

#[test]
fn a_won_hack_stands_security_down_and_blinds_the_cameras() {
    let console = EntityId(4);
    let effects = Effect::flatten(vec![SecurityConsole::on_success(console, Some(120_000))]);
    assert!(effects.contains(&Effect::ClearSecurityAlarm { from: console }));
    assert!(effects.contains(&Effect::BlindSecurityCameras { ms: 120_000 }));
}

#[test]
fn a_console_authoring_no_window_still_stands_security_down() {
    let console = EntityId(4);
    let effects = Effect::flatten(vec![SecurityConsole::on_success(console, None)]);
    assert!(effects.contains(&Effect::BlindSecurityCameras { ms: 0 }));
    assert!(effects.contains(&Effect::ClearSecurityAlarm { from: console }));
}

#[test]
fn critical_failure_breaks_the_console_and_it_refuses_to_reopen() {
    let console = EntityId(4);
    assert_eq!(
        break_on_critical_failure(console),
        Effect::SetObjectState { entity_id: console, state: ObjectState::Broken }
    );
    assert!(HackBoardGui::new().opens_on_frob(ObjectState::Normal, true, true));
    assert!(!HackBoardGui::new().opens_on_frob(ObjectState::Broken, true, true));
}

#[test]
fn a_console_stays_hackable_after_a_win_because_the_window_lapses() {
    let console = EntityId(4);
    let effects = Effect::flatten(vec![SecurityConsole::on_success(console, Some(120_000))]);
    assert!(!effects.iter().any(|e| matches!(e, Effect::SetObjectState { .. })));
    assert!(HackBoardGui::new().opens_on_frob(ObjectState::Normal, true, true));
}

#[test]
fn a_won_hack_moves_the_turret_onto_the_players_team() {
    let turret = EntityId(9);
    assert_eq!(HackableTurret::on_success(turret), Effect::SetAITeam { entity_id: turret, team: AITeam::Good });
}

#[test]
fn a_hacked_turret_cannot_be_hacked_again() {
    assert!(HackBoardGui::new().opens_on_frob(ObjectState::Normal, true, HackableTurret::is_offered(AITeam::Bad1)));
    assert!(!HackBoardGui::new().opens_on_frob(ObjectState::Normal, true, HackableTurret::is_offered(PLAYER_TEAM)));
}

#[test]
fn a_critically_failed_turret_breaks_and_refuses_its_board() {
    let turret = EntityId(9);
    assert_eq!(
        break_on_critical_failure(turret),
        Effect::SetObjectState { entity_id: turret, state: ObjectState::Broken }
    );
    assert!(!HackBoardGui::new().opens_on_frob(ObjectState::Broken, true, HackableTurret::is_offered(AITeam::Bad1)));
}
