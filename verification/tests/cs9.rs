use shock2vr::cs9::{run_action, CS9EggsAndGrubs, CS9MasterControl, Cs9Action, EXHIBIT_INTERVAL_MS};
use shock2vr::effect::{Effect, EntityId, MessagePayload};

fn names(actions: &[Cs9Action]) -> Vec<String> {
    actions
        .iter()
        .map(|a| match a {
            Cs9Action::TurnOnByName(n) => format!("on:{n}"),
            Cs9Action::TurnOffByName(n) => format!("off:{n}"),
            Cs9Action::PlaySchema(n) => format!("play:{n}"),
        })
        .collect()
}

#[test]
fn the_show_waits_for_its_tripwire() {
    let mut show = CS9MasterControl::new();
    assert!(show.update(60_000).is_empty());
    assert_eq!(show.handle_message(&MessagePayload::Frob), Effect::NoEffect);
    assert!(!show.started);
    show.handle_message(&MessagePayload::TurnOn { from: EntityId(1) });
    assert!(show.started);
    assert_eq!(names(&show.update(0)), ["on:MasterForceField", "on:SlowDoorControl"]);
}

#[test]
fn the_timeline_runs_in_order_and_only_once() {
    let mut show = CS9MasterControl::new();
    show.handle_message(&MessagePayload::TurnOn { from: EntityId(1) });
    let _ = show.update(0);
    assert_eq!(names(&show.update(2000)), ["play:cs0901"]);
    let screens = show.update(6000);
    assert_eq!(screens.len(), 6);
    assert_eq!(names(&screens)[0], "on:ShodanScreenTL");
    // cs0902 starts after cs0901's 28.7 s and the gap: 31.3 s in.
    assert!(show.update(23_299).is_empty());
    assert_eq!(names(&show.update(1)), ["play:cs0902"]);
    // The grove section brings the exhibits and the rumblers.
    let grove = names(&show.update(62_700 - 31_300));
    assert_eq!(grove[0], "play:cs0903");
    assert!(grove.contains(&"on:EggsandGrubsControl".to_owned()));
    assert!(grove.contains(&"on:Rumbler4".to_owned()));
    // Everything else, through the teardown, then nothing more.
    let rest = names(&show.update(1_000_000));
    assert_eq!(rest.last().map(String::as_str), Some("off:MasterForceField"));
    assert!(rest.contains(&"off:Rumbler1".to_owned()));
    assert!(rest.contains(&"play:cs0909".to_owned()));
    assert!(show.update(1_000_000).is_empty());
    assert_eq!(show.next, show.schedule.len());
}

#[test]
fn the_player_is_released_two_seconds_after_the_teardown() {
    let show = CS9MasterControl::new();
    let last = show.schedule.last().unwrap();
    assert_eq!(last.0, 221_400 + 2000);
    assert!(show.schedule.windows(2).all(|w| w[0].0 <= w[1].0));
}

#[test]
fn actions_message_every_named_target_or_play_the_schema() {
    let source = EntityId(9);
    let targets = vec![EntityId(1), EntityId(2)];
    assert_eq!(
        run_action(source, Cs9Action::TurnOnByName("Rumbler1"), &targets),
        Effect::Combined {
            effects: vec![
                Effect::Send { to: EntityId(1), payload: MessagePayload::TurnOn { from: source } },
                Effect::Send { to: EntityId(2), payload: MessagePayload::TurnOn { from: source } },
            ]
        }
    );
    assert_eq!(
        run_action(source, Cs9Action::PlaySchema("cs0904"), &targets),
        Effect::PlayNamedSound { source: None, name: "cs0904".to_owned() }
    );
}

#[test]
fn exhibits_rise_one_at_a_time_and_are_all_stashed() {
    let mut exhibit = CS9EggsAndGrubs::new();
    assert_eq!(exhibit.update(16), None, "nothing rises before TurnOn");
    exhibit.turn_on(Some(vec![EntityId(1), EntityId(2), EntityId(3)]));
    assert_eq!(exhibit.update(16), Some(EntityId(1)), "the first rises at once");
    assert_eq!(exhibit.update(1000), None);
    assert_eq!(exhibit.update((EXHIBIT_INTERVAL_MS - 1000) as u32), Some(EntityId(2)));
    let stash = exhibit.turn_off();
    assert_eq!(stash, vec![EntityId(1), EntityId(2), EntityId(3)]);
    assert_eq!(exhibit.update(5000), None);
}

#[test]
fn a_level_without_a_first_egg_raises_nothing() {
    let mut exhibit = CS9EggsAndGrubs::new();
    exhibit.turn_on(None);
    assert!(!exhibit.active);
    assert_eq!(exhibit.update(5000), None);
}
