use shock2vr::effect::{Effect, EntityId, QuestBitValue};
use shock2vr::panels::{
    is_downgrade, log_audio_name, pcx_name, readable_log, MediaGui, MediaGuiMsg, MediaGuiState, LOG_UNSET, PAGE_LINES,
};
use shock2vr::text::wrap_text;

#[test]
fn wrap_keeps_codes_intact_and_honors_newlines() {
    let text = "I'll set the new code to 45100.  That should be easy.\nSecond paragraph.";
    let lines = wrap_text(text, 20);
    // The code token is never split across lines.
    assert!(lines.iter().any(|l| l.contains("45100")));
    // The explicit newline forces the second paragraph onto its own line(s).
    assert!(lines.iter().any(|l| l.contains("Second")));
    // No line exceeds the budget except an unsplittable single word.
    for l in &lines {
        assert!(l.split_whitespace().count() <= 1 || l.len() <= 20);
    }
}

#[test]
fn page_down_clamps_to_the_last_full_page() {
    let scroll_after = |line_count: usize, presses: usize| {
        let mut state = MediaGuiState { scroll: 0 };
        for _ in 0..presses {
            state = MediaGui.handle_msg(&state, &MediaGuiMsg::PageDown, line_count).0;
        }
        state.scroll
    };
    assert_eq!(scroll_after(PAGE_LINES, 3), 0);
    assert_eq!(scroll_after(PAGE_LINES + 5, 1), 5);
    assert_eq!(scroll_after(40, 10), 40 - PAGE_LINES);
    let back = MediaGui.handle_msg(&MediaGuiState { scroll: 5 }, &MediaGuiMsg::PageUp, 40).0;
    assert_eq!(back.scroll, 0);
}

#[test]
fn a_disc_without_a_log_does_nothing() {
    assert!(readable_log(2, LOG_UNSET).is_none());
    assert!(readable_log(0, 4).is_none());
    assert!(!MediaGui.opens_on_frob(2, LOG_UNSET));
    let effect = MediaGui.on_frob(EntityId(1), 2, LOG_UNSET, false, Effect::NoEffect, None, QuestBitValue::Unknown);
    assert!(matches!(effect, Effect::NoEffect));
}

#[test]
fn a_first_frob_collects_plays_fires_links_and_grants_the_objective() {
    let disc = EntityId(8);
    let links = Effect::DestroyEntity { entity_id: EntityId(99) };
    let effect = MediaGui.on_frob(
        disc,
        1,
        6,
        false,
        links,
        Some(("Note_1_6".to_owned(), QuestBitValue::Incomplete)),
        QuestBitValue::Unknown,
    );
    let effects = Effect::flatten(vec![effect]);
    assert!(effects.iter().any(|e| matches!(e, Effect::CollectLog { deck: 1, log: 6, .. })));
    assert!(effects.iter().any(|e| matches!(e, Effect::PlayNamedSound { name, .. } if name == "LOG0106")));
    assert!(effects.iter().any(|e| matches!(e, Effect::DestroyEntity { .. })));
    assert!(effects.iter().any(|e| matches!(e, Effect::SetQuestBit { quest_bit_name, .. } if quest_bit_name == "Note_1_6")));
}

#[test]
fn a_reread_disc_never_moves_an_objective_back() {
    let effect = MediaGui.on_frob(
        EntityId(8),
        1,
        6,
        true,
        Effect::DestroyEntity { entity_id: EntityId(99) },
        Some(("Note_1_6".to_owned(), QuestBitValue::Incomplete)),
        QuestBitValue::Complete,
    );
    let effects = Effect::flatten(vec![effect]);
    assert!(!effects.iter().any(|e| matches!(e, Effect::SetQuestBit { .. })));
    assert!(!effects.iter().any(|e| matches!(e, Effect::DestroyEntity { .. })));
    assert!(is_downgrade(QuestBitValue::Complete, QuestBitValue::Incomplete));
    assert!(!is_downgrade(QuestBitValue::Incomplete, QuestBitValue::Complete));
}

#[test]
fn log_art_and_audio_names() {
    assert_eq!(log_audio_name(4, 12), "LOG0412");
    assert_eq!(pcx_name("PortA"), "porta.pcx");
    assert!(MediaGui.resets_state_on_frob());
}

fn quest_bits(effect: Effect) -> Vec<(String, QuestBitValue)> {
    Effect::flatten(vec![effect])
        .into_iter()
        .filter_map(|e| match e {
            Effect::SetQuestBit { quest_bit_name, quest_bit_value } => Some((quest_bit_name, quest_bit_value)),
            _ => None,
        })
        .collect()
}

#[test]
fn contentless_disc_frob_does_not_open_the_panel() {
    assert!(!MediaGui.opens_on_frob(2, LOG_UNSET), "frobbing a content-less disc must not open the panel");
}

#[test]
fn frob_opens_a_real_log_and_reopening_resets_scroll() {
    assert!(MediaGui.opens_on_frob(2, 20), "a readable log must open the panel");
    // 20 one-word lines: one PageDown scrolls to the clamped last page
    // (20 - 13 = 7), so the first drawn line becomes "l8".
    let text = (1..=20).map(|i| format!("l{i}")).collect::<Vec<_>>().join("\n");
    let lines = wrap_text(&text, 40);
    assert_eq!(lines.len(), 20);
    let mut state = MediaGuiState { scroll: 0 };
    assert_eq!(lines[state.scroll], "l1");
    state = MediaGui.handle_msg(&state, &MediaGuiMsg::PageDown, lines.len()).0;
    assert_eq!(lines[state.scroll], "l8", "PageDown should scroll to the clamped last page");
    // Re-frob: the reader reopens scrolled back to the top.
    assert!(MediaGui.resets_state_on_frob());
    let reopened = MediaGuiState { scroll: 0 };
    assert_eq!(lines[reopened.scroll], "l1", "reopening must reset the scroll position");
}

#[test]
fn frobbing_a_log_grants_its_authored_objective() {
    let disc = EntityId(400);
    let effect = MediaGui.on_frob(
        disc,
        4,
        7,
        false,
        Effect::NoEffect,
        Some(("Note_4_6".to_owned(), QuestBitValue::Incomplete)),
        QuestBitValue::Unknown,
    );
    assert_eq!(quest_bits(effect), vec![("Note_4_6".to_owned(), QuestBitValue::Incomplete)]);
}

#[test]
fn a_log_never_downgrades_an_objective_the_player_completed() {
    let disc_with_bit = |value: QuestBitValue, already: QuestBitValue| {
        quest_bits(MediaGui.on_frob(
            EntityId(400),
            4,
            7,
            true,
            Effect::NoEffect,
            Some(("Note_4_6".to_owned(), value)),
            already,
        ))
    };
    assert!(
        disc_with_bit(QuestBitValue::Incomplete, QuestBitValue::Complete).is_empty(),
        "re-reading must not knock a completed objective back to incomplete"
    );
    assert_eq!(
        disc_with_bit(QuestBitValue::Complete, QuestBitValue::Incomplete),
        vec![("Note_4_6".to_owned(), QuestBitValue::Complete)]
    );
    assert_eq!(
        disc_with_bit(QuestBitValue::Incomplete, QuestBitValue::Incomplete),
        vec![("Note_4_6".to_owned(), QuestBitValue::Incomplete)]
    );
}

#[test]
fn unset_log_sentinel_is_not_a_log() {
    let effect = MediaGui.on_frob(EntityId(401), 2, LOG_UNSET, false, Effect::NoEffect, None, QuestBitValue::Unknown);
    assert_eq!(effect, Effect::NoEffect);
}

#[test]
fn frobbing_a_log_collects_it_and_plays_its_audio() {
    let disc = EntityId(402);
    let effects = Effect::flatten(vec![MediaGui.on_frob(disc, 4, 7, false, Effect::NoEffect, None, QuestBitValue::Unknown)]);
    assert_eq!(
        effects,
        vec![
            Effect::CollectLog { entity_id: disc, deck: 4, log: 7 },
            Effect::PlayNamedSound { source: None, name: "LOG0407".to_owned() },
        ]
    );
}
