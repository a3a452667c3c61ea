use shock2vr::breakdown::{hrm_breakdown, hrm_failure_percent, JargonFormats};
use shock2vr::effect::{Effect, EntityId};
use shock2vr::hrm::{
    board_index, effective_hrm_values, handle_hrm_msg, outcome_roll, HackDiff, HackNode, HackPhase,
    HackState, HrmContext, HrmParams, HrmTerms, KeyPadMsg,
};

fn no_formats() -> JargonFormats {
    JargonFormats {
        base_diff: None,
        skill: None,
        stat: None,
        implant: None,
        bonus: None,
        final_diff: None,
        mines_one: None,
        mines: None,
    }
}

#[test]
fn security_expert_is_a_contextual_bonus_for_trained_hackers() {
    // Retail shock2.gam HRM: skill affects chance, stat affects both.
    let params = Some(HrmParams {
        skill_critical_bonus: 0,
        skill_success_bonus: 10,
        stat_critical_bonus: 1,
        stat_success_bonus: 5,
    });
    let diff = HackDiff { success_chance: 20, critical_chance: 10, cost: 3 };
    for (owned, security, base, expected) in [
        (false, true, 1, (35, 9)),
        (true, false, 1, (35, 9)),
        (true, true, 0, (25, 9)),
        (true, true, 1, (55, 9)),
        (true, true, 6, (85, 9)),
    ] {
        let context = HrmContext::Hack { security_computer: security };
        let terms = HrmTerms::for_context(context, base, owned, false, 1);
        let (chance, mines) = effective_hrm_values(params, diff, terms);
        assert_eq!((chance, mines), expected);

        // The same roll loses at base Hack 1 (35%) and succeeds at the
        // security computer with the upgrade (55%), through the node path.
        let seed = (1..1000u64).find(|seed| outcome_roll(&mut seed.clone()) == 40).unwrap();
        let state = HackState { phase: HackPhase::Playing, rng_state: seed, ..HackState::default() };
        let (after, _) = handle_hrm_msg(
            EntityId(1),
            &state,
            &KeyPadMsg::PlayNode { x: 2, y: 0 },
            context,
            chance,
            mines,
            None,
            0,
            Effect::NoEffect,
            Effect::NoEffect,
        );
        assert_eq!(
            after.nodes[board_index(2, 0)],
            if expected.0 > 40 { HackNode::Lit } else { HackNode::Burned }
        );
        assert_eq!(terms.skill, base, "the bonus never writes the trained skill");
    }
}

#[test]
fn the_repair_breakdown_itemizes_the_rolled_odds() {
    let params = Some(HrmParams {
        skill_critical_bonus: 1,
        skill_success_bonus: 10,
        stat_critical_bonus: 0,
        stat_success_bonus: 5,
    });
    let diff = HackDiff { success_chance: 20, critical_chance: 4, cost: 3 };
    let terms = HrmTerms::for_context(HrmContext::Repair, 2, false, false, 3);
    // 20 + 2*10 + 3*5 = 55% success; 4 - 2*1 = 2 mines.
    assert_eq!(
        hrm_breakdown(&no_formats(), diff, terms, params),
        "Initial difficulty: 80%.\nSkill 2: -20%\nCYB stat 3: -15%\nFinal difficulty: 45%.\n2 nodes."
    );
    assert_eq!(hrm_failure_percent(params, diff, terms), 45);
}

#[test]
fn the_implant_and_the_expert_bonus_get_lines_of_their_own() {
    let params = Some(HrmParams {
        skill_critical_bonus: 0,
        skill_success_bonus: 10,
        stat_critical_bonus: 1,
        stat_success_bonus: 5,
    });
    let diff = HackDiff { success_chance: 20, critical_chance: 2, cost: 3 };
    let terms = HrmTerms::for_context(HrmContext::Hack { security_computer: true }, 1, true, true, 1);
    assert_eq!(
        hrm_breakdown(&no_formats(), diff, terms, params),
        "Initial difficulty: 80%.\nSkill 1: -10%\nCYB stat 1: -5%\nExper-tech: -10%\nBonus: -20%\nFinal difficulty: 35%.\n1 node."
    );
}
