use shock2vr::effect::Effect;
use shock2vr::trainer::{
    apply_purchase, psi_tier_label, row_detail, stat_upgrade_available, upgrade_quote, PlayerStats, Skill, Stat,
    TrainerCostTables, TrainerGui, TrainerGuiMsg, TrainerMode, TrainerTarget,
};

fn tables() -> TrainerCostTables {
    TrainerCostTables {
        stat_cost: [[3, 8, 15, 30, 50]; 5],
        tech_cost: [[10, 5, 8, 12, 25, 50]; 5],
        weapon_cost: [[12, 6, 8, 15, 36, 50]; 4],
        psi_cost: [
            [10, 3, 3, 3, 3, 3, 3, 3],
            [20, 5, 5, 5, 5, 5, 5, 5],
            [30, 8, 8, 8, 8, 8, 8, 8],
            [50, 12, 12, 12, 12, 12, 12, 12],
            [75, 20, 20, 20, 20, 20, 20, 20],
        ],
    }
}

#[test]
fn apply_purchase_raises_the_target() {
    let mut stats = PlayerStats::new();
    apply_purchase(&mut stats, TrainerTarget::Stat(Stat::Endurance));
    assert_eq!(stats.endurance, 2);
    apply_purchase(&mut stats, TrainerTarget::Skill(Skill::Repair));
    assert_eq!(stats.skills.repair, 1);
}

#[test]
fn stat_quotes_follow_statcost_and_cap_at_6() {
    let costs = tables();
    let mut stats = PlayerStats::new();
    assert_eq!(upgrade_quote(&costs, &stats, TrainerTarget::Stat(Stat::Endurance)), Some(3));
    stats.raise_stat(Stat::Endurance);
    assert_eq!(upgrade_quote(&costs, &stats, TrainerTarget::Stat(Stat::Endurance)), Some(8));
    for _ in 0..4 {
        stats.raise_stat(Stat::Endurance);
    }
    assert_eq!(upgrade_quote(&costs, &stats, TrainerTarget::Stat(Stat::Endurance)), None);
}

#[test]
fn psi_tiers_unlock_sequentially() {
    let costs = tables();
    let mut stats = PlayerStats::new();
    assert_eq!(upgrade_quote(&costs, &stats, TrainerTarget::PsiTier(1)), Some(10));
    assert_eq!(upgrade_quote(&costs, &stats, TrainerTarget::PsiTier(2)), None);
    apply_purchase(&mut stats, TrainerTarget::PsiTier(1));
    assert_eq!(stats.psi_tier, 1);
    assert_eq!(upgrade_quote(&costs, &stats, TrainerTarget::PsiTier(1)), None);
    assert_eq!(upgrade_quote(&costs, &stats, TrainerTarget::PsiTier(2)), Some(20));
}

#[test]
fn agility_is_not_sold() {
    assert!(!stat_upgrade_available(Stat::Agility));
    assert!(stat_upgrade_available(Stat::PsionicAbility));
    assert_eq!(upgrade_quote(&tables(), &PlayerStats::new(), TrainerTarget::Stat(Stat::Agility)), None);
}

#[test]
fn the_panel_explains_every_refusal_and_prices_a_purchase() {
    let costs = tables();
    let gui = TrainerGui::new(TrainerMode::Stats);
    let mut stats = PlayerStats::new();
    let (state, effect) = gui.handle_msg(&TrainerGuiMsg::Buy(TrainerTarget::Stat(Stat::Endurance)), &stats, None, 5);
    assert_eq!(state.message.as_deref(), Some("training offline"));
    assert!(matches!(effect, Effect::NoEffect));
    let (state, _) = gui.handle_msg(&TrainerGuiMsg::Buy(TrainerTarget::Stat(Stat::Agility)), &stats, Some(&costs), 5);
    assert_eq!(state.message.as_deref(), Some("Upgrade unavailable in this build."));
    let (state, _) = gui.handle_msg(&TrainerGuiMsg::Buy(TrainerTarget::PsiTier(3)), &stats, Some(&costs), 5);
    assert_eq!(state.message.as_deref(), Some("Error! Unlock the previous tier first."));
    let (state, _) = gui.handle_msg(&TrainerGuiMsg::Buy(TrainerTarget::Stat(Stat::Endurance)), &stats, Some(&costs), 5);
    assert_eq!(state.message.as_deref(), Some("Error! Insufficient cyber modules."));
    stats.cyber_modules = 10;
    let (state, effect) =
        gui.handle_msg(&TrainerGuiMsg::Buy(TrainerTarget::Stat(Stat::Endurance)), &stats, Some(&costs), 5);
    assert_eq!(state.message.as_deref(), Some("Max HP +5 (-3 cm)"));
    assert!(matches!(effect, Effect::TrainerPurchase { target: TrainerTarget::Stat(Stat::Endurance) }));
    let (state, _) = gui.handle_msg(&TrainerGuiMsg::Buy(TrainerTarget::Skill(Skill::Hack)), &stats, Some(&costs), 5);
    assert_eq!(state.message.as_deref(), Some("Upgrade complete (-10 cm)"));
    for _ in 0..6 {
        stats.raise_skill(Skill::Research);
    }
    let (state, _) = gui.handle_msg(&TrainerGuiMsg::Buy(TrainerTarget::Skill(Skill::Research)), &stats, Some(&costs), 5);
    assert_eq!(state.message.as_deref(), Some("Error! Already at maximum."));
}

#[test]
fn rows_and_details() {
    let rows = TrainerMode::Weapons.rows(false);
    assert_eq!(rows.len(), 3);
    assert_eq!(TrainerMode::Weapons.rows(true)[3].label, "Exotic");
    assert_eq!(TrainerMode::Stats.rows(false)[2].label, "Psionics");
    assert_eq!(TrainerMode::Psi.rows(false)[4].target, TrainerTarget::PsiTier(5));
    assert_eq!(psi_tier_label(2), "Psi Tier 2");
    assert_eq!(TrainerMode::Psi.backdrop(), "psitrain.pcx");
    assert_eq!(TrainerMode::Tech.backdrop(), "train.pcx");
    let costs = tables();
    let stats = PlayerStats::new();
    assert_eq!(row_detail(None, &stats, TrainerTarget::Skill(Skill::Hack)), "(offline)");
    assert_eq!(row_detail(Some(&costs), &stats, TrainerTarget::Skill(Skill::Hack)), "lvl 0 > 1: 10 cm");
    assert_eq!(row_detail(Some(&costs), &stats, TrainerTarget::Stat(Stat::Agility)), "unavailable");
    assert_eq!(row_detail(Some(&costs), &stats, TrainerTarget::PsiTier(1)), "unlock: 10 cm");
    assert_eq!(row_detail(Some(&costs), &stats, TrainerTarget::PsiTier(2)), "locked");
}

#[test]
fn skill_quotes_follow_the_tech_and_weapon_tables() {
    let costs = tables();
    let mut stats = PlayerStats::new();
    // Tech level 0 -> 1 costs 10 (more than level 2 - the real table).
    assert_eq!(upgrade_quote(&costs, &stats, TrainerTarget::Skill(Skill::Hack)), Some(10));
    stats.raise_skill(Skill::Hack);
    assert_eq!(upgrade_quote(&costs, &stats, TrainerTarget::Skill(Skill::Hack)), Some(5));
    // Weapon level 0 -> 1 costs 12.
    assert_eq!(upgrade_quote(&costs, &stats, TrainerTarget::Skill(Skill::StandardWeapons)), Some(12));
    for _ in 0..6 {
        stats.raise_skill(Skill::Research);
    }
    assert_eq!(upgrade_quote(&costs, &stats, TrainerTarget::Skill(Skill::Research)), None);
}

#[test]
fn stat_trainer_only_quotes_upgrades_with_live_gameplay_effects() {
    let costs = tables();
    let stats = PlayerStats::new();
    assert_eq!(upgrade_quote(&costs, &stats, TrainerTarget::Stat(Stat::Endurance)), Some(3));
    assert_eq!(upgrade_quote(&costs, &stats, TrainerTarget::Stat(Stat::CyberAffinity)), Some(3));
    assert_eq!(
        upgrade_quote(&costs, &stats, TrainerTarget::Stat(Stat::Strength)),
        Some(3),
        "Strength is purchasable once backpack capacity consumes it"
    );
    assert_eq!(
        upgrade_quote(&costs, &stats, TrainerTarget::Stat(Stat::PsionicAbility)),
        Some(3),
        "PSI is purchasable now that psi casts scale with it"
    );
    assert_eq!(
        upgrade_quote(&costs, &stats, TrainerTarget::Stat(Stat::Agility)),
        None,
        "Agility must not be sold until it has a gameplay effect"
    );
}
