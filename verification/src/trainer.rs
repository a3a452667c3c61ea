//! The character sheet and the trainer stations that sell stat, skill and
//! psi-tier upgrades for cyber modules.
use vstd::prelude::*;

use crate::effect::Effect;
use crate::text::{decimal, push_decimal};

verus! {

/// The five character stats.
#[derive(Clone, Copy, Debug, PartialEq, Eq, Structural)]
pub enum Stat {
    Strength,
    Endurance,
    PsionicAbility,
    Agility,
    CyberAffinity,
}

/// The nine trainable skills: five tech skills and four weapon skills.
#[derive(Clone, Copy, Debug, PartialEq, Eq, Structural)]
pub enum Skill {
    Hack,
    Repair,
    Modify,
    Maintenance,
    Research,
    StandardWeapons,
    EnergyWeapons,
    HeavyWeapons,
    ExoticWeapons,
}

/// The highest level a stat reaches.
pub const STAT_CAP: i32 = 6;
/// The highest level a skill reaches.
pub const SKILL_CAP: i32 = 6;
/// The highest psi tier.
pub const PSI_TIER_CAP: i32 = 5;
/// How many O/S traits a character can install.
pub const OS_TRAIT_SLOTS: usize = 4;

/// Trained skill levels.
#[derive(Clone, Copy, Debug, PartialEq, Eq, Structural)]
pub struct Skills {
    pub hack: i32,
    pub repair: i32,
    pub modify: i32,
    pub maintenance: i32,
    pub research: i32,
    pub standard_weapons: i32,
    pub energy_weapons: i32,
    pub heavy_weapons: i32,
    pub exotic_weapons: i32,
}

/// The character sheet.
#[derive(Debug)]
pub struct PlayerStats {
    pub strength: i32,
    pub endurance: i32,
    pub psionic_ability: i32,
    pub agility: i32,
    pub cyber_affinity: i32,
    pub skills: Skills,
    /// The highest unlocked psi tier (0 = none).
    pub psi_tier: i32,
    pub cyber_modules: i32,
    /// Installed O/S traits, in installation order.
    pub os_traits: Vec<u8>,
}

/// A stat's level on a sheet.
pub open spec fn spec_stat_level(stats: PlayerStats, stat: Stat) -> i32 {
    match stat {
        Stat::Strength => stats.strength,
        Stat::Endurance => stats.endurance,
        Stat::PsionicAbility => stats.psionic_ability,
        Stat::Agility => stats.agility,
        Stat::CyberAffinity => stats.cyber_affinity,
    }
}

/// A skill's level.
pub open spec fn spec_skill_level(skills: Skills, skill: Skill) -> i32 {
    match skill {
        Skill::Hack => skills.hack,
        Skill::Repair => skills.repair,
        Skill::Modify => skills.modify,
        Skill::Maintenance => skills.maintenance,
        Skill::Research => skills.research,
        Skill::StandardWeapons => skills.standard_weapons,
        Skill::EnergyWeapons => skills.energy_weapons,
        Skill::HeavyWeapons => skills.heavy_weapons,
        Skill::ExoticWeapons => skills.exotic_weapons,
    }
}

/// `skills` with `skill` set to `level`.
pub open spec fn with_skill(skills: Skills, skill: Skill, level: i32) -> Skills {
    match skill {
        Skill::Hack => Skills { hack: level, ..skills },
        Skill::Repair => Skills { repair: level, ..skills },
        Skill::Modify => Skills { modify: level, ..skills },
        Skill::Maintenance => Skills { maintenance: level, ..skills },
        Skill::Research => Skills { research: level, ..skills },
        Skill::StandardWeapons => Skills { standard_weapons: level, ..skills },
        Skill::EnergyWeapons => Skills { energy_weapons: level, ..skills },
        Skill::HeavyWeapons => Skills { heavy_weapons: level, ..skills },
        Skill::ExoticWeapons => Skills { exotic_weapons: level, ..skills },
    }
}

/// A raise: one level up, stopping at the cap.
pub open spec fn raised(level: i32, cap: i32) -> i32 {
    if level < cap { (level + 1) as i32 } else { level }
}

impl PlayerStats {
    /// A fresh character: every stat at 1, every skill at 0, no psi tier, no
    /// modules, no traits.
    pub fn new() -> (s: PlayerStats)
        ensures
            s.strength == 1 && s.endurance == 1 && s.psionic_ability == 1 && s.agility == 1
                && s.cyber_affinity == 1,
            s.skills == (Skills {
                hack: 0,
                repair: 0,
                modify: 0,
                maintenance: 0,
                research: 0,
                standard_weapons: 0,
                energy_weapons: 0,
                heavy_weapons: 0,
                exotic_weapons: 0,
            }),
            s.psi_tier == 0,
            s.cyber_modules == 0,
            s.os_traits@.len() == 0,
    {
        PlayerStats {
            strength: 1,
            endurance: 1,
            psionic_ability: 1,
            agility: 1,
            cyber_affinity: 1,
            skills: Skills {
                hack: 0,
                repair: 0,
                modify: 0,
                maintenance: 0,
                research: 0,
                standard_weapons: 0,
                energy_weapons: 0,
                heavy_weapons: 0,
                exotic_weapons: 0,
            },
            psi_tier: 0,
            cyber_modules: 0,
            os_traits: Vec::new(),
        }
    }

    /// A stat's current level.
    pub fn stat_level(&self, stat: Stat) -> (r: i32)
        ensures
            r == spec_stat_level(*self, stat),
    {
        match stat {
            Stat::Strength => self.strength,
            Stat::Endurance => self.endurance,
            Stat::PsionicAbility => self.psionic_ability,
            Stat::Agility => self.agility,
            Stat::CyberAffinity => self.cyber_affinity,
        }
    }

    /// A skill's current level.
    pub fn skill_level(&self, skill: Skill) -> (r: i32)
        ensures
            r == spec_skill_level(self.skills, skill),
    {
        match skill {
            Skill::Hack => self.skills.hack,
            Skill::Repair => self.skills.repair,
            Skill::Modify => self.skills.modify,
            Skill::Maintenance => self.skills.maintenance,
            Skill::Research => self.skills.research,
            Skill::StandardWeapons => self.skills.standard_weapons,
            Skill::EnergyWeapons => self.skills.energy_weapons,
            Skill::HeavyWeapons => self.skills.heavy_weapons,
            Skill::ExoticWeapons => self.skills.exotic_weapons,
        }
    }

    /// Raises a stat one level, up to the cap; nothing else changes.
    pub fn raise_stat(&mut self, stat: Stat)
        ensures
            spec_stat_level(*final(self), stat) == raised(spec_stat_level(*old(self), stat), STAT_CAP),
            forall|other: Stat| other != stat ==> spec_stat_level(*final(self), other) == spec_stat_level(
                *old(self),
                other,
            ),
            final(self).skills == old(self).skills,
            final(self).psi_tier == old(self).psi_tier,
            final(self).cyber_modules == old(self).cyber_modules,
            final(self).os_traits == old(self).os_traits,
    {
        let level = self.stat_level(stat);
        let next = if level < STAT_CAP {
            level + 1
        } else {
            level
        };
        match stat {
            Stat::Strength => self.strength = next,
            Stat::Endurance => self.endurance = next,
            Stat::PsionicAbility => self.psionic_ability = next,
            Stat::Agility => self.agility = next,
            Stat::CyberAffinity => self.cyber_affinity = next,
        }
    }

    /// Raises a skill one level, up to the cap; nothing else changes.
    pub fn raise_skill(&mut self, skill: Skill)
        ensures
            final(self).skills == with_skill(
                old(self).skills,
                skill,
                raised(spec_skill_level(old(self).skills, skill), SKILL_CAP),
            ),
            forall|stat: Stat| spec_stat_level(*final(self), stat) == spec_stat_level(*old(self), stat),
            final(self).psi_tier == old(self).psi_tier,
            final(self).cyber_modules == old(self).cyber_modules,
            final(self).os_traits == old(self).os_traits,
    {
        let level = self.skill_level(skill);
        let next = if level < SKILL_CAP {
            level + 1
        } else {
            level
        };
        match skill {
            Skill::Hack => self.skills.hack = next,
            Skill::Repair => self.skills.repair = next,
            Skill::Modify => self.skills.modify = next,
            Skill::Maintenance => self.skills.maintenance = next,
            Skill::Research => self.skills.research = next,
            Skill::StandardWeapons => self.skills.standard_weapons = next,
            Skill::EnergyWeapons => self.skills.energy_weapons = next,
            Skill::HeavyWeapons => self.skills.heavy_weapons = next,
            Skill::ExoticWeapons => self.skills.exotic_weapons = next,
        }
    }

    /// Whether an O/S trait is installed.
    pub fn has_os_trait(&self, trait_id: u8) -> (r: bool)
        ensures
            r == self.os_traits@.contains(trait_id),
    {
        let mut i: usize = 0;
        while i < self.os_traits.len()
            invariant
                i <= self.os_traits.len(),
                forall|k: int| 0 <= k < i ==> self.os_traits@[k] != trait_id,
            decreases self.os_traits.len() - i,
        {
            if self.os_traits[i] == trait_id {
                return true;
            }
            i += 1;
        }
        false
    }

    /// Installs an O/S trait unless it is already installed or every slot is
    /// taken; says whether it was installed.
    pub fn add_os_trait(&mut self, trait_id: u8) -> (added: bool)
        ensures
            added == (!old(self).os_traits@.contains(trait_id) && old(self).os_traits@.len() < OS_TRAIT_SLOTS),
            added ==> final(self).os_traits@ == old(self).os_traits@.push(trait_id),
            !added ==> final(self).os_traits@ == old(self).os_traits@,
            final(self).skills == old(self).skills,
            forall|stat: Stat| spec_stat_level(*final(self), stat) == spec_stat_level(*old(self), stat),
            final(self).psi_tier == old(self).psi_tier,
            final(self).cyber_modules == old(self).cyber_modules,
    {
        if self.has_os_trait(trait_id) || self.os_traits.len() >= OS_TRAIT_SLOTS {
            return false;
        }
        self.os_traits.push(trait_id);
        true
    }
}

/// What one trainer row upgrades.
#[derive(Clone, Copy, Debug, PartialEq, Eq, Structural)]
pub enum TrainerTarget {
    Stat(Stat),
    Skill(Skill),
    /// Unlock psi tier N (1..=5). Tiers are sequential.
    PsiTier(i32),
}

/// Which category a trainer machine sells.
#[derive(Clone, Copy, Debug, PartialEq, Eq, Structural)]
pub enum TrainerMode {
    Stats,
    Tech,
    Weapons,
    Psi,
}

/// The gamesys upgrade cost tables (Normal difficulty).
#[derive(Clone, Copy, Debug)]
pub struct TrainerCostTables {
    /// `stat_cost[row][i]`: raising a stat from level `i + 1` to `i + 2`.
    pub stat_cost: [[i32; 5]; 5],
    /// `tech_cost[row][i]`: raising a tech skill from `i` to `i + 1`.
    pub tech_cost: [[i32; 6]; 5],
    /// `weapon_cost[row][i]`: raising a weapon skill from `i` to `i + 1`.
    pub weapon_cost: [[i32; 6]; 4],
    /// `psi_cost[tier - 1][0]`: unlocking a psi tier.
    pub psi_cost: [[i32; 8]; 5],
}

/// Whether a stat has a live gameplay consumer and may therefore be sold:
/// Strength, Endurance, Psionics and Cyber Affinity; not Agility.
pub open spec fn spec_stat_upgrade_available(stat: Stat) -> bool {
    stat is Strength || stat is Endurance || stat is CyberAffinity || stat is PsionicAbility
}

/// Whether a stat may be sold.
pub fn stat_upgrade_available(stat: Stat) -> (r: bool)
    ensures
        r == spec_stat_upgrade_available(stat),
{
    matches!(stat, Stat::Strength | Stat::Endurance | Stat::CyberAffinity | Stat::PsionicAbility)
}

/// The `STATCOST` row of a stat: STR, END, PSI, AGI, CYB (PSI before AGI).
pub open spec fn spec_stat_row(stat: Stat) -> int {
    match stat {
        Stat::Strength => 0,
        Stat::Endurance => 1,
        Stat::PsionicAbility => 2,
        Stat::Agility => 3,
        Stat::CyberAffinity => 4,
    }
}

/// A stat's `STATCOST` row.
pub fn stat_row(stat: Stat) -> (r: usize)
    ensures
        r == spec_stat_row(stat),
{
    match stat {
        Stat::Strength => 0,
        Stat::Endurance => 1,
        Stat::PsionicAbility => 2,
        Stat::Agility => 3,
        Stat::CyberAffinity => 4,
    }
}

/// Which cost table, and which row of it, prices a skill.
#[derive(Clone, Copy, Debug, PartialEq, Eq, Structural)]
pub enum SkillRow {
    Tech(usize),
    Weapon(usize),
}

/// Tech skills in `WTECHCOST` order, weapon skills in `WSKILLCOST` order.
pub open spec fn spec_skill_row(skill: Skill) -> SkillRow {
    match skill {
        Skill::Hack => SkillRow::Tech(0),
        Skill::Repair => SkillRow::Tech(1),
        Skill::Modify => SkillRow::Tech(2),
        Skill::Maintenance => SkillRow::Tech(3),
        Skill::Research => SkillRow::Tech(4),
        Skill::StandardWeapons => SkillRow::Weapon(0),
        Skill::EnergyWeapons => SkillRow::Weapon(1),
        Skill::HeavyWeapons => SkillRow::Weapon(2),
        Skill::ExoticWeapons => SkillRow::Weapon(3),
    }
}

/// The cost table row of a skill.
pub fn skill_row(skill: Skill) -> (r: SkillRow)
    ensures
        r == spec_skill_row(skill),
{
    match skill {
        Skill::Hack => SkillRow::Tech(0),
        Skill::Repair => SkillRow::Tech(1),
        Skill::Modify => SkillRow::Tech(2),
        Skill::Maintenance => SkillRow::Tech(3),
        Skill::Research => SkillRow::Tech(4),
        Skill::StandardWeapons => SkillRow::Weapon(0),
        Skill::EnergyWeapons => SkillRow::Weapon(1),
        Skill::HeavyWeapons => SkillRow::Weapon(2),
        Skill::ExoticWeapons => SkillRow::Weapon(3),
    }
}

/// Whether a psi tier target can be judged without overflow.
pub open spec fn quote_defined(stats: PlayerStats, target: TrainerTarget) -> bool {
    target matches TrainerTarget::PsiTier(tier) ==> stats.psi_tier < i32::MAX && (tier
        == stats.psi_tier + 1 && tier <= PSI_TIER_CAP ==> tier >= 1)
}

/// The price of `target`'s next level, or `None` when it cannot be bought: a
/// stat that is not sold or is outside 1..6, a skill outside 0..6, or a psi
/// tier other than the next one (or past the last).
pub open spec fn spec_upgrade_quote(costs: TrainerCostTables, stats: PlayerStats, target: TrainerTarget) -> Option<i32> {
    match target {
        TrainerTarget::Stat(stat) => {
            let level = spec_stat_level(stats, stat);
            if !spec_stat_upgrade_available(stat) || !(1 <= level < STAT_CAP) {
                None
            } else {
                Some(costs.stat_cost[spec_stat_row(stat)][level - 1])
            }
        },
        TrainerTarget::Skill(skill) => {
            let level = spec_skill_level(stats.skills, skill);
            if !(0 <= level < SKILL_CAP) {
                None
            } else {
                Some(
                    match spec_skill_row(skill) {
                        SkillRow::Tech(row) => costs.tech_cost[row as int][level as int],
                        SkillRow::Weapon(row) => costs.weapon_cost[row as int][level as int],
                    },
                )
            }
        },
        TrainerTarget::PsiTier(tier) => {
            if tier != stats.psi_tier + 1 || tier > PSI_TIER_CAP {
                None
            } else {
                Some(costs.psi_cost[tier - 1][0])
            }
        },
    }
}

/// The cost of buying `target`'s next level on this sheet, or `None` if it
/// cannot be bought. Shared by the panel and the purchase handler.
pub fn upgrade_quote(costs: &TrainerCostTables, stats: &PlayerStats, target: TrainerTarget) -> (r: Option<i32>)
    requires
        quote_defined(*stats, target),
    ensures
        r == spec_upgrade_quote(*costs, *stats, target),
{
    match target {
        TrainerTarget::Stat(stat) => {
            if !stat_upgrade_available(stat) {
                return None;
            }
            let level = stats.stat_level(stat);
            if !(1 <= level && level < STAT_CAP) {
                return None;
            }
            Some(costs.stat_cost[stat_row(stat)][(level - 1) as usize])
        },
        TrainerTarget::Skill(skill) => {
            let level = stats.skill_level(skill);
            if !(0 <= level && level < SKILL_CAP) {
                return None;
            }
            Some(
                match skill_row(skill) {
                    SkillRow::Tech(row) => costs.tech_cost[row][level as usize],
                    SkillRow::Weapon(row) => costs.weapon_cost[row][level as usize],
                },
            )
        },
        TrainerTarget::PsiTier(tier) => {
            if tier != stats.psi_tier + 1 || tier > PSI_TIER_CAP {
                return None;
            }
            Some(costs.psi_cost[(tier - 1) as usize][0])
        },
    }
}

/// What buying `target` does to a sheet: the stat or skill goes up one level
/// (stopping at the cap), or the psi tier becomes the bought one; nothing
/// else changes.
pub open spec fn purchase_holds(before: PlayerStats, after: PlayerStats, target: TrainerTarget) -> bool {
    &&& match target {
        TrainerTarget::Stat(stat) => {
            &&& spec_stat_level(after, stat) == raised(spec_stat_level(before, stat), STAT_CAP)
            &&& forall|other: Stat| other != stat ==> spec_stat_level(after, other) == spec_stat_level(before, other)
            &&& after.skills == before.skills
            &&& after.psi_tier == before.psi_tier
        },
        TrainerTarget::Skill(skill) => {
            &&& after.skills == with_skill(before.skills, skill, raised(spec_skill_level(before.skills, skill), SKILL_CAP))
            &&& forall|other: Stat| spec_stat_level(after, other) == spec_stat_level(before, other)
            &&& after.psi_tier == before.psi_tier
        },
        TrainerTarget::PsiTier(tier) => {
            &&& after.psi_tier == tier
            &&& after.skills == before.skills
            &&& forall|other: Stat| spec_stat_level(after, other) == spec_stat_level(before, other)
        },
    }
    &&& after.cyber_modules == before.cyber_modules
    &&& after.os_traits@ == before.os_traits@
}

/// Applies a validated purchase to the sheet; see [`purchase_holds`].
pub fn apply_purchase(stats: &mut PlayerStats, target: TrainerTarget)
    ensures
        purchase_holds(*old(stats), *final(stats), target),
{
    match target {
        TrainerTarget::Stat(stat) => stats.raise_stat(stat),
        TrainerTarget::Skill(skill) => stats.raise_skill(skill),
        TrainerTarget::PsiTier(tier) => stats.psi_tier = tier,
    }
}

/// What a row shows as its level.
pub open spec fn spec_row_level(stats: PlayerStats, target: TrainerTarget) -> i32 {
    match target {
        TrainerTarget::Stat(stat) => spec_stat_level(stats, stat),
        TrainerTarget::Skill(skill) => spec_skill_level(stats.skills, skill),
        TrainerTarget::PsiTier(_) => stats.psi_tier,
    }
}

/// Buying a row that has a price raises that row by exactly one level.
pub proof fn law_purchase_raises_the_row(
    costs: TrainerCostTables,
    before: PlayerStats,
    after: PlayerStats,
    target: TrainerTarget,
)
    requires
        spec_upgrade_quote(costs, before, target) is Some,
        purchase_holds(before, after, target),
    ensures
        spec_row_level(after, target) == spec_row_level(before, target) + 1,
{
}

/// Each skill is priced from its own row of the cost tables, at its own
/// level: the tech skills from `WTECHCOST` rows Hack, Repair, Modify,
/// Maintenance, Research, the weapon skills from `WSKILLCOST` rows Standard,
/// Energy, Heavy, Exotic. A skill at the cap, or below zero, has no price.
pub proof fn law_each_skill_is_priced_from_its_own_row(costs: TrainerCostTables, stats: PlayerStats)
    ensures
        0 <= stats.skills.hack < 6 ==> spec_upgrade_quote(costs, stats, TrainerTarget::Skill(Skill::Hack)) == Some(
            costs.tech_cost[0][stats.skills.hack as int],
        ),
        0 <= stats.skills.repair < 6 ==> spec_upgrade_quote(costs, stats, TrainerTarget::Skill(Skill::Repair)) == Some(
            costs.tech_cost[1][stats.skills.repair as int],
        ),
        0 <= stats.skills.modify < 6 ==> spec_upgrade_quote(costs, stats, TrainerTarget::Skill(Skill::Modify)) == Some(
            costs.tech_cost[2][stats.skills.modify as int],
        ),
        0 <= stats.skills.maintenance < 6 ==> spec_upgrade_quote(costs, stats, TrainerTarget::Skill(Skill::Maintenance))
            == Some(costs.tech_cost[3][stats.skills.maintenance as int]),
        0 <= stats.skills.research < 6 ==> spec_upgrade_quote(costs, stats, TrainerTarget::Skill(Skill::Research))
            == Some(costs.tech_cost[4][stats.skills.research as int]),
        0 <= stats.skills.standard_weapons < 6 ==> spec_upgrade_quote(
            costs,
            stats,
            TrainerTarget::Skill(Skill::StandardWeapons),
        ) == Some(costs.weapon_cost[0][stats.skills.standard_weapons as int]),
        0 <= stats.skills.energy_weapons < 6 ==> spec_upgrade_quote(costs, stats, TrainerTarget::Skill(Skill::EnergyWeapons))
            == Some(costs.weapon_cost[1][stats.skills.energy_weapons as int]),
        0 <= stats.skills.heavy_weapons < 6 ==> spec_upgrade_quote(costs, stats, TrainerTarget::Skill(Skill::HeavyWeapons))
            == Some(costs.weapon_cost[2][stats.skills.heavy_weapons as int]),
        0 <= stats.skills.exotic_weapons < 6 ==> spec_upgrade_quote(costs, stats, TrainerTarget::Skill(Skill::ExoticWeapons))
            == Some(costs.weapon_cost[3][stats.skills.exotic_weapons as int]),
        forall|skill: Skill| !(0 <= #[trigger] spec_skill_level(stats.skills, skill) < 6) ==> spec_upgrade_quote(
            costs,
            stats,
            TrainerTarget::Skill(skill),
        ) is None,
{
}

/// Psi tiers unlock in order: only the tier after the highest owned one has a
/// price, and once it is bought it has none while the next one (if any) does.
pub proof fn law_psi_tiers_unlock_in_order(
    costs: TrainerCostTables,
    before: PlayerStats,
    after: PlayerStats,
    tier: i32,
)
    requires
        purchase_holds(before, after, TrainerTarget::PsiTier(tier)),
    ensures
        spec_upgrade_quote(costs, before, TrainerTarget::PsiTier(tier)) is Some <==> (tier == before.psi_tier + 1
            && tier <= PSI_TIER_CAP),
        spec_upgrade_quote(costs, before, TrainerTarget::PsiTier(tier)) is Some ==> {
            &&& spec_upgrade_quote(costs, after, TrainerTarget::PsiTier(tier)) is None
            &&& tier < PSI_TIER_CAP ==> spec_upgrade_quote(costs, after, TrainerTarget::PsiTier((tier + 1) as i32)) is Some
        },
{
}

/// The level a row shows: the stat's or skill's level, or the highest
/// unlocked psi tier.
pub fn row_level(stats: &PlayerStats, target: TrainerTarget) -> (r: i32)
    ensures
        r == spec_row_level(*stats, target),
{
    match target {
        TrainerTarget::Stat(stat) => stats.stat_level(stat),
        TrainerTarget::Skill(skill) => stats.skill_level(skill),
        TrainerTarget::PsiTier(_) => stats.psi_tier,
    }
}

/// One trainer row: its label and what it upgrades.
#[derive(Clone, Copy, Debug)]
pub struct TrainerRow {
    pub label: &'static str,
    pub target: TrainerTarget,
}

/// The rows a trainer mode lists, as (label, target), in display order. The
/// Exotic weapons row shows only once the `AlienWeapons` quest bit is set.
pub open spec fn spec_rows(mode: TrainerMode, alien_weapons: bool) -> Seq<(Seq<char>, TrainerTarget)> {
    match mode {
        TrainerMode::Stats => seq![
            ("Strength"@, TrainerTarget::Stat(Stat::Strength)),
            ("Endurance"@, TrainerTarget::Stat(Stat::Endurance)),
            ("Psionics"@, TrainerTarget::Stat(Stat::PsionicAbility)),
            ("Agility"@, TrainerTarget::Stat(Stat::Agility)),
            ("Cybernetics"@, TrainerTarget::Stat(Stat::CyberAffinity)),
        ],
        TrainerMode::Tech => seq![
            ("Hack"@, TrainerTarget::Skill(Skill::Hack)),
            ("Repair"@, TrainerTarget::Skill(Skill::Repair)),
            ("Modify"@, TrainerTarget::Skill(Skill::Modify)),
            ("Maintain"@, TrainerTarget::Skill(Skill::Maintenance)),
            ("Research"@, TrainerTarget::Skill(Skill::Research)),
        ],
        TrainerMode::Weapons => {
            let base = seq![
                ("Standard"@, TrainerTarget::Skill(Skill::StandardWeapons)),
                ("Energy"@, TrainerTarget::Skill(Skill::EnergyWeapons)),
                ("Heavy"@, TrainerTarget::Skill(Skill::HeavyWeapons)),
            ];
            if alien_weapons {
                base.push(("Exotic"@, TrainerTarget::Skill(Skill::ExoticWeapons)))
            } else {
                base
            }
        },
        TrainerMode::Psi => seq![
            ("Psi Tier 1"@, TrainerTarget::PsiTier(1)),
            ("Psi Tier 2"@, TrainerTarget::PsiTier(2)),
            ("Psi Tier 3"@, TrainerTarget::PsiTier(3)),
            ("Psi Tier 4"@, TrainerTarget::PsiTier(4)),
            ("Psi Tier 5"@, TrainerTarget::PsiTier(5)),
        ],
    }
}

/// A row as (label, target).
pub open spec fn row_view(row: TrainerRow) -> (Seq<char>, TrainerTarget) {
    (row.label@, row.target)
}

/// The label of a psi tier's row; tiers past 4 read as tier 5.
pub open spec fn spec_psi_tier_label(tier: i32) -> Seq<char> {
    if tier == 1 {
        "Psi Tier 1"@
    } else if tier == 2 {
        "Psi Tier 2"@
    } else if tier == 3 {
        "Psi Tier 3"@
    } else if tier == 4 {
        "Psi Tier 4"@
    } else {
        "Psi Tier 5"@
    }
}

/// The label of a psi tier's row.
pub fn psi_tier_label(tier: i32) -> (r: &'static str)
    ensures
        r@ == spec_psi_tier_label(tier),
{
    match tier {
        1 => "Psi Tier 1",
        2 => "Psi Tier 2",
        3 => "Psi Tier 3",
        4 => "Psi Tier 4",
        _ => "Psi Tier 5",
    }
}

impl TrainerMode {
    /// The rows this mode lists; see [`spec_rows`].
    pub fn rows(&self, alien_weapons: bool) -> (r: Vec<TrainerRow>)
        ensures
            r@.map_values(|row: TrainerRow| row_view(row)) == spec_rows(*self, alien_weapons),
    {
        let mut rows: Vec<TrainerRow> = Vec::new();
        match self {
            TrainerMode::Stats => {
                rows.push(TrainerRow { label: "Strength", target: TrainerTarget::Stat(Stat::Strength) });
                rows.push(TrainerRow { label: "Endurance", target: TrainerTarget::Stat(Stat::Endurance) });
                rows.push(TrainerRow { label: "Psionics", target: TrainerTarget::Stat(Stat::PsionicAbility) });
                rows.push(TrainerRow { label: "Agility", target: TrainerTarget::Stat(Stat::Agility) });
                rows.push(TrainerRow { label: "Cybernetics", target: TrainerTarget::Stat(Stat::CyberAffinity) });
            },
            TrainerMode::Tech => {
                rows.push(TrainerRow { label: "Hack", target: TrainerTarget::Skill(Skill::Hack) });
                rows.push(TrainerRow { label: "Repair", target: TrainerTarget::Skill(Skill::Repair) });
                rows.push(TrainerRow { label: "Modify", target: TrainerTarget::Skill(Skill::Modify) });
                rows.push(TrainerRow { label: "Maintain", target: TrainerTarget::Skill(Skill::Maintenance) });
                rows.push(TrainerRow { label: "Research", target: TrainerTarget::Skill(Skill::Research) });
            },
            TrainerMode::Weapons => {
                rows.push(TrainerRow { label: "Standard", target: TrainerTarget::Skill(Skill::StandardWeapons) });
                rows.push(TrainerRow { label: "Energy", target: TrainerTarget::Skill(Skill::EnergyWeapons) });
                rows.push(TrainerRow { label: "Heavy", target: TrainerTarget::Skill(Skill::HeavyWeapons) });
                if alien_weapons {
                    rows.push(TrainerRow { label: "Exotic", target: TrainerTarget::Skill(Skill::ExoticWeapons) });
                }
            },
            TrainerMode::Psi => {
                let mut tier: i32 = 1;
                while tier <= PSI_TIER_CAP
                    invariant
                        1 <= tier <= PSI_TIER_CAP + 1,
                        rows@.len() == tier - 1,
                        forall|k: int| 0 <= k < rows@.len() ==> row_view(#[trigger] rows@[k]) == (
                            spec_psi_tier_label((k + 1) as i32),
                            TrainerTarget::PsiTier((k + 1) as i32),
                        ),
                    decreases PSI_TIER_CAP + 1 - tier,
                {
                    rows.push(TrainerRow { label: psi_tier_label(tier), target: TrainerTarget::PsiTier(tier) });
                    tier += 1;
                }
            },
        }
        assert(rows@.map_values(|row: TrainerRow| row_view(row)) =~= spec_rows(*self, alien_weapons));
        rows
    }

    /// The panel's backdrop art.
    pub fn backdrop(&self) -> (r: &'static str)
        ensures
            r@ == if *self == TrainerMode::Psi {
                "psitrain.pcx"@
            } else {
                "train.pcx"@
            },
    {
        match self {
            TrainerMode::Psi => "psitrain.pcx",
            _ => "train.pcx",
        }
    }
}

/// The detail line under a row: its price or why there is none. Without cost
/// tables the trainer is offline.
pub open spec fn spec_row_detail(costs: Option<TrainerCostTables>, stats: PlayerStats, target: TrainerTarget) -> Seq<
    char,
> {
    let level = spec_row_level(stats, target);
    match costs {
        None => "(offline)"@,
        Some(c) => {
            let quote = spec_upgrade_quote(c, stats, target);
            if target matches TrainerTarget::Stat(stat) && !spec_stat_upgrade_available(stat) {
                "unavailable"@
            } else if target is PsiTier {
                match quote {
                    Some(cost) => "unlock: "@ + decimal(cost as int) + " cm"@,
                    None => if target->PsiTier_0 <= level {
                        "owned"@
                    } else {
                        "locked"@
                    },
                }
            } else {
                match quote {
                    Some(cost) => "lvl "@ + decimal(level as int) + " > "@ + decimal(level + 1) + ": "@ + decimal(
                        cost as int,
                    ) + " cm"@,
                    None => "lvl "@ + decimal(level as int) + " (MAX)"@,
                }
            }
        },
    }
}

/// The detail line a trainer row shows; see [`spec_row_detail`].
pub fn row_detail(costs: Option<&TrainerCostTables>, stats: &PlayerStats, target: TrainerTarget) -> (r: String)
    requires
        quote_defined(*stats, target),
    ensures
        r@ == spec_row_detail(
            match costs {
                Some(c) => Some(*c),
                None => None,
            },
            *stats,
            target,
        ),
{
    let level = row_level(stats, target);
    let Some(costs) = costs else {
        return String::from_str("(offline)");
    };
    let quote = upgrade_quote(costs, stats, target);
    match target {
        TrainerTarget::Stat(stat) => {
            if !stat_upgrade_available(stat) {
                return String::from_str("unavailable");
            }
        },
        TrainerTarget::PsiTier(tier) => {
            return match quote {
                Some(cost) => {
                    let mut line = String::from_str("unlock: ");
                    push_decimal(&mut line, cost as i64);
                    line.append(" cm");
                    line
                },
                None => if tier <= level {
                    String::from_str("owned")
                } else {
                    String::from_str("locked")
                },
            };
        },
        TrainerTarget::Skill(_) => {},
    }
    let mut line = String::from_str("lvl ");
    push_decimal(&mut line, level as i64);
    match quote {
        Some(cost) => {
            line.append(" > ");
            push_decimal(&mut line, level as i64 + 1);
            line.append(": ");
            push_decimal(&mut line, cost as i64);
            line.append(" cm");
        },
        None => {
            line.append(" (MAX)");
        },
    }
    line
}

/// A trainer panel: the category its machine sells.
pub struct TrainerGui {
    pub mode: TrainerMode,
}

impl TrainerGui {
    pub fn new(mode: TrainerMode) -> (r: TrainerGui)
        ensures
            r.mode == mode,
    {
        TrainerGui { mode }
    }
}

/// The trainer panel's state: the feedback line of the last purchase.
#[derive(Clone, Debug)]
pub struct TrainerGuiState {
    pub message: Option<String>,
}

impl Default for TrainerGuiState {
    fn default() -> (s: TrainerGuiState)
        ensures
            s.message is None,
    {
        TrainerGuiState { message: None }
    }
}

/// Input to a trainer panel.
#[derive(Clone, Copy, Debug)]
pub enum TrainerGuiMsg {
    Buy(TrainerTarget),
}

/// The feedback line and effect of pressing `target`'s row. The purchase
/// itself happens in the mission, which validates again and pays.
pub open spec fn spec_buy(
    costs: Option<TrainerCostTables>,
    stats: PlayerStats,
    target: TrainerTarget,
    hp_per_endurance: i32,
) -> (Seq<char>, bool) {
    match costs {
        None => ("training offline"@, false),
        Some(c) => if target matches TrainerTarget::Stat(stat) && !spec_stat_upgrade_available(stat) {
            ("Upgrade unavailable in this build."@, false)
        } else {
            match spec_upgrade_quote(c, stats, target) {
                None => if target matches TrainerTarget::PsiTier(t) && t > stats.psi_tier + 1 {
                    ("Error! Unlock the previous tier first."@, false)
                } else {
                    ("Error! Already at maximum."@, false)
                },
                Some(cost) => if cost > stats.cyber_modules {
                    ("Error! Insufficient cyber modules."@, false)
                } else if target == TrainerTarget::Stat(Stat::Endurance) {
                    ("Max HP +"@ + decimal(hp_per_endurance as int) + " (-"@ + decimal(cost as int) + " cm)"@, true)
                } else {
                    ("Upgrade complete (-"@ + decimal(cost as int) + " cm)"@, true)
                },
            }
        },
    }
}

impl TrainerGui {
    /// Pressing a row: the feedback line, and the purchase effect when the
    /// row has a price the player can pay (see [`spec_buy`]).
    pub fn handle_msg(
        &self,
        msg: &TrainerGuiMsg,
        stats: &PlayerStats,
        costs: Option<&TrainerCostTables>,
        hp_per_endurance: i32,
    ) -> (r: (TrainerGuiState, Effect))
        requires
            quote_defined(*stats, msg->Buy_0),
        ensures
            ({
                let (text, buys) = spec_buy(
                    match costs {
                        Some(c) => Some(*c),
                        None => None,
                    },
                    *stats,
                    msg->Buy_0,
                    hp_per_endurance,
                );
                &&& r.0.message matches Some(m) && m@ == text
                &&& buys ==> r.1 == (Effect::TrainerPurchase { target: msg->Buy_0 })
                &&& !buys ==> r.1 is NoEffect
            }),
    {
        let TrainerGuiMsg::Buy(target) = msg;
        let target = *target;
        let Some(costs) = costs else {
            return (TrainerGuiState { message: Some(String::from_str("training offline")) }, Effect::NoEffect);
        };
        if let TrainerTarget::Stat(stat) = target {
            if !stat_upgrade_available(stat) {
                return (
                    TrainerGuiState { message: Some(String::from_str("Upgrade unavailable in this build.")) },
                    Effect::NoEffect,
                );
            }
        }
        match upgrade_quote(costs, stats, target) {
            None => {
                let locked = match target {
                    TrainerTarget::PsiTier(t) => t > stats.psi_tier + 1,
                    _ => false,
                };
                let text = if locked {
                    String::from_str("Error! Unlock the previous tier first.")
                } else {
                    String::from_str("Error! Already at maximum.")
                };
                (TrainerGuiState { message: Some(text) }, Effect::NoEffect)
            },
            Some(cost) => {
                if cost > stats.cyber_modules {
                    return (
                        TrainerGuiState { message: Some(String::from_str("Error! Insufficient cyber modules.")) },
                        Effect::NoEffect,
                    );
                }
                let mut text;
                if target == TrainerTarget::Stat(Stat::Endurance) {
                    text = String::from_str("Max HP +");
                    push_decimal(&mut text, hp_per_endurance as i64);
                    text.append(" (-");
                } else {
                    text = String::from_str("Upgrade complete (-");
                }
                push_decimal(&mut text, cost as i64);
                text.append(" cm)");
                (TrainerGuiState { message: Some(text) }, Effect::TrainerPurchase { target })
            },
        }
    }
}

} // verus!
