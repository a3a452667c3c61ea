//! What a gun's modification level does to the way it fires.
//!
//! Each modifiable gun authors its own modify script (`PistolModify`,
//! `ShotgunModify`, ...), and each script is a fixed set of changes to the
//! gun's firing description: multipliers on what the gun authors, every level
//! measured against the unmodified gun. The changes are applied where the
//! firing description is read, never written back, so a modification is a
//! function of the gun's modification level alone and re-deriving it cannot
//! compound.
use vstd::prelude::*;

use crate::panels::{eq_ignore_ascii_case, spec_eq_ignore_ascii_case};
use crate::weapon_boards::MAX_MODIFICATION;

verus! {

/// A multiplier `num / den`.
#[derive(Clone, Copy, Debug, PartialEq, Eq, Structural)]
pub struct Ratio {
    pub num: u32,
    pub den: u32,
}

/// The multipliers of the table: small, with a positive denominator.
pub open spec fn ratio_ok(r: Ratio) -> bool {
    r.num <= 16 && 1 <= r.den <= 16
}

/// A gun's firing description at one modification level, as multipliers on
/// the values it authors.
#[derive(Clone, Copy, Debug, PartialEq, Eq, Structural)]
pub struct Modification {
    /// Magazine size.
    pub clip: Ratio,
    /// Time to reload; below one is faster.
    pub reload: Ratio,
    /// Ammo units per shot; below one is thriftier.
    pub ammo_usage: Ratio,
    /// Projectile speed.
    pub speed: Ratio,
    /// The projectile's stimulus: the gun's damage.
    pub damage: Ratio,
}

pub open spec fn modification_ok(m: Modification) -> bool {
    ratio_ok(m.clip) && ratio_ok(m.reload) && ratio_ok(m.ammo_usage) && ratio_ok(m.speed) && ratio_ok(m.damage)
}

/// The modify scripts of the ten modifiable guns, in table order.
pub const MODIFY_SCRIPTS: [&'static str; 10] = [
    "PistolModify",
    "RifleModify",
    "ShotgunModify",
    "LaserModify",
    "EMPModify",
    "GrenadeModify",
    "StasisModify",
    "FusionModify",
    "AnnelidModify",
    "ViralModify",
];

pub open spec fn r(num: u32, den: u32) -> Ratio {
    Ratio { num, den }
}

/// A level read as the shipped text does: clip, reload, ammo usage, speed,
/// damage.
pub open spec fn lvl(clip: Ratio, reload: Ratio, ammo_usage: Ratio, speed: Ratio, damage: Ratio) -> Modification {
    Modification { clip, reload, ammo_usage, speed, damage }
}

/// The unmodified gun: every value as authored.
pub open spec fn no_modification() -> Modification {
    lvl(r(1, 1), r(1, 1), r(1, 1), r(1, 1), r(1, 1))
}

/// What modification `level` (1 or 2) does to table entry `entry`. Reducing
/// "by 2/3rds" leaves a third; every gun that does damage gets a tenth more
/// at the first level and a quarter more at the second, over the unmodified
/// gun; the stasis generator does no damage, so it has no damage change.
pub open spec fn spec_table(entry: int, level: int) -> Modification {
    let first = level == 1;
    let d = if first { r(11, 10) } else { r(5, 4) };
    if entry == 0 {
        // Pistol: clip 12 -> 24, then a reload cut to a third.
        if first { lvl(r(2, 1), r(1, 1), r(1, 1), r(1, 1), d) } else { lvl(r(2, 1), r(1, 3), r(1, 1), r(1, 1), d) }
    } else if entry == 1 {
        // Assault rifle: a reload cut, then clip 36 -> 72.
        if first { lvl(r(1, 1), r(1, 3), r(1, 1), r(1, 1), d) } else { lvl(r(2, 1), r(1, 3), r(1, 1), r(1, 1), d) }
    } else if entry == 2 {
        // Shotgun: a reload cut, kept at the second level.
        lvl(r(1, 1), r(1, 3), r(1, 1), r(1, 1), d)
    } else if entry == 3 {
        // Laser pistol: charge to 150%, then half the draw.
        if first { lvl(r(3, 2), r(1, 1), r(1, 1), r(1, 1), d) } else { lvl(r(3, 2), r(1, 1), r(1, 2), r(1, 1), d) }
    } else if entry == 4 {
        // EMP rifle: charge to 150% and a faster shot, then half the draw.
        if first { lvl(r(3, 2), r(1, 1), r(1, 1), r(3, 2), d) } else { lvl(r(3, 2), r(1, 1), r(1, 2), r(3, 2), d) }
    } else if entry == 5 {
        // Grenade launcher: clip 6 -> 9, then faster grenades and a third off
        // the reload.
        if first { lvl(r(3, 2), r(1, 1), r(1, 1), r(1, 1), d) } else { lvl(r(3, 2), r(2, 3), r(1, 1), r(3, 2), d) }
    } else if entry == 6 {
        // Stasis field generator: half again the shot speed, then half the
        // prisms; no damage to scale.
        if first { lvl(r(1, 1), r(1, 1), r(1, 1), r(3, 2), r(1, 1)) } else { lvl(r(1, 1), r(1, 1), r(1, 2), r(3, 2), r(1, 1)) }
    } else if entry == 8 {
        // Annelid launcher: a bigger clip, then twice the projectile speed.
        if first { lvl(r(2, 1), r(1, 1), r(1, 1), r(1, 1), d) } else { lvl(r(2, 1), r(1, 1), r(1, 1), r(2, 1), d) }
    } else {
        // Fusion cannon and viral proliferator: a bigger clip, then half the
        // draw.
        if first { lvl(r(2, 1), r(1, 1), r(1, 1), r(1, 1), d) } else { lvl(r(2, 1), r(1, 1), r(1, 2), r(1, 1), d) }
    }
}

/// The first table entry whose script is among `scripts` (ASCII case
/// ignored), from entry `entry` on.
pub open spec fn first_table_match(scripts: Seq<Seq<char>>, entry: int) -> Option<int>
    decreases 10 - entry,
{
    if entry < 0 || entry >= 10 {
        None
    } else if exists|i: int| 0 <= i < scripts.len() && spec_eq_ignore_ascii_case(#[trigger] scripts[i], MODIFY_SCRIPTS[entry]@) {
        Some(entry)
    } else {
        first_table_match(scripts, entry + 1)
    }
}

/// Whether any of `scripts` names `target`, ASCII case ignored.
fn names_script(scripts: &Vec<String>, target: &str) -> (r: bool)
    ensures
        r == exists|i: int| 0 <= i < scripts@.len() && spec_eq_ignore_ascii_case(#[trigger] scripts@[i]@, target@),
{
    let mut i: usize = 0;
    while i < scripts.len()
        invariant
            i <= scripts@.len(),
            forall|k: int| 0 <= k < i ==> !spec_eq_ignore_ascii_case(#[trigger] scripts@[k]@, target@),
        decreases scripts@.len() - i,
    {
        if eq_ignore_ascii_case(scripts[i].as_str(), target) {
            return true;
        }
        i += 1;
    }
    false
}

/// The table entry a gun with these scripts is modified by, or `None` for a
/// gun that authors no modify script and cannot be modified at all.
pub fn table_entry(scripts: &Vec<String>) -> (r: Option<usize>)
    ensures
        match first_table_match(scripts@.map_values(|s: String| s@), 0) {
            Some(e) => r == Some(e as usize),
            None => r is None,
        },
{
    let ghost views = scripts@.map_values(|s: String| s@);
    let mut entry: usize = 0;
    while entry < 10
        invariant
            entry <= 10,
            views == scripts@.map_values(|s: String| s@),
            first_table_match(views, 0) == first_table_match(views, entry as int),
        decreases 10 - entry,
    {
        let found = names_script(scripts, MODIFY_SCRIPTS[entry]);
        proof {
            assert forall|i: int| 0 <= i < scripts@.len() implies #[trigger] views[i] == scripts@[i]@ by {}
            if found {
                let i = choose|i: int| 0 <= i < scripts@.len() && spec_eq_ignore_ascii_case(#[trigger] scripts@[i]@, MODIFY_SCRIPTS[entry as int]@);
                assert(spec_eq_ignore_ascii_case(views[i], MODIFY_SCRIPTS[entry as int]@));
            } else {
                assert forall|i: int| 0 <= i < views.len() implies !spec_eq_ignore_ascii_case(#[trigger] views[i], MODIFY_SCRIPTS[entry as int]@) by {
                    assert(views[i] == scripts@[i]@);
                }
            }
        }
        if found {
            return Some(entry);
        }
        entry += 1;
    }
    None
}

/// Whether a gun with these scripts authors a modify script: the data's own
/// answer to "is this a gun modification does anything to".
pub fn has_modify_script(scripts: &Vec<String>) -> (r: bool)
    ensures
        r == (first_table_match(scripts@.map_values(|s: String| s@), 0) is Some),
{
    table_entry(scripts).is_some()
}

/// A raw modification count held to what a gun can reach.
pub open spec fn spec_clamp_level(raw: i32) -> i32 {
    if raw < 0 { 0 } else if raw > MAX_MODIFICATION { MAX_MODIFICATION } else { raw }
}

/// The modification a gun carries: none at level 0 or without a modify
/// script, its table entry's level otherwise (a level past the last reads as
/// the last).
pub open spec fn spec_current(entry: Option<usize>, raw_level: i32) -> Modification {
    let level = spec_clamp_level(raw_level);
    match entry {
        Some(e) if level > 0 && e < 10 => spec_table(e as int, level as int),
        _ => no_modification(),
    }
}

fn ratio(num: u32, den: u32) -> (x: Ratio)
    ensures
        x == r(num, den),
{
    Ratio { num, den }
}

fn level_of(clip: Ratio, reload: Ratio, ammo_usage: Ratio, speed: Ratio, damage: Ratio) -> (m: Modification)
    ensures
        m == lvl(clip, reload, ammo_usage, speed, damage),
{
    Modification { clip, reload, ammo_usage, speed, damage }
}

/// The modification a gun with table entry `entry` carries at `raw_level`;
/// see [`spec_current`].
pub fn current_modification(entry: Option<usize>, raw_level: i32) -> (m: Modification)
    ensures
        m == spec_current(entry, raw_level),
        modification_ok(m),
{
    let level = if raw_level < 0 {
        0
    } else if raw_level > MAX_MODIFICATION {
        MAX_MODIFICATION
    } else {
        raw_level
    };
    let one = ratio(1, 1);
    let e = match entry {
        Some(e) if level > 0 && e < 10 => e,
        _ => return level_of(one, one, one, one, one),
    };
    let first = level == 1;
    let d = if first { ratio(11, 10) } else { ratio(5, 4) };
    if e == 0 {
        if first { level_of(ratio(2, 1), one, one, one, d) } else { level_of(ratio(2, 1), ratio(1, 3), one, one, d) }
    } else if e == 1 {
        if first { level_of(one, ratio(1, 3), one, one, d) } else { level_of(ratio(2, 1), ratio(1, 3), one, one, d) }
    } else if e == 2 {
        level_of(one, ratio(1, 3), one, one, d)
    } else if e == 3 {
        if first { level_of(ratio(3, 2), one, one, one, d) } else { level_of(ratio(3, 2), one, ratio(1, 2), one, d) }
    } else if e == 4 {
        if first {
            level_of(ratio(3, 2), one, one, ratio(3, 2), d)
        } else {
            level_of(ratio(3, 2), one, ratio(1, 2), ratio(3, 2), d)
        }
    } else if e == 5 {
        if first {
            level_of(ratio(3, 2), one, one, one, d)
        } else {
            level_of(ratio(3, 2), ratio(2, 3), one, ratio(3, 2), d)
        }
    } else if e == 6 {
        if first { level_of(one, one, one, ratio(3, 2), one) } else { level_of(one, one, ratio(1, 2), ratio(3, 2), one) }
    } else if e == 8 {
        if first { level_of(ratio(2, 1), one, one, one, d) } else { level_of(ratio(2, 1), one, one, ratio(2, 1), d) }
    } else {
        if first { level_of(ratio(2, 1), one, one, one, d) } else { level_of(ratio(2, 1), one, ratio(1, 2), one, d) }
    }
}

/// `v * r`, rounded to the nearest whole number, halves away from zero
/// (`v` is not negative).
pub open spec fn round_ratio(v: int, x: Ratio) -> int {
    (2 * (v * x.num) + x.den) / (2 * x.den)
}

/// A count that has to stay whole and at least one (a magazine, or the rounds
/// a shot costs), scaled. A count that is not positive is one the gun does not
/// author, and stays exactly as it is.
pub open spec fn spec_scale_count(value: i32, x: Ratio) -> i32 {
    if value <= 0 {
        value
    } else {
        let scaled = round_ratio(value as int, x);
        if scaled < 1 { 1 } else if scaled > i32::MAX { i32::MAX } else { scaled as i32 }
    }
}

/// A count scaled; see [`spec_scale_count`].
pub fn scale_count(value: i32, x: Ratio) -> (s: i32)
    requires
        ratio_ok(x),
    ensures
        s == spec_scale_count(value, x),
{
    if value <= 0 {
        return value;
    }
    let v = value as u64;
    assert(v * x.num <= 0x8000_0000u64 * 16) by (nonlinear_arith)
        requires
            v <= 0x8000_0000u64,
            x.num <= 16,
    ;
    let prod: u64 = v * x.num as u64;
    let scaled = (2 * prod + x.den as u64) / (2 * x.den as u64);
    if scaled < 1 {
        1
    } else if scaled > i32::MAX as u64 {
        i32::MAX
    } else {
        scaled as i32
    }
}

/// A reload time scaled and rounded, held to the `u32` range.
pub open spec fn spec_scale_reload(ms: u32, x: Ratio) -> u32 {
    let scaled = round_ratio(ms as int, x);
    if scaled > u32::MAX { u32::MAX } else { scaled as u32 }
}

/// A reload time scaled; see [`spec_scale_reload`].
pub fn scale_reload(ms: u32, x: Ratio) -> (s: u32)
    requires
        ratio_ok(x),
    ensures
        s == spec_scale_reload(ms, x),
{
    let v = ms as u64;
    assert(v * x.num <= 0x1_0000_0000u64 * 16) by (nonlinear_arith)
        requires
            v <= 0x1_0000_0000u64,
            x.num <= 16,
    ;
    let prod: u64 = v * x.num as u64;
    let scaled = (2 * prod + x.den as u64) / (2 * x.den as u64);
    if scaled > u32::MAX as u64 {
        u32::MAX
    } else {
        scaled as u32
    }
}

/// The whole-number part of a fire setting a modification changes.
#[derive(Clone, Copy, Debug, PartialEq, Eq, Structural)]
pub struct SettingCounts {
    pub clip: i32,
    pub ammo_usage: i32,
    pub reload_time_ms: u32,
}

/// A fire setting's counts as a gun carrying `m` fires it. Speed and damage
/// are the multipliers `m.speed` and `m.damage` on the authored factors.
pub fn apply_counts(counts: SettingCounts, m: Modification) -> (out: SettingCounts)
    requires
        modification_ok(m),
    ensures
        out.clip == spec_scale_count(counts.clip, m.clip),
        out.ammo_usage == spec_scale_count(counts.ammo_usage, m.ammo_usage),
        out.reload_time_ms == spec_scale_reload(counts.reload_time_ms, m.reload),
{
    SettingCounts {
        clip: scale_count(counts.clip, m.clip),
        ammo_usage: scale_count(counts.ammo_usage, m.ammo_usage),
        reload_time_ms: scale_reload(counts.reload_time_ms, m.reload),
    }
}

/// Whether a gun's own modify text promises half the draw at its second
/// modification: the laser pistol, the EMP rifle, the stasis field
/// generator, the fusion cannon and the viral proliferator (table entries 3,
/// 4, 6, 7 and 9).
pub open spec fn halves_the_draw(entry: int) -> bool {
    entry == 3 || entry == 4 || entry == 6 || entry == 7 || entry == 9
}

/// What a shot costs after modification: the guns whose text promises it
/// fire for half the authored draw (rounded, halves up) once modified twice
/// or more, and every other gun, and every gun at the first level or none,
/// fires for exactly what it authors. A draw the gun does not author (zero
/// or less) stays as it is.
pub proof fn law_second_modification_halves_the_draw(entry: Option<usize>, raw_level: i32, usage: i32)
    ensures
        spec_scale_count(usage, spec_current(entry, raw_level).ammo_usage) == if usage <= 0 {
            usage as int
        } else if entry matches Some(e) && halves_the_draw(e as int) && raw_level >= 2 {
            (usage + 1) / 2
        } else {
            usage as int
        },
{
    let m = spec_current(entry, raw_level);
    let u = usage as int;
    if usage > 0 {
        if entry matches Some(e) && halves_the_draw(e as int) && raw_level >= 2 {
            assert(m.ammo_usage == r(1, 2));
            assert(round_ratio(u, r(1, 2)) == (u + 1) / 2) by (nonlinear_arith)
                requires
                    u > 0,
            ;
        } else {
            assert(m.ammo_usage == r(1, 1));
            assert(round_ratio(u, r(1, 1)) == u) by (nonlinear_arith)
                requires
                    u > 0,
            ;
        }
    }
}

/// A modification invents nothing: at any level, a gun with no modify script
/// carries no change at all, the setting a gun does not author (counts and
/// reload of zero) stays zero, and the unmodified gun reloads exactly as
/// authored.
pub proof fn law_modification_never_invents_a_magazine(entry: Option<usize>, raw_level: i32, reload_ms: u32)
    ensures
        spec_current(None, raw_level) == no_modification(),
        spec_scale_count(0, spec_current(entry, raw_level).clip) == 0,
        spec_scale_count(0, spec_current(entry, raw_level).ammo_usage) == 0,
        spec_scale_reload(0, spec_current(entry, raw_level).reload) == 0,
        spec_scale_reload(reload_ms, no_modification().reload) == reload_ms,
{
    let m = spec_current(entry, raw_level);
    assert(m.reload.den >= 1) by {
        let level = spec_clamp_level(raw_level);
        match entry {
            Some(e) if level > 0 && e < 10 => {},
            _ => {},
        }
    }
    assert((2 * (0 * m.reload.num) + m.reload.den) / (2 * m.reload.den) == 0) by (nonlinear_arith)
        requires
            m.reload.den >= 1,
    ;
    assert((2 * ((reload_ms as int) * 1) + 1) / 2int == reload_ms as int);
}

} // verus!
