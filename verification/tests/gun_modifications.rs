use shock2vr::gun_modifications::{
    apply_counts, current_modification, has_modify_script, table_entry, Modification, Ratio, SettingCounts,
};
use shock2vr::weapon_boards::MAX_MODIFICATION;

fn scripts(names: &[&str]) -> Vec<String> {
    names.iter().map(|s| (*s).to_owned()).collect()
}

/// The shipped pistol's first fire setting.
fn pistol_setting() -> SettingCounts {
    SettingCounts { clip: 12, ammo_usage: 1, reload_time_ms: 500 }
}

fn modified(names: &[&str], level: i32, setting: SettingCounts) -> SettingCounts {
    apply_counts(setting, current_modification(table_entry(&scripts(names)), level))
}

fn current(names: &[&str], level: i32) -> Modification {
    current_modification(table_entry(&scripts(names)), level)
}

fn as_f32(r: Ratio) -> f32 {
    r.num as f32 / r.den as f32
}

#[test]
fn the_pistol_gains_a_clip_then_a_faster_reload() {
    for (level, clip, reload) in [(0, 12, 500), (1, 24, 500), (2, 24, 167)] {
        let m = modified(&["PistolModify", "WeaponScript"], level, pistol_setting());
        assert_eq!((m.clip, m.reload_time_ms), (clip, reload));
    }
}

#[test]
fn damage_is_measured_against_the_unmodified_gun() {
    for (level, expected) in [(0, 1.0f32), (1, 1.1), (2, 1.25)] {
        let damage = 1.0 * as_f32(current(&["PistolModify"], level).damage);
        assert!((damage - expected).abs() < 1e-5);
    }
}

#[test]
fn the_rifle_gains_a_faster_reload_then_a_clip() {
    let base = SettingCounts { clip: 36, reload_time_ms: 1000, ..pistol_setting() };
    for (level, clip, reload) in [(0, 36, 1000), (1, 36, 333), (2, 72, 333)] {
        let m = modified(&["RifleModify"], level, base);
        assert_eq!((m.clip, m.reload_time_ms), (clip, reload));
    }
}

#[test]
fn the_shotgun_keeps_its_faster_reload_at_the_second_modification() {
    let base = SettingCounts { reload_time_ms: 1000, ..pistol_setting() };
    assert_eq!(modified(&["ShotgunModify"], 2, base).reload_time_ms, 333);
    assert!((as_f32(current(&["ShotgunModify"], 2).damage) - 1.25).abs() < 1e-5);
}

#[test]
fn the_laser_gains_charge_then_efficiency() {
    let base = SettingCounts { clip: 100, ammo_usage: 3, reload_time_ms: 0 };
    for (level, clip, usage) in [(0, 100, 3), (1, 150, 3), (2, 150, 2)] {
        let m = modified(&["LaserModify"], level, base);
        assert_eq!((m.clip, m.ammo_usage), (clip, usage));
    }
}

#[test]
fn the_stasis_generator_gains_shot_speed_then_efficiency() {
    let base = SettingCounts { clip: 12, ammo_usage: 4, reload_time_ms: 0 };
    for (level, speed, usage) in [(0, 0.6f32, 4), (1, 0.9, 4), (2, 0.9, 2)] {
        let modification = current(&["StasisModify"], level);
        assert!((0.6 * as_f32(modification.speed) - speed).abs() < 1e-5);
        assert_eq!(apply_counts(base, modification).ammo_usage, usage);
        assert!((as_f32(modification.damage) - 1.0).abs() < 1e-5);
    }
}

#[test]
fn a_setting_the_gun_does_not_author_is_left_alone() {
    let unauthored = SettingCounts { clip: 0, ammo_usage: 0, reload_time_ms: 0 };
    for level in 0..=2 {
        let m = modified(&["PistolModify"], level, unauthored);
        assert_eq!((m.clip, m.ammo_usage), (0, 0));
        assert_eq!(m.reload_time_ms, 0);
        assert_eq!(modified(&["PsiAmpScript"], level, unauthored), unauthored);
    }
}

#[test]
fn a_gun_with_no_modify_script_is_never_altered() {
    assert!(!has_modify_script(&scripts(&["WeaponScript"])));
    assert_eq!(modified(&["WeaponScript"], 2, pistol_setting()), pistol_setting());
    let unchanged = current(&["WeaponScript"], 2);
    assert_eq!(unchanged.speed, Ratio { num: 1, den: 1 });
    assert_eq!(unchanged.damage, Ratio { num: 1, den: 1 });
}

#[test]
fn re_deriving_a_modification_gives_the_same_gun() {
    let once = modified(&["PistolModify"], 2, pistol_setting());
    let twice = modified(&["PistolModify"], 2, pistol_setting());
    assert_eq!(once, twice);
    assert_eq!(once.clip, 24);
}

#[test]
fn a_level_past_the_last_reads_as_the_last() {
    assert_eq!(modified(&["PistolModify"], 7, pistol_setting()).clip, 24);
    assert_eq!(current(&["PistolModify"], 7), current(&["PistolModify"], MAX_MODIFICATION));
}

#[test]
fn a_modify_script_is_found_whatever_its_case() {
    assert_eq!(table_entry(&scripts(&["weaponscript", "pistolmodify"])), Some(0));
    assert_eq!(table_entry(&scripts(&["ViralModify"])), Some(9));
    assert!(has_modify_script(&scripts(&["GRENADEMODIFY"])));
}

#[test]
fn counts_round_to_the_nearest_and_never_drop_below_one() {
    // The grenade launcher's clip: 6 -> 9; a one-round magazine stays one.
    assert_eq!(modified(&["GrenadeModify"], 1, SettingCounts { clip: 6, ammo_usage: 1, reload_time_ms: 900 }).clip, 9);
    assert_eq!(modified(&["LaserModify"], 2, SettingCounts { clip: 1, ammo_usage: 1, reload_time_ms: 0 }).ammo_usage, 1);
    // A third off 900 ms leaves 600 ms.
    assert_eq!(modified(&["GrenadeModify"], 2, SettingCounts { clip: 6, ammo_usage: 1, reload_time_ms: 900 }).reload_time_ms, 600);
}
