use shock2vr::scripts::{ImmolatePulse, IMMOLATE_PULSE_INTERVAL_MS};

#[test]
fn inactive_power_never_pulses() {
    let mut aura = ImmolatePulse::new();
    for _ in 0..300 {
        assert!(!aura.tick(true, false, true, 1000 / 60));
    }
}

#[test]
fn active_power_pulses_the_authored_stim_once_per_interval() {
    let mut aura = ImmolatePulse::new();
    let mut pulses = 0;
    // Three seconds in quarter-second steps.
    for _ in 0..12 {
        if aura.tick(true, true, true, 250) {
            pulses += 1;
        }
    }
    assert_eq!(pulses, 3);
}

#[test]
fn a_long_frame_never_fires_a_burst() {
    let mut aura = ImmolatePulse::new();
    assert!(aura.tick(true, true, true, 10_000));
    assert_eq!(aura.ms_since_pulse, IMMOLATE_PULSE_INTERVAL_MS);
    assert!(aura.tick(true, true, true, 0));
    assert!(!aura.tick(true, true, true, 0));
}

#[test]
fn a_fresh_cast_pulses_promptly_and_a_missing_player_keeps_the_pulse() {
    let mut aura = ImmolatePulse::new();
    // While the power is off the timer is held full.
    assert!(!aura.tick(true, false, true, 16));
    // No player to center on: the pulse waits rather than being spent.
    assert!(!aura.tick(true, true, false, 16));
    assert!(aura.tick(true, true, true, 0));
    // Without an authored stim nothing ever happens.
    let mut bare = ImmolatePulse::new();
    assert!(!bare.tick(false, true, true, 5000));
    assert_eq!(bare.ms_since_pulse, 0);
}
