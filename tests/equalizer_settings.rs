use osmp_audio::equalizer::{
    bump_settings_version, clamp_gain, find_preset, get_presets, get_settings_version, EqUpdate,
    EqualizerSettings, FilterType, SettingsVersion,
};

fn gains(s: &EqualizerSettings) -> Vec<i32> {
    s.bands.iter().map(|b| b.gain_cdb).collect()
}

#[test]
fn default_settings_layout() {
    let s = EqualizerSettings::default();
    assert!(s.enabled);
    assert_eq!(s.preamp_cdb, 0);
    assert_eq!(s.preset_name, "Flat");
    let freqs: Vec<u32> = s.bands.iter().map(|b| b.frequency_hz).collect();
    assert_eq!(freqs, vec![60, 250, 1000, 4000, 16000]);
    let labels: Vec<&str> = s.bands.iter().map(|b| b.label.as_str()).collect();
    assert_eq!(labels, vec!["60Hz", "250Hz", "1kHz", "4kHz", "16kHz"]);
    assert_eq!(s.bands[0].filter_type, FilterType::LowShelf);
    assert_eq!(s.bands[2].filter_type, FilterType::Peaking);
    assert_eq!(s.bands[4].filter_type, FilterType::HighShelf);
    assert_eq!(s.bands[0].q_milli, 707);
    assert_eq!(s.bands[1].q_milli, 1000);
    assert_eq!(gains(&s), vec![0, 0, 0, 0, 0]);
}

#[test]
fn gain_is_clamped_to_twelve_db() {
    assert_eq!(clamp_gain(1500), 1200);
    assert_eq!(clamp_gain(-1500), -1200);
    assert_eq!(clamp_gain(1200), 1200);
    assert_eq!(clamp_gain(-350), -350);
}

#[test]
fn set_band_gain_clamps_and_marks_custom() {
    let mut s = EqualizerSettings::default();
    s.set_band_gain(2, 1500);
    assert_eq!(gains(&s), vec![0, 0, 1200, 0, 0]);
    assert_eq!(s.preset_name, "Custom");
    s.set_band_gain(0, -450);
    assert_eq!(gains(&s), vec![-450, 0, 1200, 0, 0]);
}

#[test]
fn set_band_gain_past_last_band_is_ignored() {
    let mut s = EqualizerSettings::default();
    s.set_band_gain(5, 600);
    assert_eq!(gains(&s), vec![0, 0, 0, 0, 0]);
    assert_eq!(s.preset_name, "Flat");
}

#[test]
fn preamp_is_clamped() {
    let mut s = EqualizerSettings::default();
    s.set_preamp(-2000);
    assert_eq!(s.preamp_cdb, -1200);
    s.set_preamp(350);
    assert_eq!(s.preamp_cdb, 350);
}

#[test]
fn preset_round_trips_through_snapshot() {
    let mut s = EqualizerSettings::default();
    s.apply_update(EqUpdate::Preset {
        bands: [400, 200, -100, 300, 400],
        preamp_cdb: -100,
        name: "Rock".to_string(),
    });
    let snap = s.snapshot();
    assert_eq!(gains(&snap), vec![400, 200, -100, 300, 400]);
    assert_eq!(snap.preamp_cdb, -100);
    assert_eq!(snap.preset_name, "Rock");
    assert_eq!(snap.bands[3].label, "4kHz");
}

#[test]
fn preset_gains_are_not_clamped() {
    let mut s = EqualizerSettings::default();
    s.apply_preset([2000, 0, 0, 0, -2000], 1500, "Wild".to_string());
    assert_eq!(gains(&s), vec![2000, 0, 0, 0, -2000]);
    assert_eq!(s.preamp_cdb, 1500);
}

#[test]
fn repeated_band_update_is_idempotent() {
    let mut once = EqualizerSettings::default();
    once.apply_update(EqUpdate::Band { band: 1, gain_cdb: 450 });
    let mut twice = EqualizerSettings::default();
    twice.apply_update(EqUpdate::Band { band: 1, gain_cdb: 450 });
    twice.apply_update(EqUpdate::Band { band: 1, gain_cdb: 450 });
    assert_eq!(gains(&once), gains(&twice));
    assert_eq!(once.preset_name, twice.preset_name);
    assert_eq!(once.active_bands(), twice.active_bands());
    assert_eq!(twice.active_bands(), [false, true, false, false, false]);
}

#[test]
fn flat_enabled_bands_are_bypassed() {
    let s = EqualizerSettings::default();
    assert_eq!(s.active_bands(), [false; 5]);
}

#[test]
fn disabled_equalizer_bypasses_every_band() {
    let mut s = EqualizerSettings::default();
    s.apply_preset([600, 400, -300, 200, 100], 0, "Mine".to_string());
    assert_eq!(s.active_bands(), [true; 5]);
    s.apply_update(EqUpdate::Enabled(false));
    assert!(!s.enabled);
    assert_eq!(s.active_bands(), [false; 5]);
}

#[test]
fn near_zero_gain_is_bypassed() {
    let mut s = EqualizerSettings::default();
    s.apply_preset([1, -1, 2, -2, 0], 0, "Tiny".to_string());
    assert_eq!(s.active_bands(), [false, false, true, true, false]);
}

#[test]
fn presets_are_listed_in_order() {
    let p = get_presets();
    let names: Vec<&str> = p.iter().map(|x| x.name.as_str()).collect();
    assert_eq!(
        names,
        vec!["Flat", "More Bass", "Rock", "Pop", "Jazz", "Classical", "R&B", "Vocal Boost"]
    );
    assert_eq!(p[1].bands, [600, 400, 0, 0, 0]);
    assert_eq!(p[1].preamp_cdb, -200);
    assert_eq!(p[6].bands, [500, 300, -100, 200, 300]);
    assert_eq!(p[7].bands, [-200, 0, 400, 300, 100]);
}

#[test]
fn settings_version_counts_bumps() {
    let v = SettingsVersion::new();
    assert_eq!(get_settings_version(&v), 0);
    bump_settings_version(&v);
    bump_settings_version(&v);
    assert_eq!(get_settings_version(&v), 2);
}

#[test]
fn preset_found_by_exact_name() {
    let jazz = find_preset("Jazz").expect("Jazz is built in");
    assert_eq!(jazz.name, "Jazz");
    assert_eq!(jazz.bands, [300, 100, -100, 200, 400]);
    assert_eq!(jazz.preamp_cdb, 0);
    let rnb = find_preset("R&B").expect("R&B is built in");
    assert_eq!(rnb.preamp_cdb, -100);
    assert!(find_preset("jazz").is_none());
    assert!(find_preset("").is_none());
    assert!(find_preset("Metal").is_none());
}
