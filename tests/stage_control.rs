use osmp_audio::stage::{vis_bands_active, vis_frequency, StageControl, VIS_BAND_COUNT};

#[test]
fn window_is_about_46_ms() {
    assert_eq!(StageControl::new(2, 44100, 0).vis_window_size, 2028);
    assert_eq!(StageControl::new(2, 48000, 0).vis_window_size, 2208);
    assert_eq!(StageControl::new(1, 8000, 0).vis_window_size, 368);
}

#[test]
fn analysis_bands_below_nyquist_only() {
    assert_eq!(vis_bands_active(44100), [true; 10]);
    let low = vis_bands_active(22050);
    assert_eq!(low[8], true);
    assert_eq!(low[9], false);
    let tiny = vis_bands_active(1000);
    assert_eq!(tiny, [true, true, true, true, false, false, false, false, false, false]);
    let freqs: Vec<u32> = (0..VIS_BAND_COUNT).map(vis_frequency).collect();
    assert_eq!(freqs, vec![32, 64, 125, 250, 500, 1000, 2000, 4000, 8000, 16000]);
}

#[test]
fn stereo_samples_alternate_channels() {
    let mut c = StageControl::new(2, 44100, 7);
    assert!(c.at_frame_start());
    let s0 = c.advance();
    assert_eq!((s0.channel, s0.memory_slot, s0.analyze), (0, 0, true));
    assert!(!c.at_frame_start());
    let s1 = c.advance();
    assert_eq!((s1.channel, s1.memory_slot, s1.analyze, s1.publish), (1, 1, false, false));
    assert!(c.at_frame_start());
    assert_eq!(c.vis_sample_count, 1);
}

#[test]
fn six_channels_share_second_memory_slot() {
    let mut c = StageControl::new(6, 48000, 0);
    let slots: Vec<usize> = (0..7).map(|_| c.advance().memory_slot).collect();
    assert_eq!(slots, vec![0, 1, 1, 1, 1, 1, 0]);
}

#[test]
fn window_publishes_and_restarts() {
    let mut c = StageControl::new(1, 100, 0);
    assert_eq!(c.vis_window_size, 4);
    let published: Vec<bool> = (0..9).map(|_| c.advance().publish).collect();
    assert_eq!(published, vec![false, false, false, true, false, false, false, true, false]);
    assert_eq!(c.vis_sample_count, 1);
}

#[test]
fn settings_change_is_seen_once() {
    let mut c = StageControl::new(2, 44100, 3);
    assert!(!c.settings_changed(3));
    assert!(c.settings_changed(4));
    assert_eq!(c.last_checked_version, 4);
    assert!(!c.settings_changed(4));
}

#[test]
fn seek_matches_cold_start() {
    let mut c = StageControl::new(2, 44100, 5);
    for _ in 0..11 {
        c.advance();
    }
    assert!(c.settings_changed(9));
    c.seek_reset();
    assert_eq!(c, StageControl::new(2, 44100, 9));
}
