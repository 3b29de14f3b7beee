use voice_transcribe::audio::{
    compute_band_bins, describe_audio_inputs, recorder_needs_respawn, resolve_audio_input,
    DetectedInput, DeviceState, InputChoice, SampleWindow, EQ_BAND_COUNT,
};
use voice_transcribe::error::AppError;
use voice_transcribe::settings::AudioInputSelection;

#[test]
fn test_compute_band_bins() {
    let bins = compute_band_bins(48000, 1024);
    assert_eq!(bins.len(), EQ_BAND_COUNT);
    // Each band should have start <= end
    for (start, end) in &bins {
        assert!(
            start <= end,
            "Band start {} should be <= end {}",
            start,
            end
        );
    }
}

/// The bins as the floating-point formula computes them.
fn float_band_bins(sample_rate: u32, fft_size: usize) -> Vec<(usize, usize)> {
    let bin_width = sample_rate as f32 / fft_size as f32;
    let nyquist = sample_rate as f32 / 2.0;
    [120.0f32, 250.0, 500.0, 1000.0, 2000.0, 4000.0, 8000.0]
        .iter()
        .map(|&center| {
            let low_f = center * 0.7_f32;
            let high_f = center * 1.3_f32;
            let low = if low_f > 120.0 { low_f } else { 120.0 };
            let high = if high_f < nyquist { high_f } else { nyquist };
            ((low / bin_width).round() as usize, (high / bin_width).round() as usize)
        })
        .collect()
}

#[test]
fn band_bins_match_the_float_formula_at_common_rates() {
    for rate in [16000u32, 44100, 48000] {
        assert_eq!(compute_band_bins(rate, 1024), float_band_bins(rate, 1024));
    }
}

#[test]
fn band_bins_at_48k() {
    let bins = compute_band_bins(48000, 1024);
    assert_eq!(bins[0], (3, 3));
    assert_eq!(bins[6], (119, 222));
}

#[test]
fn band_bins_clamp_to_nyquist() {
    // 16 kHz: Nyquist is 8 kHz, so the top band ends there.
    let bins = compute_band_bins(16000, 1024);
    assert_eq!(bins[6], (358, 512));
}

#[test]
fn band_bins_at_degenerate_rates() {
    assert_eq!(compute_band_bins(0, 1024)[0], (usize::MAX, 0));
    assert_eq!(compute_band_bins(48000, 0)[3], (0, 0));
}

fn device(name: &str) -> DetectedInput {
    DetectedInput { name: name.to_string(), state: DeviceState::Available }
}

#[test]
fn duplicate_device_names_get_numbered_suffixes() {
    let devices = vec![device("Mic"), device("USB"), device("Mic"), device("Mic")];
    let default = "USB".to_string();
    let listed = describe_audio_inputs(&devices, Some(&default));
    assert_eq!(listed.len(), 4);
    assert_eq!(listed[0].name_suffix, " \u{2014} #1");
    assert_eq!(listed[1].name_suffix, "");
    assert_eq!(listed[2].name_suffix, " \u{2014} #2");
    assert_eq!(listed[3].name_suffix, " \u{2014} #3");
    assert!(listed[1].is_default);
    assert!(!listed[0].is_default);
    assert_eq!(listed[3].session_index, 3);
}

#[test]
fn device_states_are_kept() {
    let devices = vec![
        DetectedInput { name: "A".to_string(), state: DeviceState::Unavailable },
        DetectedInput { name: "B".to_string(), state: DeviceState::FormatUnsupported },
    ];
    let listed = describe_audio_inputs(&devices, None);
    assert_eq!(listed[0].state, DeviceState::Unavailable);
    assert_eq!(listed[1].state, DeviceState::FormatUnsupported);
    assert!(!listed[0].is_default);
}

#[test]
fn named_selection_resolves_to_the_unique_match() {
    let devices = vec![device("Mic"), device("USB")];
    let sel = AudioInputSelection::ByName("USB".to_string());
    assert_eq!(resolve_audio_input(&sel, &devices, true), Ok(InputChoice::Detected(1)));
    assert_eq!(resolve_audio_input(&sel, &devices, false), Ok(InputChoice::Detected(1)));
}

#[test]
fn ambiguous_or_missing_selection_falls_back_to_default() {
    let devices = vec![device("Mic"), device("Mic")];
    let ambiguous = AudioInputSelection::ByName("Mic".to_string());
    let missing = AudioInputSelection::ByName("Nope".to_string());
    assert_eq!(resolve_audio_input(&ambiguous, &devices, true), Ok(InputChoice::SystemDefault));
    assert_eq!(resolve_audio_input(&missing, &devices, true), Ok(InputChoice::SystemDefault));
    assert_eq!(
        resolve_audio_input(&missing, &devices, false),
        Err(AppError::MicrophoneUnavailable)
    );
    assert_eq!(
        resolve_audio_input(&AudioInputSelection::SystemDefault, &devices, false),
        Err(AppError::MicrophoneUnavailable)
    );
}

#[test]
fn recorder_respawns_only_for_another_device() {
    let a = "Mic".to_string();
    let b = "USB".to_string();
    assert!(recorder_needs_respawn(None, &a));
    assert!(recorder_needs_respawn(Some(&b), &a));
    assert!(!recorder_needs_respawn(Some(&a), &a));
}

#[test]
fn test_feed_returns_none_for_partial_window() {
    let mut w = SampleWindow::<f32>::new(1024);
    assert!(w.feed(&[0.1, 0.2, 0.3]).is_none());
    assert_eq!(w.len(), 3);
}

#[test]
fn window_keeps_the_newest_samples() {
    let mut w = SampleWindow::<i32>::new(4);
    assert!(w.feed(&[1, 2]).is_none());
    assert_eq!(w.feed(&[3, 4, 5, 6]), Some(vec![3, 4, 5, 6]));
    assert_eq!(w.feed(&[7, 8]), Some(vec![5, 6, 7, 8]));
    assert_eq!(w.feed(&[9, 10, 11, 12, 13]), Some(vec![10, 11, 12, 13]));
    assert_eq!(w.feed(&[]), Some(vec![10, 11, 12, 13]));
    assert_eq!(w.len(), 4);
}

#[test]
fn window_comes_out_once_enough_samples_were_fed() {
    let mut w = SampleWindow::<i32>::new(1024);
    for _ in 0..3 {
        assert!(w.feed(&[0; 300]).is_none());
    }
    // 900 samples so far; 124 more fill the window
    assert!(w.feed(&[0; 123]).is_none());
    let full = w.feed(&[5]).expect("1024 samples fed");
    assert_eq!(full.len(), 1024);
    assert_eq!(full[1023], 5);
}

#[test]
fn band_bins_are_ordered_and_below_nyquist() {
    for &(rate, size) in &[(48_000u32, 1024usize), (44_100, 1024), (16_000, 1024), (8_000, 512)] {
        let bins = compute_band_bins(rate, size);
        for i in 0..bins.len() {
            assert!(bins[i].1 <= size / 2 + 1);
            if i + 1 < bins.len() {
                assert!(bins[i].0 <= bins[i + 1].0 && bins[i].1 <= bins[i + 1].1);
            }
        }
    }
}
