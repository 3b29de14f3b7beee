use voice_transcribe::overlay::{level_frame_pause_ns, OverlayHideState};

#[test]
fn delayed_hide_hides_once_timer_fires() {
    let mut s = OverlayHideState::new();
    assert!(s.begin_hide(1));
    assert!(s.finish_hide(1));
    // after finishing, a new hide may start
    assert!(s.begin_hide(2));
}

#[test]
fn second_hide_while_hiding_does_not_start() {
    let mut s = OverlayHideState::new();
    assert!(s.begin_hide(1));
    assert!(!s.begin_hide(2));
    assert!(s.finish_hide(1));
}

#[test]
fn later_hide_replaces_earlier_one() {
    let mut s = OverlayHideState::new();
    assert!(s.begin_hide(1));
    s.hide_now();
    assert!(s.begin_hide(2));
    // the first timer fires: another hide is pending, so it does nothing
    assert!(!s.finish_hide(1));
    // the second timer still applies
    assert!(s.finish_hide(2));
}

#[test]
fn show_cancels_pending_hide() {
    let mut s = OverlayHideState::new();
    assert!(s.begin_hide(7));
    s.cancel_pending_hide();
    assert!(!s.finish_hide(7));
    // the running hide has ended, so a new one may start
    assert!(s.begin_hide(8));
    assert!(s.finish_hide(8));
}

#[test]
fn level_frames_are_paced_to_the_interval() {
    assert_eq!(level_frame_pause_ns(0), 33_000_000);
    assert_eq!(level_frame_pause_ns(3_000_000), 30_000_000);
    assert_eq!(level_frame_pause_ns(33_000_000), 0);
    assert_eq!(level_frame_pause_ns(50_000_000), 0);
}
