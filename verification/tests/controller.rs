use vooox::controller::{
    DictationController, PressAction, PttTimer, ReleaseAction, SegmentAction, SegmentFeed,
    SegmentMessage, ShortcutSettings,
};

fn settings(ptt: bool) -> ShortcutSettings {
    ShortcutSettings {
        push_to_talk_enabled: ptt,
        push_to_talk_threshold_ms: 500,
        auto_paste_toggle: false,
        auto_paste_ptt: true,
    }
}

#[test]
fn short_press_toggles() {
    let s = settings(true);
    let mut c = DictationController::new();
    let a = c.on_press(true, &s);
    assert_eq!(a, PressAction::StartRecording { ptt_timer: Some(PttTimer { hold: 1, delay_ms: 500 }) });
    c.recording_started();
    assert!(c.is_recording());
    // released before the timer: keeps recording
    assert_eq!(c.on_release(&s), ReleaseAction::Nothing);
    assert!(c.is_recording());
    // the stale timer does nothing
    assert!(!c.on_threshold_elapsed(1));
    assert!(!c.ptt_active());
    // a second press stops
    assert_eq!(c.on_press(true, &s), PressAction::StopRecording { auto_paste: false });
    assert!(!c.is_recording());
}

#[test]
fn long_press_is_push_to_talk() {
    let s = settings(true);
    let mut c = DictationController::new();
    let a = c.on_press(true, &s);
    let hold = match a {
        PressAction::StartRecording { ptt_timer: Some(t) } => t.hold,
        _ => panic!("expected a timer"),
    };
    c.recording_started();
    assert!(c.on_threshold_elapsed(hold));
    assert!(c.ptt_active());
    assert_eq!(c.on_release(&s), ReleaseAction::StopRecording { auto_paste: true });
    assert!(!c.is_recording());
    assert!(!c.ptt_active());
}

#[test]
fn without_push_to_talk_or_device() {
    let s = settings(false);
    let mut c = DictationController::new();
    assert_eq!(c.on_press(false, &s), PressAction::NoDevice);
    assert!(!c.is_recording());
    assert_eq!(c.on_press(true, &s), PressAction::StartRecording { ptt_timer: None });
}

#[test]
fn segment_feed_routes_messages() {
    let mut f = SegmentFeed::new();
    assert!(matches!(f.on_message(SegmentMessage::Empty), SegmentAction::Wait));
    match f.on_message(SegmentMessage::Segment("Hallo".into())) {
        SegmentAction::SetTranscript(t) => assert_eq!(t, "Hallo"),
        _ => panic!("first segment"),
    }
    match f.on_message(SegmentMessage::Segment("Welt".into())) {
        SegmentAction::AppendSegment(t) => assert_eq!(t, "Welt"),
        _ => panic!("later segment"),
    }
    assert!(matches!(f.on_message(SegmentMessage::Failed("x".into())), SegmentAction::FinishEmpty));
    assert!(matches!(f.on_message(SegmentMessage::Finished), SegmentAction::FinishWithPanelText));
}

use vooox::controller::preview_due;

#[test]
fn preview_needs_three_seconds_of_new_audio() {
    assert!(!preview_due(0, 0, 16000, 1));
    assert!(preview_due(48000, 0, 16000, 1));
    assert!(!preview_due(95999, 0, 16000, 2));
    assert!(preview_due(96000 + 10, 10, 16000, 2));
    assert!(!preview_due(usize::MAX, usize::MAX, 1, 1));
}
