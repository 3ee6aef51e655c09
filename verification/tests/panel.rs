use vooox::panel::{
    append_segment_text, base_for_new_recording, is_terminal_class, parse_xid,
    paste_key_for_class, remaining_processing_ms, space_join, timer_text, transcript_text,
    MIN_PROCESSING_MS,
};

#[test]
fn segments_get_a_separating_space() {
    assert_eq!(space_join("", "Hallo"), "Hallo");
    assert_eq!(space_join("Hallo", "Welt"), " Welt");
    assert_eq!(space_join("Hallo ", "Welt"), "Welt");
    assert_eq!(space_join("Hallo", " Welt"), " Welt");
    assert_eq!(append_segment_text("Hallo", "Welt"), "Hallo Welt");
    assert_eq!(transcript_text("Vorher ", "neu"), "Vorher neu");
}

#[test]
fn new_recording_base() {
    assert_eq!(base_for_new_recording("Text", true), "Text ");
    assert_eq!(base_for_new_recording("Text ", true), "Text ");
    assert_eq!(base_for_new_recording("", true), "");
    assert_eq!(base_for_new_recording("Text", false), "");
}

#[test]
fn terminals_paste_with_shift() {
    assert!(is_terminal_class("Alacritty"));
    assert!(is_terminal_class("ghostty com.mitchellh.ghostty"));
    assert!(is_terminal_class("GNOME-Terminal-Server gnome-terminal-server"));
    assert!(!is_terminal_class("firefox Firefox"));
    assert_eq!(paste_key_for_class(Some("kitty")), "ctrl+shift+v");
    assert_eq!(paste_key_for_class(Some("Gedit")), "ctrl+v");
    assert_eq!(paste_key_for_class(None), "ctrl+v");
}

#[test]
fn window_ids() {
    assert_eq!(parse_xid("12345"), Some(12345));
    assert_eq!(parse_xid("0x1a"), Some(26));
    assert_eq!(parse_xid("1a"), Some(26));
    assert_eq!(parse_xid("zz"), None);
    assert_eq!(parse_xid(""), None);
}

#[test]
fn timer_and_processing_time() {
    assert_eq!(timer_text(0), "00:00");
    assert_eq!(timer_text(75), "01:15");
    assert_eq!(timer_text(6000), "100:00");
    assert_eq!(remaining_processing_ms(None), 0);
    assert_eq!(remaining_processing_ms(Some(100)), MIN_PROCESSING_MS - 100);
    assert_eq!(remaining_processing_ms(Some(5000)), 0);
}

use vooox::config::{Config, PanelMode};
use vooox::panel::{
    apply_mode, finish_plan, mode_layout, pill_phase_after_ptt, restored_clipboard,
    status_for_ptt, toast_text, transcription_entry, PanelStatus, PillPhase,
};

#[test]
fn status_lines() {
    assert_eq!(PanelStatus::Recording.label(), "● Aufnahme");
    assert_eq!(PanelStatus::PushToTalk.css_class(), "status-ptt");
    assert_eq!(PanelStatus::Processing.label(), "⏳ Verarbeitung…");
    assert_eq!(PanelStatus::Idle.css_class(), "status-idle");
    assert_eq!(status_for_ptt(true), PanelStatus::PushToTalk);
    assert_eq!(status_for_ptt(false), PanelStatus::Recording);
}

#[test]
fn pill_phases_and_modes() {
    assert_eq!(pill_phase_after_ptt(PillPhase::Recording, true), PillPhase::RecordingPtt);
    assert_eq!(pill_phase_after_ptt(PillPhase::RecordingPtt, false), PillPhase::Recording);
    assert_eq!(pill_phase_after_ptt(PillPhase::Processing, false), PillPhase::Processing);
    let w = mode_layout(PanelMode::Window);
    assert!(w.window_layout_visible && !w.pill_visible && w.default_size == (480, 260));
    let i = mode_layout(PanelMode::Icon);
    assert!(i.pill_visible && i.reset_pill && i.default_size == (150, 40));
    assert!(apply_mode(PanelMode::Icon, PanelMode::Icon).is_none());
    assert!(apply_mode(PanelMode::Window, PanelMode::Icon).unwrap().pill_visible);
}

#[test]
fn finishing() {
    let empty_icon = finish_plan(true, PanelMode::Icon, true);
    assert!(empty_icon.dismiss_pill && empty_icon.toast.is_none() && !empty_icon.save_to_history);
    assert!(!empty_icon.disarm_auto_paste);
    let empty_window = finish_plan(true, PanelMode::Window, false);
    assert!(!empty_window.dismiss_pill);
    let pasted = finish_plan(false, PanelMode::Icon, true);
    assert_eq!(pasted.toast, Some("✓ Eingefügt"));
    assert!(pasted.paste && !pasted.copy && pasted.done_animation && pasted.save_to_history);
    let copied = finish_plan(false, PanelMode::Window, false);
    assert_eq!(copied.toast, Some(toast_text(false)));
    assert!(copied.copy && !copied.paste && !copied.done_animation);
    assert_eq!(restored_clipboard(Some("old".into())), "old");
    assert_eq!(restored_clipboard(None), "");
    let cfg = Config::default();
    let e = transcription_entry("Hallo", "2024-01-01T00:00:00Z".into(), &cfg);
    assert_eq!(e.text, "Hallo");
    assert_eq!(e.model, "small");
    assert_eq!(e.language, "de");
    assert_eq!(e.timestamp, "2024-01-01T00:00:00Z");
}
