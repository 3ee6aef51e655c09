use vooox::config::{autostart_action, AutostartAction};
use vooox::config::{autostart_entry, default_ptt_enabled, default_ptt_threshold_ms, Config, PanelMode};

#[test]
fn defaults() {
    let c = Config::default();
    assert_eq!(c.shortcut, "ctrl+shift+space");
    assert_eq!(c.microphone.as_deref(), Some("pulse"));
    assert_eq!(c.model, "small");
    assert_eq!(c.language, "de");
    assert!(!c.autostart);
    assert_eq!(c.panel_mode, PanelMode::Window);
    assert!(c.push_to_talk_enabled);
    assert_eq!(c.push_to_talk_threshold_ms, 500);
    assert!(!c.auto_paste_toggle);
    assert!(!c.auto_paste_ptt);
    assert!(default_ptt_enabled());
    assert_eq!(default_ptt_threshold_ms(), 500);
    assert_eq!(PanelMode::default(), PanelMode::Window);
}

#[test]
fn panel_mode_names_round_trip() {
    for m in [PanelMode::Window, PanelMode::Icon] {
        assert_eq!(PanelMode::from_str(m.as_str()), Some(m));
    }
    assert_eq!(PanelMode::Icon.as_str(), "icon");
    assert_eq!(PanelMode::from_str("Window"), None);
}

#[test]
fn autostart_desktop_entry() {
    assert_eq!(
        autostart_entry("/usr/bin/vooox"),
        "[Desktop Entry]\nType=Application\nName=vooox\nExec=/usr/bin/vooox\nHidden=false\nNoDisplay=false\nX-GNOME-Autostart-enabled=true\n"
    );
}

#[test]
fn autostart_follows_the_setting() {
    assert_eq!(autostart_action(true, false), AutostartAction::Write);
    assert_eq!(autostart_action(true, true), AutostartAction::Write);
    assert_eq!(autostart_action(false, true), AutostartAction::Remove);
    assert_eq!(autostart_action(false, false), AutostartAction::Keep);
}
