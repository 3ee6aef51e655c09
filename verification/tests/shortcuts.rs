use vooox::shortcuts::{Key, KeyEvent, KeyTracker, Modifier, Shortcut, ShortcutEvent};

#[test]
fn parse_ctrl_shift_space() {
    let s = Shortcut::parse("ctrl+shift+space").unwrap();
    assert!(s.modifiers.contains(&Modifier::Ctrl));
    assert!(s.modifiers.contains(&Modifier::Shift));
    assert_eq!(s.key, Key::Space);
}

#[test]
fn parse_alt_f4() {
    let s = Shortcut::parse("alt+f4").unwrap();
    assert!(s.modifiers.contains(&Modifier::Alt));
    assert_eq!(s.key, Key::F4);
}

#[test]
fn parse_single_key() {
    let s = Shortcut::parse("f9").unwrap();
    assert!(s.modifiers.is_empty());
    assert_eq!(s.key, Key::F9);
}

#[test]
fn parse_letter_key() {
    let s = Shortcut::parse("ctrl+r").unwrap();
    assert!(s.modifiers.contains(&Modifier::Ctrl));
    assert_eq!(s.key, Key::KeyR);
}

#[test]
fn parse_empty_fails() {
    assert!(Shortcut::parse("").is_err());
}

#[test]
fn parse_unknown_key_fails() {
    assert!(Shortcut::parse("ctrl+foobar").is_err());
}

#[test]
fn parse_ignores_case_and_spaces() {
    let s = Shortcut::parse(" Super + Enter ").unwrap();
    assert!(s.modifiers.contains(&Modifier::Super));
    assert!(!s.modifiers.contains(&Modifier::Ctrl));
    assert_eq!(s.key, Key::Return);
}

#[test]
fn tracker_reports_one_press_per_hold_and_its_release() {
    let sc = Shortcut::parse("ctrl+shift+space").unwrap();
    let mut t = KeyTracker::new(sc);
    assert_eq!(t.handle_key_event(KeyEvent::KeyPress(Key::ControlLeft)), None);
    assert_eq!(t.handle_key_event(KeyEvent::KeyPress(Key::ShiftRight)), None);
    assert_eq!(t.handle_key_event(KeyEvent::KeyPress(Key::Space)), Some(ShortcutEvent::Press));
    // key repeat while held
    assert_eq!(t.handle_key_event(KeyEvent::KeyPress(Key::Space)), None);
    assert_eq!(t.handle_key_event(KeyEvent::Other), None);
    assert_eq!(t.handle_key_event(KeyEvent::KeyRelease(Key::Space)), Some(ShortcutEvent::Release));
    // a second release reports nothing
    assert_eq!(t.handle_key_event(KeyEvent::KeyRelease(Key::Space)), None);
}

#[test]
fn tracker_needs_all_modifiers() {
    let sc = Shortcut::parse("ctrl+shift+space").unwrap();
    let mut t = KeyTracker::new(sc);
    assert_eq!(t.handle_key_event(KeyEvent::KeyPress(Key::ControlLeft)), None);
    assert_eq!(t.handle_key_event(KeyEvent::KeyPress(Key::Space)), None);
    assert_eq!(t.handle_key_event(KeyEvent::KeyRelease(Key::Space)), None);
    assert_eq!(t.handle_key_event(KeyEvent::KeyRelease(Key::ControlLeft)), None);
    assert_eq!(t.handle_key_event(KeyEvent::KeyPress(Key::ShiftLeft)), None);
    assert_eq!(t.handle_key_event(KeyEvent::KeyPress(Key::ControlRight)), None);
    assert_eq!(t.handle_key_event(KeyEvent::KeyPress(Key::Space)), Some(ShortcutEvent::Press));
}

#[test]
fn tracker_alternates_press_and_release() {
    let sc = Shortcut::parse("f9").unwrap();
    let mut t = KeyTracker::new(sc);
    let mut last: Option<ShortcutEvent> = None;
    for i in 0..20 {
        let ev = if i % 3 == 0 { KeyEvent::KeyRelease(Key::F9) } else { KeyEvent::KeyPress(Key::F9) };
        if let Some(e) = t.handle_key_event(ev) {
            assert_ne!(Some(e), last);
            last = Some(e);
        }
    }
}

#[test]
fn tracker_accepts_either_key_of_a_modifier() {
    let sc = Shortcut::parse("alt+super+f2").unwrap();
    let mut t = KeyTracker::new(sc);
    assert_eq!(t.handle_key_event(KeyEvent::KeyPress(Key::AltGr)), None);
    assert_eq!(t.handle_key_event(KeyEvent::KeyPress(Key::MetaRight)), None);
    assert_eq!(t.handle_key_event(KeyEvent::KeyPress(Key::F2)), Some(ShortcutEvent::Press));
    assert_eq!(t.handle_key_event(KeyEvent::KeyRelease(Key::AltGr)), None);
    assert_eq!(t.handle_key_event(KeyEvent::KeyRelease(Key::F2)), Some(ShortcutEvent::Release));
}
