use vooox::inject::{MockInjector, TextInjector, WaylandInjectorStub};

#[test]
fn mock_collects_calls() {
    let mut inj = MockInjector(vec![]);
    inj.type_text("Hello").unwrap();
    inj.type_text(", world").unwrap();
    assert_eq!(inj.0, vec!["Hello", ", world"]);
}

#[test]
fn wayland_stub_returns_err() {
    assert!(WaylandInjectorStub.type_text("x").is_err());
}

use vooox::inject::{clipboard_tool, next_inject_action, next_paste_action, ClipboardTool, InjectAction, PasteAction};

#[test]
fn injection_order_clipboard_then_ydotool_then_enigo() {
    assert_eq!(next_inject_action(Some(true), Some(true), true), InjectAction::Paste);
    assert_eq!(next_inject_action(Some(false), Some(true), true), InjectAction::YdotoolType);
    assert_eq!(next_inject_action(None, Some(false), true), InjectAction::EnigoType);
    assert_eq!(next_inject_action(Some(false), None, true), InjectAction::EnigoType);
    assert_eq!(
        next_inject_action(Some(false), Some(false), false),
        InjectAction::Fail("No injection backend available.\nInstall: sudo apt install xclip xdotool".to_string())
    );
}

#[test]
fn paste_and_clipboard_tools() {
    assert_eq!(next_paste_action(Some(true), Some(true)), PasteAction::YdotoolKey);
    assert_eq!(next_paste_action(Some(false), Some(true)), PasteAction::XdotoolKey);
    assert_eq!(next_paste_action(None, Some(true)), PasteAction::XdotoolKey);
    assert_eq!(
        next_paste_action(Some(false), Some(false)),
        PasteAction::Fail("no paste-key tool found (install xdotool or ydotool)".to_string())
    );
    assert_eq!(clipboard_tool(true, true), Ok(ClipboardTool::WlCopy));
    assert_eq!(clipboard_tool(false, true), Ok(ClipboardTool::Xclip));
    assert_eq!(clipboard_tool(false, false), Err("no clipboard tool found (install wl-clipboard or xclip)".to_string()));
}
