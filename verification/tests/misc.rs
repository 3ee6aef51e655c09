use vooox::gpu::cuda_wheels_present_in;
use vooox::models::is_downloaded;
use vooox::paths::setup_is_complete;
use vooox::keyed::TextMap;
use vooox::number::{format_i64, format_u64, format_u64_padded, parse_hex_u64, parse_i32, parse_u16};
use vooox::config::PanelMode;
use vooox::sidecar::{parse_vooox_port_announcement, server_script_candidates};
use vooox::tray::{whisper_models, AppCommand, MenuEntry, TrayState};
use vooox::window_state::{monitor_key, WindowState};
use vooox::x11::Geometry;

fn s(v: Vec<char>) -> String {
    v.into_iter().collect()
}

fn c(t: &str) -> Vec<char> {
    t.chars().collect()
}

#[test]
fn port_announcement() {
    assert_eq!(parse_vooox_port_announcement("VOOOX_PORT=8765\n"), Ok(8765));
    assert_eq!(parse_vooox_port_announcement("  VOOOX_PORT=1  "), Ok(1));
    assert_eq!(
        parse_vooox_port_announcement("hello"),
        Err("unexpected sidecar output: \"hello\"".to_string())
    );
    assert_eq!(
        parse_vooox_port_announcement("VOOOX_PORT=70000\n"),
        Err("unexpected sidecar output: \"VOOOX_PORT=70000\\n\"".to_string())
    );
    for p in [0u16, 80, 65535] {
        assert_eq!(parse_vooox_port_announcement(&format!("VOOOX_PORT={p}")), Ok(p));
    }
}

#[test]
fn script_candidates() {
    assert_eq!(
        server_script_candidates(Some("/opt/vooox/bin")),
        vec!["whisper_server/server.py", "/opt/vooox/bin/../whisper_server/server.py"]
    );
    assert_eq!(server_script_candidates(None), vec!["whisper_server/server.py", ""]);
}

#[test]
fn tray_state() {
    let t = TrayState { recording: true, panel_mode: PanelMode::Icon };
    assert_eq!(t.id(), "vooox");
    assert_eq!(t.title(), "vooox — aufnehmen");
    assert_eq!(t.icon_name(), "audio-input-microphone-high-symbolic");
    let idle = TrayState { recording: false, panel_mode: PanelMode::Window };
    assert_eq!(idle.title(), "vooox");
    assert_eq!(idle.icon_name(), "audio-input-microphone-symbolic");
    let m = t.menu();
    assert_eq!(m.len(), 5);
    match &m[2] {
        MenuEntry::Submenu { label, entries } => {
            assert_eq!(*label, "Modus");
            match (&entries[0], &entries[1]) {
                (
                    MenuEntry::Check { checked: a, command: AppCommand::SetPanelMode(PanelMode::Window), .. },
                    MenuEntry::Check { checked: b, command: AppCommand::SetPanelMode(PanelMode::Icon), .. },
                ) => {
                    assert!(!*a);
                    assert!(*b);
                }
                _ => panic!("mode entries"),
            }
        }
        _ => panic!("submenu"),
    }
    assert!(matches!(m[3], MenuEntry::Separator));
    assert!(matches!(&m[4], MenuEntry::Item { command: AppCommand::Quit, .. }));
    assert_eq!(whisper_models(), vec!["tiny", "base", "small", "medium", "large-v2", "large-v3"]);
}

#[test]
fn window_positions_read_back() {
    let mut w = WindowState::new();
    assert_eq!(w.get("DP-1"), None);
    w.set("DP-1".to_string(), (10, 20));
    w.set("HDMI-1".to_string(), (-5, 0));
    w.set("DP-1".to_string(), (30, 40));
    assert_eq!(w.get("DP-1"), Some((30, 40)));
    assert_eq!(w.get("HDMI-1"), Some((-5, 0)));
    assert_eq!(w.positions.len(), 2);
}

#[test]
fn monitor_keys() {
    let g = Geometry { x: 1920, y: -10, width: 2560, height: 1440 };
    assert_eq!(monitor_key(Some("DP-2"), &g), "DP-2");
    assert_eq!(monitor_key(Some(""), &g), "2560x1440+1920+-10");
    assert_eq!(monitor_key(None, &g), "2560x1440+1920+-10");
}

#[test]
fn text_map() {
    let mut m: TextMap<u32> = TextMap::new();
    m.insert("a".to_string(), 1);
    m.insert("b".to_string(), 2);
    m.insert("a".to_string(), 3);
    assert_eq!(m.get("a"), Some(&3));
    assert_eq!(m.get("c"), None);
    assert_eq!(m.len(), 2);
    assert_eq!(m.entries()[0].0, "a");
}

#[test]
fn numbers() {
    assert_eq!(parse_u16(&c("65535")), Some(65535));
    assert_eq!(parse_u16(&c("65536")), None);
    assert_eq!(parse_u16(&c("+7")), Some(7));
    assert_eq!(parse_u16(&c("")), None);
    assert_eq!(parse_i32(&c("-2147483648")), Some(i32::MIN));
    assert_eq!(parse_i32(&c("2147483648")), None);
    assert_eq!(parse_i32(&c("-")), None);
    assert_eq!(parse_hex_u64(&c("ff")), Some(255));
    assert_eq!(parse_hex_u64(&c("FF")), Some(255));
    assert_eq!(parse_hex_u64(&c("g")), None);
    assert_eq!(s(format_u64(0)), "0");
    assert_eq!(s(format_u64(u64::MAX)), "18446744073709551615");
    assert_eq!(s(format_u64_padded(7, 3)), "007");
    assert_eq!(s(format_u64_padded(1234, 2)), "1234");
    assert_eq!(s(format_i64(-42)), "-42");
    assert_eq!(s(format_i64(i64::MIN)), "-9223372036854775808");
}

use vooox::sidecar::{launch_error, find_whisper_server_script, sidecar_failed_message, stdout_error};
use vooox::tray::{mode_action_command, panel_actions};

#[test]
fn sidecar_script_and_errors() {
    let c = vec!["a".to_string(), "b".to_string(), "c".to_string()];
    assert_eq!(find_whisper_server_script(c.clone(), &[false, true, true]), Ok("b".to_string()));
    assert_eq!(
        find_whisper_server_script(c, &[false, false, false]),
        Err("whisper_server/server.py not found".to_string())
    );
    assert_eq!(launch_error("python3", "no"), "could not start sidecar (python3): no");
    assert_eq!(stdout_error("eof"), "sidecar stdout: eof");
    assert_eq!(sidecar_failed_message("x"), "Sidecar konnte nicht gestartet werden:\nx");
}

#[test]
fn panel_menu_actions() {
    let a = panel_actions();
    let names: Vec<&str> = a.iter().map(|(n, _)| *n).collect();
    assert_eq!(names, vec!["history", "settings", "close", "quit"]);
    assert!(matches!(a[3].1, AppCommand::Quit));
    assert!(matches!(mode_action_command("icon"), Some(AppCommand::SetPanelMode(PanelMode::Icon))));
    assert!(mode_action_command("big").is_none());
}

#[test]
fn setup_and_cache_states() {
    assert!(setup_is_complete(true, true));
    assert!(!setup_is_complete(true, false));
    assert!(!setup_is_complete(false, true));
    assert!(is_downloaded(true, true, true));
    assert!(!is_downloaded(true, true, false));
    assert!(!is_downloaded(false, false, false));
    assert!(cuda_wheels_present_in(true, true));
    assert!(!cuda_wheels_present_in(true, false));
}
