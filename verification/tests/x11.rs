use vooox::x11::window_id_from_output;
use vooox::x11::{
    best_available_height, best_available_width, center_rect_on_monitor,
    parse_geometry_from_xdotool_output, parse_wm_class, parse_xy_kv, point_is_inside_rect,
    scale_geometry, Geometry,
};

#[test]
fn parses_xdotool_shell_output() {
    let s = "X=1234\nY=567\nSCREEN=0\nWINDOW=0\n";
    assert_eq!(parse_xy_kv(s), Some((1234, 567)));
}

#[test]
fn returns_none_for_partial_kv() {
    assert_eq!(parse_xy_kv("X=10\n"), None);
    assert_eq!(parse_xy_kv(""), None);
}

#[test]
fn parses_wm_class_two_fields() {
    let s = "WM_CLASS(STRING) = \"ghostty\", \"com.mitchellh.ghostty\"\n";
    assert_eq!(parse_wm_class(s), Some("ghostty com.mitchellh.ghostty".into()));
}

#[test]
fn parses_wm_class_one_field() {
    let s = "WM_CLASS(STRING) = \"Alacritty\"\n";
    assert_eq!(parse_wm_class(s), Some("Alacritty".into()));
}

#[test]
fn parses_wm_class_missing() {
    assert_eq!(parse_wm_class("WM_CLASS:  not found.\n"), None);
    assert_eq!(parse_wm_class(""), None);
}

#[test]
fn parses_xdotool_geometry_output() {
    let s = "WINDOW=12345\nX=100\nY=200\nWIDTH=800\nHEIGHT=600\n";
    let g = parse_geometry_from_xdotool_output(s).unwrap();
    assert_eq!(g.x, 100);
    assert_eq!(g.y, 200);
    assert_eq!(g.width, 800);
    assert_eq!(g.height, 600);
}

#[test]
fn geometry_needs_all_four_values() {
    assert_eq!(parse_geometry_from_xdotool_output("X=1\nY=2\nWIDTH=3\n"), None);
    assert_eq!(parse_xy_kv("X=-5\nY=7\n"), Some((-5, 7)));
    assert_eq!(parse_xy_kv("X=a\nY=7\n"), None);
}

#[test]
fn best_sizes_fall_back() {
    assert_eq!(best_available_width(800, 500), 800);
    assert_eq!(best_available_width(5, 500), 500);
    assert_eq!(best_available_width(5, 0), 600);
    assert_eq!(best_available_height(1, -3), 400);
    assert_eq!(best_available_height(11, 0), 11);
}

#[test]
fn centring_and_clamping() {
    let m = Geometry { x: 1920, y: 0, width: 1920, height: 1080 };
    let w = Geometry { x: 0, y: 0, width: 600, height: 400 };
    assert_eq!(center_rect_on_monitor(&w, &m), Geometry { x: 2580, y: 340, width: 600, height: 400 });
    let big = Geometry { x: 0, y: 0, width: 3000, height: 2000 };
    assert_eq!(center_rect_on_monitor(&big, &m), Geometry { x: 1920, y: 0, width: 3000, height: 2000 });
    let odd = Geometry { x: 0, y: 0, width: 601, height: 401 };
    assert_eq!(center_rect_on_monitor(&odd, &m), Geometry { x: 2579, y: 339, width: 601, height: 401 });
}

#[test]
fn points_and_scaling() {
    let r = Geometry { x: 10, y: 20, width: 100, height: 50 };
    assert!(point_is_inside_rect(10, 20, &r));
    assert!(!point_is_inside_rect(110, 30, &r));
    assert!(!point_is_inside_rect(50, 70, &r));
    assert_eq!(scale_geometry(&r, 2), Geometry { x: 20, y: 40, width: 200, height: 100 });
    assert_eq!(scale_geometry(&r, 0), r);
}

use vooox::x11::{monitor_index_containing, position_beside_cursor, window_center};

#[test]
fn monitors_and_placement() {
    let mons = vec![
        Geometry { x: 0, y: 0, width: 1920, height: 1080 },
        Geometry { x: 1920, y: 0, width: 2560, height: 1440 },
    ];
    assert_eq!(monitor_index_containing(&mons, 100, 100), Some(0));
    assert_eq!(monitor_index_containing(&mons, 1920, 5), Some(1));
    assert_eq!(monitor_index_containing(&mons, 5000, 5), None);
    assert_eq!(window_center(&Geometry { x: 10, y: 20, width: 101, height: 50 }), (60, 45));
    let m = Geometry { x: 0, y: 0, width: 1920, height: 1080 };
    // fits to the right of the cursor
    assert_eq!(position_beside_cursor(100, 500, &m, 480, 260, 1), (116, 370));
    // too far right: goes left of the cursor
    assert_eq!(position_beside_cursor(1800, 500, &m, 480, 260, 1), (1304, 370));
    // clamped to the top and bottom of the monitor
    assert_eq!(position_beside_cursor(100, 10, &m, 480, 260, 1), (116, 0));
    assert_eq!(position_beside_cursor(100, 1075, &m, 480, 260, 1), (116, 820));
    // scale doubles the margin
    assert_eq!(position_beside_cursor(100, 500, &m, 960, 520, 2), (132, 240));
}

#[test]
fn active_window_output() {
    assert_eq!(window_id_from_output(b"  48234567\n"), Some("48234567".to_string()));
    assert_eq!(window_id_from_output(b"\n"), None);
}
