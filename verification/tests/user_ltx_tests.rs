use anomaly_launcher::config::WindowMode;
use anomaly_launcher::user_ltx::{default_user_ltx_text, update_user_ltx_text, window_mode_line, DEFAULT_USER_LTX};

#[test]
fn default_contents() {
    let t = default_user_ltx_text();
    assert_eq!(t, DEFAULT_USER_LTX.join("\n"));
    assert_eq!(t.lines().count(), 302);
    assert!(t.starts_with("_preset Default\nai_aim_max_angle 0.7854\n"));
    assert!(t.ends_with("\nwpn_degradation 1."));
}

#[test]
fn window_mode_lines_are_replaced() {
    let old = "a\nrs_fullscreen on\nb\r\nrs_screenmode x\nrs_borderless 1";
    assert_eq!(
        update_user_ltx_text(Some(old), WindowMode::Windowed),
        "a\nb\nrs_borderless 0\nrs_fullscreen off\nrs_screenmode windowed"
    );
    assert_eq!(
        update_user_ltx_text(Some(old), WindowMode::Fullscreen),
        "a\nb\nrs_borderless 0\nrs_fullscreen on\nrs_screenmode fullscreen"
    );
    assert_eq!(
        update_user_ltx_text(Some(old), WindowMode::BorderlessWindowed),
        "a\nb\nrs_borderless 1\nrs_fullscreen off\nrs_screenmode borderless"
    );
    assert_eq!(update_user_ltx_text(Some(old), WindowMode::Default), "a\nb");
}

#[test]
fn missing_file_starts_from_defaults() {
    let t = update_user_ltx_text(None, WindowMode::Default);
    let expected: Vec<&str> =
        DEFAULT_USER_LTX.iter().copied().filter(|l| !l.starts_with("rs_screenmode")).collect();
    assert_eq!(t, expected.join("\n"));
    let t = update_user_ltx_text(None, WindowMode::Fullscreen);
    assert!(t.ends_with("wpn_degradation 1.\nrs_borderless 0\nrs_fullscreen on\nrs_screenmode fullscreen"));
}

#[test]
fn last_window_mode_wins() {
    let start = "x 1\nrs_screenmode borderless\ny 2\n";
    let twice = update_user_ltx_text(
        Some(&update_user_ltx_text(Some(start), WindowMode::Fullscreen)),
        WindowMode::Windowed,
    );
    assert_eq!(twice, update_user_ltx_text(Some(start), WindowMode::Windowed));
    let once = update_user_ltx_text(Some(start), WindowMode::BorderlessWindowed);
    assert_eq!(update_user_ltx_text(Some(&once), WindowMode::BorderlessWindowed), once);
}

#[test]
fn empty_file() {
    assert_eq!(update_user_ltx_text(Some(""), WindowMode::Default), "");
    assert_eq!(
        update_user_ltx_text(Some(""), WindowMode::Windowed),
        "rs_borderless 0\nrs_fullscreen off\nrs_screenmode windowed"
    );
}

#[test]
fn mode_line_detection() {
    let cs = |s: &str| s.chars().collect::<Vec<char>>();
    assert!(window_mode_line(&cs("rs_borderless 0")));
    assert!(window_mode_line(&cs("rs_fullscreenXYZ")));
    assert!(window_mode_line(&cs("rs_screenmode")));
    assert!(!window_mode_line(&cs(" rs_screenmode windowed")));
    assert!(!window_mode_line(&cs("rs_screen")));
}

#[test]
fn update_after_reset_equals_update_without_file() {
    let reset = default_user_ltx_text();
    for m in [WindowMode::Default, WindowMode::Fullscreen, WindowMode::Windowed, WindowMode::BorderlessWindowed] {
        assert_eq!(update_user_ltx_text(Some(&reset), m), update_user_ltx_text(None, m));
    }
}

#[test]
fn other_lines_survive_an_update() {
    let old = "a 1\nrs_v_sync on\nrs_screenmode fullscreen\nz 2";
    let new = update_user_ltx_text(Some(old), WindowMode::Windowed);
    let kept: Vec<&str> = new.lines().filter(|l| !window_mode_line(&l.chars().collect::<Vec<_>>())).collect();
    assert_eq!(kept, vec!["a 1", "rs_v_sync on", "z 2"]);
}

#[test]
fn last_window_mode_wins_over_files() {
    let modes = [WindowMode::Fullscreen, WindowMode::Windowed, WindowMode::BorderlessWindowed];
    let starts = [None, Some("a 1\n\nrs_fullscreen on\nz 2\n\n"), Some(""), Some("rs_screenmode x")];
    for start in starts {
        for first in modes {
            for second in [WindowMode::Default, WindowMode::Fullscreen, WindowMode::Windowed, WindowMode::BorderlessWindowed] {
                let after_first = update_user_ltx_text(start, first);
                assert_eq!(
                    update_user_ltx_text(Some(&after_first), second),
                    update_user_ltx_text(start, second)
                );
            }
        }
    }
}

#[test]
fn reset_then_update_writes_defaults_and_mode_lines() {
    let base: Vec<&str> = DEFAULT_USER_LTX.iter().copied().filter(|l| *l != "rs_screenmode borderless").collect();
    assert_eq!(base.len(), 301);
    let reset = default_user_ltx_text();
    let mut expected = base.clone();
    expected.extend(["rs_borderless 0", "rs_fullscreen off", "rs_screenmode windowed"]);
    assert_eq!(update_user_ltx_text(Some(&reset), WindowMode::Windowed), expected.join("\n"));
    assert_eq!(update_user_ltx_text(None, WindowMode::Windowed), expected.join("\n"));
}
