use monitor_fixer::display::{MonitorInfo, Orientation, RefreshRate};
use monitor_fixer::inspector::{CursorMode, InspectorState, ToggleError};

fn monitor(path: &str, orientation: Orientation) -> MonitorInfo {
    MonitorInfo {
        path: path.encode_utf16().collect(),
        gdi_path: format!(r"\\.\{}", path).encode_utf16().collect(),
        name: path.to_string(),
        orientation,
        refresh_rate: RefreshRate { numerator: 60, denominator: 1 },
    }
}

fn landscape_state() -> InspectorState {
    let monitors = vec![monitor("MON1", Orientation::Default)];
    InspectorState::initial(&monitors, None)
}

#[test]
fn mouse_trails_values() {
    assert_eq!(CursorMode::Software.mouse_trails(), u32::MAX);
    assert_eq!(CursorMode::Hardware.mouse_trails(), 0);
}

#[test]
fn mode_for_orientation() {
    assert_eq!(CursorMode::for_orientation(Orientation::Default), CursorMode::Hardware);
    assert_eq!(CursorMode::for_orientation(Orientation::RotateLeft), CursorMode::Software);
    assert_eq!(CursorMode::for_orientation(Orientation::RotateRight), CursorMode::Software);
    assert_eq!(CursorMode::for_orientation(Orientation::Rotate180), CursorMode::Software);
}

#[test]
fn initial_state() {
    let monitors = vec![monitor("MON1", Orientation::Default), monitor("MON2", Orientation::RotateLeft)];
    let s = InspectorState::initial(&monitors, None);
    assert!(!s.running);
    assert_eq!(s.current_monitor.path, "MON1");
    assert_eq!(s.cursor_mode, CursorMode::Hardware);
    let s = InspectorState::initial(&monitors, Some(monitor("MON2", Orientation::RotateLeft)));
    assert_eq!(s.current_monitor.path, "MON2");
    assert_eq!(s.current_monitor.orientation, Orientation::RotateLeft);
    assert_eq!(s.cursor_mode, CursorMode::Hardware);
}

#[test]
fn start_and_stop() {
    let mut s = landscape_state();
    assert!(s.start());
    assert!(s.running);
    assert!(s.keeps_watching());
    assert!(!s.start());
    assert!(s.running);
    s.stop();
    assert!(!s.running);
    assert!(!s.keeps_watching());
    assert!(s.start());
}

#[test]
fn toggle_mouse_mode_outcomes() {
    let mut s = landscape_state();
    assert_eq!(s.toggle_mouse_mode(CursorMode::Software, true), Ok(()));
    assert_eq!(s.cursor_mode, CursorMode::Software);
    assert_eq!(s.toggle_mouse_mode(CursorMode::Hardware, false), Err(ToggleError::HardwareMouseFailed));
    assert_eq!(s.cursor_mode, CursorMode::Software);
    assert_eq!(s.toggle_mouse_mode(CursorMode::Hardware, true), Ok(()));
    assert_eq!(s.toggle_mouse_mode(CursorMode::Software, false), Err(ToggleError::SoftwareMouseFailed));
    assert_eq!(s.cursor_mode, CursorMode::Hardware);
}

#[test]
fn plan_ignores_current_and_unknown_monitor() {
    let s = landscape_state();
    assert!(s.plan_monitor_change(None).is_none());
    assert!(s.plan_monitor_change(Some(monitor("MON1", Orientation::RotateLeft))).is_none());
}

#[test]
fn moving_to_rotated_monitor_switches_to_software() {
    let mut s = landscape_state();
    s.start();
    let change = s.plan_monitor_change(Some(monitor("MON2", Orientation::RotateLeft))).unwrap();
    assert_eq!(change.mode, CursorMode::Software);
    assert_eq!(change.monitor.path, "MON2");
    let snapshot = s.apply_monitor_change(change, true);
    assert_eq!(s.cursor_mode, CursorMode::Software);
    assert_eq!(s.current_monitor.path, "MON2");
    assert!(s.running);
    assert_eq!(snapshot.current_monitor.path, "MON2");
    assert_eq!(snapshot.cursor_mode, CursorMode::Software);
    // the same monitor again calls for nothing
    assert!(s.plan_monitor_change(Some(monitor("MON2", Orientation::RotateLeft))).is_none());
    // back to an unrotated monitor
    let change = s.plan_monitor_change(Some(monitor("MON1", Orientation::Default))).unwrap();
    assert_eq!(change.mode, CursorMode::Hardware);
    s.apply_monitor_change(change, true);
    assert_eq!(s.cursor_mode, CursorMode::Hardware);
}

#[test]
fn refused_switch_still_moves_monitor() {
    let mut s = landscape_state();
    let change = s.plan_monitor_change(Some(monitor("MON2", Orientation::Rotate180))).unwrap();
    let snapshot = s.apply_monitor_change(change, false);
    assert_eq!(s.cursor_mode, CursorMode::Hardware);
    assert_eq!(s.current_monitor.path, "MON2");
    assert_eq!(snapshot.cursor_mode, CursorMode::Hardware);
}

#[test]
fn get_state_copies() {
    let mut s = landscape_state();
    s.start();
    let copy = s.get_state();
    assert_eq!(copy.running, s.running);
    assert_eq!(copy.current_monitor.path, s.current_monitor.path);
    assert_eq!(copy.cursor_mode, s.cursor_mode);
}
