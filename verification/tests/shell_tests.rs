use monitor_fixer::commands::greet;
use monitor_fixer::shell::{ShellEffect, ShellEvent, ShellState};
use monitor_fixer::window::{plan_show, plan_toggle, ShowStep, ToggleStep};

#[test]
fn close_notifies_once() {
    let mut s = ShellState::new();
    assert_eq!(
        s.handle_event(&ShellEvent::CloseRequested),
        vec![ShellEffect::PreventClose, ShellEffect::HideMainWindow, ShellEffect::NotifyStillRunning]
    );
    assert!(s.tray_notified);
    assert_eq!(
        s.handle_event(&ShellEvent::CloseRequested),
        vec![ShellEffect::PreventClose, ShellEffect::HideMainWindow]
    );
    assert!(s.tray_notified);
}

#[test]
fn menu_items() {
    let mut s = ShellState::new();
    assert_eq!(s.handle_event(&ShellEvent::MenuItem("show".to_string())), vec![ShellEffect::ShowMainWindow]);
    assert_eq!(s.handle_event(&ShellEvent::MenuItem("quit".to_string())), vec![ShellEffect::Quit]);
    assert_eq!(s.handle_event(&ShellEvent::MenuItem("Show".to_string())), vec![]);
    assert_eq!(s.handle_event(&ShellEvent::MenuItem(String::new())), vec![]);
    assert!(!s.tray_notified);
}

#[test]
fn tray_clicks_and_instances() {
    let mut s = ShellState::new();
    let left_up = ShellEvent::TrayClick { left_button: true, released: true };
    let left_down = ShellEvent::TrayClick { left_button: true, released: false };
    let right_up = ShellEvent::TrayClick { left_button: false, released: true };
    assert_eq!(s.handle_event(&left_up), vec![ShellEffect::ToggleMainWindow]);
    assert_eq!(s.handle_event(&left_down), vec![]);
    assert_eq!(s.handle_event(&right_up), vec![]);
    assert_eq!(s.handle_event(&ShellEvent::SecondInstance), vec![ShellEffect::ShowMainWindow]);
}

#[test]
fn exit_requests() {
    let mut s = ShellState::new();
    assert_eq!(s.handle_event(&ShellEvent::ExitRequested { code: None }), vec![ShellEffect::PreventExit]);
    assert_eq!(s.handle_event(&ShellEvent::ExitRequested { code: Some(0) }), vec![ShellEffect::AllowExit]);
    assert_eq!(s.handle_event(&ShellEvent::ExitRequested { code: Some(3) }), vec![ShellEffect::AllowExit]);
}

#[test]
fn window_plans() {
    assert_eq!(plan_show(true, false), ShowStep::Reveal);
    assert_eq!(plan_show(false, true), ShowStep::LeaveToFrontend);
    assert_eq!(plan_show(false, false), ShowStep::Nothing);
    assert_eq!(plan_toggle(true, Some(true)), ToggleStep::Hide);
    assert_eq!(plan_toggle(true, Some(false)), ToggleStep::Show);
    assert_eq!(plan_toggle(true, None), ToggleStep::Show);
    assert_eq!(plan_toggle(false, Some(true)), ToggleStep::Show);
    assert_eq!(plan_toggle(false, None), ToggleStep::Show);
}

#[test]
fn greets() {
    assert_eq!(greet("Ada"), "Hello, Ada! You've been greeted from Rust!");
    assert_eq!(greet(""), "Hello, ! You've been greeted from Rust!");
}
