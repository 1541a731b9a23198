use komorebi::desktop::Desktop;
use komorebi::desktop::WindowFacts;
use komorebi::geometry::Rect;
use komorebi::monitor;
use komorebi::plan::Plan;
use komorebi::plan::Signal;
use komorebi::plan::Step;
use komorebi::rule_set::RuleSet;
use komorebi::settings::TransparencySettings;
use komorebi::transparency_manager::decide_targets;
use komorebi::transparency_manager::is_transparency_blacklisted;
use komorebi::transparency_manager::known_hwnds;
use komorebi::transparency_manager::send_notification;
use komorebi::transparency_manager::track_transparent_hwnd;
use komorebi::transparency_manager::untrack_opaque_hwnd;
use komorebi::transparency_manager::wait_before_pass;
use komorebi::transparency_manager::Job;
use komorebi::transparency_manager::Pass;
use komorebi::rules::ApplicationIdentifier;
use komorebi::rules::MatchingRule;
use komorebi::rules::MatchingStrategy;
use komorebi::window::Window;
use komorebi::window_manager::WindowManager;
use komorebi::workspace::Workspace;

const NOW: u64 = 1_000_000;

fn enabled() -> TransparencySettings {
    TransparencySettings { enabled: true, alpha: 200, monocle: false, floating: true }
}

fn desktop() -> Desktop {
    Desktop {
        windows: vec![],
        foreground: None,
        cursor_window: None,
        unmanaged: Some(vec![]),
        now_ms: NOW,
    }
}

fn facts(hwnd: isize) -> WindowFacts {
    WindowFacts {
        hwnd,
        is_window: true,
        process_id: 1,
        is_visible: true,
        is_shown: true,
        is_maximized: false,
        is_minimized: false,
        is_cloaked: Some(false),
        is_responding: true,
        rect: None,
        title: Some("title".to_string()),
        exe: Some("app.exe".to_string()),
        class: Some("class".to_string()),
        path: Some("C:\\app.exe".to_string()),
        style: None,
        ex_style: None,
        alpha: None,
        monitor: 0,
        monitor_rect: None,
        work_rect: None,
        covers_monitor_area: false,
        covers_work_area: false,
        border: None,
    }
}

fn test_monitor(id: isize) -> monitor::Monitor {
    monitor::new(
        id,
        Rect::default(),
        Rect::default(),
        format!("TestMonitor{id}"),
        "TestDevice".to_string(),
        "TestDeviceID".to_string(),
        Some("TestMonitorID".to_string()),
    )
}

fn window_manager_with_floats(floats: &[&[isize]]) -> WindowManager {
    let mut wm = WindowManager::new();
    let mut m = test_monitor(0);

    for workspace_floats in floats {
        let workspace = m.workspaces_mut().last_mut().unwrap();

        for hwnd in *workspace_floats {
            workspace.floating_windows_mut().push(Window { hwnd: *hwnd });
        }

        m.workspaces_mut().push(Workspace::default());
    }

    wm.monitors_mut().push(m);

    wm
}

fn window_manager_with_two_monitors(floats: &[&[isize]]) -> WindowManager {
    let mut wm = WindowManager::new();

    for (monitor_idx, workspace_floats) in floats.iter().enumerate() {
        let mut m = test_monitor(monitor_idx as isize);
        let workspace = m.workspaces_mut().last_mut().unwrap();

        for hwnd in *workspace_floats {
            workspace.floating_windows_mut().push(Window { hwnd: *hwnd });
        }

        wm.monitors_mut().push(m);
    }

    wm
}

fn decide(
    wm: &WindowManager,
    known: &mut Vec<isize>,
    foreground: isize,
    is_maximized: bool,
    settings: &TransparencySettings,
) -> (Vec<isize>, Vec<isize>) {
    decide_targets(wm, known, foreground, is_maximized, settings, &RuleSet::new(), &desktop())
}

#[test]
fn test_unfocused_floating_windows_are_dimmed() {
    let wm = window_manager_with_floats(&[&[10, 20]]);

    let (transparent, opaque) = decide(&wm, &mut vec![], 999, false, &enabled());

    assert_eq!(transparent, vec![10, 20]);
    assert!(opaque.is_empty());
}

#[test]
fn test_foreground_floating_window_stays_opaque() {
    let wm = window_manager_with_floats(&[&[10, 20]]);

    let (transparent, opaque) = decide(&wm, &mut vec![], 20, false, &enabled());

    assert_eq!(transparent, vec![10]);
    assert_eq!(opaque, vec![20]);
}

#[test]
fn test_ring_focused_floating_window_is_dimmed_when_not_foreground() {
    let mut wm = window_manager_with_floats(&[&[10, 20]]);

    let workspace = wm.focused_workspace_mut().unwrap();
    assert!(workspace.focus_floating_window(0));

    let (transparent, opaque) = decide(&wm, &mut vec![], 999, false, &enabled());

    assert_eq!(transparent, vec![10, 20]);
    assert!(opaque.is_empty());
}

#[test]
fn test_floating_toggle_disabled_restores_opaque() {
    let wm = window_manager_with_floats(&[&[10, 20]]);
    let settings = TransparencySettings { floating: false, ..enabled() };

    let (transparent, opaque) = decide(&wm, &mut vec![], 999, false, &settings);

    assert!(transparent.is_empty());
    assert_eq!(opaque, vec![10, 20]);
}

#[test]
fn test_non_focused_workspace_windows_are_not_opaqued() {
    let wm = window_manager_with_floats(&[&[10], &[20]]);

    let (transparent, opaque) = decide(&wm, &mut vec![], 999, false, &enabled());

    assert_eq!(transparent, vec![10]);
    assert!(opaque.is_empty());
}

#[test]
fn test_pinned_floating_window_stays_opaque() {
    let mut wm = window_manager_with_floats(&[&[10], &[]]);

    wm.monitors_mut()[0].pin_floating_window(10);

    wm.focused_monitor_mut().unwrap().focus_workspace(1).unwrap();

    let (transparent, opaque) = decide(&wm, &mut vec![], 999, false, &enabled());

    assert!(transparent.is_empty());
    assert_eq!(opaque, vec![10]);
}

#[test]
fn test_maximized_foreground_skips_monitor_transparency() {
    let wm = window_manager_with_floats(&[&[10]]);

    let (transparent, opaque) = decide(&wm, &mut vec![], 999, true, &enabled());

    assert!(transparent.is_empty());
    assert_eq!(opaque, vec![999]);
}

#[test]
fn test_maximized_foreground_skips_only_its_own_monitor() {
    let wm = window_manager_with_two_monitors(&[&[10], &[20]]);

    let (transparent, opaque) = decide(&wm, &mut vec![], 10, true, &enabled());

    assert_eq!(transparent, vec![20]);
    assert!(opaque.contains(&10));
}

#[test]
fn test_maximized_foreground_on_unfocused_monitor_dimmed() {
    let mut wm = window_manager_with_two_monitors(&[&[10], &[20]]);
    wm.focus_monitor(1).unwrap();

    let (transparent, opaque) = decide(&wm, &mut vec![], 20, true, &enabled());

    assert!(transparent.contains(&10));
    assert!(!transparent.contains(&20));
    assert!(opaque.contains(&20));
}

#[test]
fn test_transient_foreground_is_dimmed_while_switch_settling() {
    let mut wm = window_manager_with_two_monitors(&[&[10], &[20]]);
    wm.monitors_mut()[1].last_switch_at = Some(NOW);

    let (transparent, opaque) = decide(&wm, &mut vec![], 20, false, &enabled());

    assert!(transparent.contains(&20));
    assert!(transparent.contains(&10));
    assert!(!opaque.contains(&20));
}

#[test]
fn test_foreground_exemption_restored_after_switch_settle() {
    let mut wm = window_manager_with_two_monitors(&[&[10], &[20]]);
    wm.monitors_mut()[1].last_switch_at = Some(NOW.saturating_sub(500));

    let (transparent, opaque) = decide(&wm, &mut vec![], 20, false, &enabled());

    assert!(opaque.contains(&20));
    assert!(!transparent.contains(&20));
    assert!(transparent.contains(&10));
}

#[test]
fn test_maximized_short_circuit_ignored_while_switch_settling() {
    let mut wm = window_manager_with_two_monitors(&[&[10], &[20]]);
    wm.monitors_mut()[0].last_switch_at = Some(NOW);
    wm.monitors_mut()[1].last_switch_at = Some(NOW);

    let (transparent, opaque) = decide(&wm, &mut vec![], 20, true, &enabled());

    assert!(transparent.contains(&10));
    assert!(transparent.contains(&20));
    assert!(opaque.is_empty());
}

#[test]
fn test_track_transparent_hwnd_is_idempotent() {
    let mut known = Vec::new();

    track_transparent_hwnd(&mut known, 10);
    track_transparent_hwnd(&mut known, 10);
    track_transparent_hwnd(&mut known, 20);

    assert_eq!(known, vec![10, 20]);
}

#[test]
fn test_untrack_opaque_hwnd_removes_only_target() {
    let mut known = vec![10, 20, 30];

    untrack_opaque_hwnd(&mut known, 20);

    assert_eq!(known, vec![10, 30]);
}

#[test]
fn test_hidden_workspace_window_remains_restorable() {
    let wm = window_manager_with_floats(&[&[10], &[20]]);
    let mut known = vec![20];

    let (transparent, opaque) = decide(&wm, &mut known, 999, false, &enabled());

    for hwnd in opaque {
        untrack_opaque_hwnd(&mut known, hwnd);
    }
    for hwnd in transparent {
        track_transparent_hwnd(&mut known, hwnd);
    }

    assert!(known.contains(&20));
}

#[test]
fn a_pass_restores_before_it_dims() {
    let wm = window_manager_with_floats(&[&[10, 20]]);
    let mut known = vec![];
    let mut desktop = desktop();
    desktop.foreground = Some(20);
    desktop.windows = vec![facts(10), facts(20)];
    let mut pass = Pass::start(&wm, &mut known, &enabled(), &RuleSet::new(), &desktop);
    let first = pass.next_job(&desktop);
    assert!(matches!(first, Some(Job::MakeOpaque(20))));
    pass.finish_job(Job::MakeOpaque(20), true, &mut known);
    let second = pass.next_job(&desktop);
    assert!(matches!(second, Some(Job::MakeTransparent(10))));
    pass.finish_job(Job::MakeTransparent(10), true, &mut known);
    assert!(pass.next_job(&desktop).is_none());
    pass.end(&mut known, &desktop);
    assert_eq!(known, vec![10]);
}

#[test]
fn passes_settle_first() {
    assert_eq!(wait_before_pass(true, 0), 50);
    assert_eq!(wait_before_pass(true, 20), 30);
    assert_eq!(wait_before_pass(true, 1000), 0);
}

#[test]
fn blacklisted_windows_are_known_by_a_rule() {
    let mut rules = RuleSet::new();
    let mut desktop = desktop();
    desktop.windows = vec![facts(10)];
    assert!(!is_transparency_blacklisted(&Window { hwnd: 10 }, &rules, &desktop));
    rules.transparency_blacklist.push(MatchingRule::simple(
        ApplicationIdentifier::Exe,
        "app.exe".to_string(),
        MatchingStrategy::Equals,
    ));
    assert!(is_transparency_blacklisted(&Window { hwnd: 10 }, &rules, &desktop));
}

#[test]
fn dimmed_windows_can_be_listed() {
    assert_eq!(known_hwnds(&vec![10, 20]), vec![10, 20]);
    let mut plan = Plan::new();
    send_notification(&mut plan);
    assert!(matches!(plan.steps[0], Step::Send(Signal::UpdateTransparency)));
}
