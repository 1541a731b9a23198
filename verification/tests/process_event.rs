use komorebi::behaviour::Placement;
use komorebi::behaviour::WindowManagementBehaviour;
use komorebi::desktop::Desktop;
use komorebi::desktop::WindowFacts;
use komorebi::eligibility::RuleDebug;
use komorebi::error::Error;
use komorebi::geometry::Rect;
use komorebi::manager_op::ManagerOp;
use komorebi::monitor;
use komorebi::move_resize::is_container_translation_move;
use komorebi::plan::Call;
use komorebi::plan::EventStage;
use komorebi::plan::Notice;
use komorebi::plan::Plan;
use komorebi::plan::Resume;
use komorebi::plan::Step;
use komorebi::rule_set::RuleSet;
use komorebi::rules::ApplicationIdentifier;
use komorebi::rules::IdWithIdentifier;
use komorebi::rules::MatchingRule;
use komorebi::rules::MatchingStrategy;
use komorebi::settings::Settings;
use komorebi::turn::Context;
use komorebi::turn::Observations;
use komorebi::window::AspectRatio;
use komorebi::window::Hiding;
use komorebi::window::HidingBehaviour;
use komorebi::window::Screen;
use komorebi::window::Window;
use komorebi::window_manager::WindowManager;
use komorebi::window_manager_event::WinEvent;
use komorebi::window_manager_event::WindowManagerEvent;
use komorebi::workspace::WindowContainerBehaviour;

#[test]
fn plain_click_is_not_a_move() {
    let resize = Rect::default();
    assert!(!is_container_translation_move(resize, false));
}

#[test]
fn title_bar_translation_is_a_move() {
    let resize = Rect { left: 40, top: 20, right: 0, bottom: 0 };
    assert!(is_container_translation_move(resize, false));
}

#[test]
fn left_edge_resize_is_not_a_move() {
    let resize = Rect { left: -30, top: 0, right: 30, bottom: 0 };
    assert!(!is_container_translation_move(resize, false));
}

#[test]
fn top_edge_resize_is_not_a_move() {
    let resize = Rect { left: 0, top: -30, right: 0, bottom: 30 };
    assert!(!is_container_translation_move(resize, false));
}

#[test]
fn corner_resize_is_not_a_move() {
    let resize = Rect { left: -30, top: -20, right: 30, bottom: 20 };
    assert!(!is_container_translation_move(resize, false));
}

#[test]
fn cross_monitor_is_always_a_move() {
    assert!(is_container_translation_move(Rect::default(), true));
}

fn facts(hwnd: isize) -> WindowFacts {
    WindowFacts {
        hwnd,
        is_window: true,
        process_id: 1,
        is_visible: true,
        is_shown: true,
        is_maximized: false,
        is_minimized: false,
        is_cloaked: Some(false),
        is_responding: true,
        rect: Some(Rect { left: 0, top: 0, right: 800, bottom: 600 }),
        title: Some("title".to_string()),
        exe: Some("app.exe".to_string()),
        class: Some("class".to_string()),
        path: Some("C:\\app.exe".to_string()),
        style: Some(0x00C0_0000),
        ex_style: Some(0x0000_0100),
        alpha: None,
        monitor: 0,
        monitor_rect: None,
        work_rect: None,
        covers_monitor_area: false,
        covers_work_area: false,
        border: None,
    }
}

fn screen(windows: Vec<WindowFacts>) -> Screen {
    Screen {
        hiding: Hiding { hidden_hwnds: vec![], behaviour: HidingBehaviour::Cloak },
        desktop: Desktop {
            windows,
            foreground: None,
            cursor_window: None,
            unmanaged: Some(vec![]),
            now_ms: 100_000,
        },
        plan: Plan::new(),
    }
}

fn seen() -> Observations {
    Observations {
        cursor_monitor: Some(0),
        cursor_containers: vec![],
        event_monitor: Some(0),
        virtual_desktop: None,
        display_changing: false,
        flips_suppressed: false,
        overlay_suppressed: false,
        behaviour: WindowManagementBehaviour {
            current_behaviour: WindowContainerBehaviour::Create,
            float_override: false,
            floating_layer_override: false,
            floating_layer_placement: Placement::Unplaced,
            float_override_placement: Placement::Unplaced,
            float_rule_placement: Placement::Unplaced,
        },
        dimmed_hwnds: vec![],
        answer: false,
        modified: false,
        has_subscribers: false,
        system_focus_follows_mouse: None,
        resize_dimensions: vec![],
    }
}

fn manager() -> WindowManager {
    let mut wm = WindowManager::new();
    let m = monitor::new(
        0,
        Rect { left: 0, top: 0, right: 1920, bottom: 1080 },
        Rect { left: 0, top: 0, right: 1920, bottom: 1040 },
        "TestMonitor".to_string(),
        "TestDevice".to_string(),
        "TestDeviceID".to_string(),
        Some("TestMonitorID".to_string()),
    );
    wm.monitors_mut().push(m);
    wm
}

fn win_event() -> WinEvent {
    WinEvent { code: 0 }
}

/// Handle an event to its end. Operations that only the rest of the window manager can
/// carry out are passed over.
fn handle(wm: &mut WindowManager, event: WindowManagerEvent, screen: &mut Screen, seen: &Observations) {
    handle_with(wm, event, screen, seen, RuleSet::new());
}

fn handle_with(
    wm: &mut WindowManager,
    event: WindowManagerEvent,
    screen: &mut Screen,
    seen: &Observations,
    rules: RuleSet,
) {
    let settings = Settings::default();
    let context = Context { rules: &rules, settings: &settings, seen };
    wm.process_event(event, &context, screen).unwrap();
    let mut taken: usize = 0;
    while taken < screen.plan.steps.len() {
        let resume = match &screen.plan.steps[taken] {
            Step::Continue(resume) => Some(*resume),
            _ => None,
        };
        taken += 1;
        if let Some(resume) = resume {
            wm.resume(resume, &context, screen).unwrap();
        }
    }
}

#[test]
fn paused_managers_ignore_events() {
    let mut wm = manager();
    wm.is_paused = true;
    let mut screen = screen(vec![facts(1)]);
    let event = WindowManagerEvent::Show(win_event(), Window { hwnd: 1 });
    handle(&mut wm, event, &mut screen, &seen());
    assert!(screen.plan.steps.is_empty());
    assert!(!wm.contains_window(1));
}

#[test]
fn shown_windows_get_a_container() {
    let mut wm = manager();
    let mut screen = screen(vec![facts(1)]);
    let event = WindowManagerEvent::Show(win_event(), Window { hwnd: 1 });
    handle(&mut wm, event, &mut screen, &seen());
    assert!(wm.contains_window(1));
    assert_eq!(wm.focused_workspace().unwrap().containers().len(), 1);
    assert!(screen
        .plan
        .steps
        .iter()
        .any(|step| matches!(step, Step::Manage(ManagerOp::UpdateKnownHwnds))));
}

#[test]
fn destroyed_windows_leave_their_workspace() {
    let mut wm = manager();
    let mut screen = screen(vec![facts(1)]);
    handle(
        &mut wm,
        WindowManagerEvent::Show(win_event(), Window { hwnd: 1 }),
        &mut screen,
        &seen(),
    );
    screen.plan.steps.clear();
    handle(
        &mut wm,
        WindowManagerEvent::Destroy(win_event(), Window { hwnd: 1 }),
        &mut screen,
        &seen(),
    );
    assert!(!wm.contains_window(1));
}

#[test]
fn windows_on_other_desktops_are_left_alone() {
    let mut wm = manager();
    wm.virtual_desktop_id = Some(vec![1]);
    let mut screen = screen(vec![facts(1)]);
    let mut seen = seen();
    seen.virtual_desktop = Some(vec![2]);
    let event = WindowManagerEvent::Show(win_event(), Window { hwnd: 1 });
    handle(&mut wm, event, &mut screen, &seen);
    assert!(!wm.contains_window(1));
}

#[test]
fn pinned_windows_are_not_added_to_a_workspace() {
    let mut wm = manager();
    wm.monitors_mut()[0].pin_floating_window(1);
    let mut screen = screen(vec![facts(1)]);
    let event = WindowManagerEvent::Show(win_event(), Window { hwnd: 1 });
    handle(&mut wm, event, &mut screen, &seen());
    assert!(wm.focused_workspace().unwrap().is_empty());
}

#[test]
fn events_can_be_taken_up_again() {
    let mut wm = manager();
    let mut screen = screen(vec![facts(1)]);
    let rules = RuleSet::new();
    let settings = Settings::default();
    let mut seen = seen();
    seen.has_subscribers = true;
    let context = Context { rules: &rules, settings: &settings, seen: &seen };
    let event = WindowManagerEvent::TitleUpdate(win_event(), Window { hwnd: 1 });
    wm.resume(Resume::Event(EventStage::Report, event), &context, &mut screen).unwrap();
    assert!(screen
        .plan
        .steps
        .iter()
        .any(|step| matches!(step, Step::Notify(Notice::Event(_), _))));
}

#[test]
fn small_or_nameless_windows_are_not_managed() {
    let rules = RuleSet::new();
    let window = Window { hwnd: 1 };
    let mut plan = Plan::new();
    let mut debug = RuleDebug::default();
    let desktop = screen(vec![facts(1)]).desktop;
    let event = Some(WindowManagerEvent::Show(win_event(), window));
    assert_eq!(
        window.should_manage(event, &mut debug, &rules, &vec![], &desktop, &mut plan),
        Ok(true)
    );
    assert!(debug.should_manage);
    assert_eq!(debug.exe_name, Some("app.exe".to_string()));

    let mut nameless = facts(1);
    nameless.title = None;
    let desktop = screen(vec![nameless]).desktop;
    let mut debug = RuleDebug::default();
    assert_eq!(
        window.should_manage(event, &mut debug, &rules, &vec![], &desktop, &mut plan),
        Ok(false)
    );

    let desktop = screen(vec![]).desktop;
    let mut debug = RuleDebug::default();
    assert_eq!(
        window.should_manage(event, &mut debug, &rules, &vec![], &desktop, &mut plan),
        Ok(false)
    );
    assert!(!debug.is_window);
}

#[test]
fn ignored_windows_are_not_managed_unless_asked_for() {
    let mut rules = RuleSet::new();
    rules.ignore_identifiers.push(MatchingRule::simple(
        ApplicationIdentifier::Exe,
        "app.exe".to_string(),
        MatchingStrategy::Equals,
    ));
    let window = Window { hwnd: 1 };
    let mut plan = Plan::new();
    let desktop = screen(vec![facts(1)]).desktop;
    let event = Some(WindowManagerEvent::Show(win_event(), window));
    let mut debug = RuleDebug::default();
    assert_eq!(
        window.should_manage(event, &mut debug, &rules, &vec![], &desktop, &mut plan),
        Ok(false)
    );
    assert!(debug.matches_ignore_identifier.is_some());
    let asked = Some(WindowManagerEvent::Manage(window));
    let mut debug = RuleDebug::default();
    assert_eq!(
        window.should_manage(asked, &mut debug, &rules, &vec![], &desktop, &mut plan),
        Ok(true)
    );
}

#[test]
fn windows_of_pinning_rules_are_pinned() {
    let rule = || {
        MatchingRule::Simple(IdWithIdentifier {
            kind: ApplicationIdentifier::Exe,
            id: "app.exe".to_string(),
            matching_strategy: Some(MatchingStrategy::Equals),
        })
    };
    let mut rules = RuleSet::new();
    rules.floating_applications.push(rule());
    rules.pinned_floating_applications.push(rule());
    let mut wm = manager();
    let mut screen = screen(vec![facts(1)]);
    let event = WindowManagerEvent::Show(win_event(), Window { hwnd: 1 });
    handle_with(&mut wm, event, &mut screen, &seen(), rules);
    assert_eq!(wm.monitors()[0].pinned_floating, vec![1]);
    assert!(!wm.contains_window(1));
}

#[test]
fn the_desktop_is_looked_at_after_the_wait_for_a_slow_application() {
    let mut rules = RuleSet::new();
    rules.slow_application_identifiers.push(MatchingRule::simple(
        ApplicationIdentifier::Exe,
        "app.exe".to_string(),
        MatchingStrategy::Equals,
    ));
    rules.slow_application_compensation_time = 20;
    let settings = Settings::default();
    let mut wm = manager();
    wm.virtual_desktop_id = Some(vec![1]);
    wm.last_virtual_desktop_id = Some(vec![1]);
    let event = WindowManagerEvent::Show(win_event(), Window { hwnd: 1 });

    let mut before = seen();
    before.virtual_desktop = Some(vec![1]);
    let context = Context { rules: &rules, settings: &settings, seen: &before };
    let mut first = screen(vec![facts(1)]);
    wm.process_event(event, &context, &mut first).unwrap();
    assert_eq!(first.plan.steps.len(), 2);
    assert!(matches!(first.plan.steps[0], Step::Do(Call::Sleep(20))));
    assert!(matches!(
        first.plan.steps[1],
        Step::Continue(Resume::Event(EventStage::Arrive, WindowManagerEvent::Show(..)))
    ));

    let mut after = seen();
    after.virtual_desktop = Some(vec![2]);
    let context = Context { rules: &rules, settings: &settings, seen: &after };
    let mut second = screen(vec![facts(1)]);
    wm.resume(Resume::Event(EventStage::Arrive, event), &context, &mut second).unwrap();
    assert_eq!(wm.last_virtual_desktop_id, Some(vec![2]));
    assert!(matches!(second.plan.steps[0], Step::Do(Call::DestroyAllBorders)));

    wm.virtual_desktop_id = None;
    let mut third = screen(vec![facts(1)]);
    handle_with(&mut wm, event, &mut third, &seen(), rules);
    assert!(wm.contains_window(1));
}

#[test]
fn targets_of_a_drop_are_focused_after_the_wait() {
    let slow = || {
        let mut rules = RuleSet::new();
        rules.slow_application_identifiers.push(MatchingRule::simple(
            ApplicationIdentifier::Exe,
            "app.exe".to_string(),
            MatchingStrategy::Equals,
        ));
        rules
    };
    let mut wm = manager();
    let show = WindowManagerEvent::Show(win_event(), Window { hwnd: 1 });
    handle(&mut wm, show, &mut screen(vec![facts(1)]), &seen());
    let rules = slow();
    let settings = Settings::default();
    let seen = seen();
    let context = Context { rules: &rules, settings: &settings, seen: &seen };
    let event = WindowManagerEvent::DragDrop(win_event(), Window { hwnd: 1 });
    let mut dropped = screen(vec![facts(1)]);
    wm.resume(Resume::Event(EventStage::Handle, event), &context, &mut dropped).unwrap();
    assert!(matches!(dropped.plan.steps[0], Step::Do(Call::Sleep(_))));
    assert!(matches!(
        dropped.plan.steps[1],
        Step::Continue(Resume::Event(EventStage::Dropped, _))
    ));
    let mut focused = screen(vec![facts(1)]);
    wm.resume(Resume::Event(EventStage::Dropped, event), &context, &mut focused).unwrap();
    assert!(!focused.plan.steps.is_empty());
    assert!(!focused.plan.steps.iter().any(|step| matches!(step, Step::Do(Call::Sleep(_)))));
}

#[test]
fn pins_are_looked_at_again_after_the_stacking() {
    let mut wm = manager();
    wm.monitors_mut()[0].pin_floating_window(7);
    let rules = RuleSet::new();
    let mut settings = Settings::default();
    settings.hide_pinned_on_empty_workspaces = true;
    let seen = seen();
    let context = Context { rules: &rules, settings: &settings, seen: &seen };

    let mut hidden = facts(7);
    hidden.is_shown = false;
    let mut stacked = screen(vec![hidden]);
    wm.monitors()[0].enforce_layer_stack(&settings, &mut stacked).unwrap();
    assert!(matches!(
        stacked.plan.steps.last(),
        Some(Step::Continue(Resume::SettlePins(0)))
    ));

    // A raise has shown the pinned window by then.
    let mut observed = screen(vec![facts(7)]);
    wm.resume(Resume::SettlePins(0), &context, &mut observed).unwrap();
    assert!(observed
        .plan
        .steps
        .iter()
        .any(|step| matches!(step, Step::Do(Call::CloakWindow(7)))));
    let mut gone = screen(vec![facts(7)]);
    wm.resume(Resume::SettlePins(9), &context, &mut gone).unwrap();
    assert!(gone.plan.steps.is_empty());

    let mut updated = screen(vec![facts(7)]);
    wm.monitors_mut()[0].update_focused_workspace(None, &settings, &mut updated).unwrap();
    assert!(matches!(updated.plan.steps[0], Step::Do(Call::UpdateWorkspace { .. })));
    assert!(matches!(updated.plan.steps[1], Step::Continue(Resume::SettlePins(0))));

    let mut quiet = screen(vec![facts(7)]);
    wm.monitors()[0].enforce_layer_stack(&Settings::default(), &mut quiet).unwrap();
    assert!(!quiet.plan.steps.iter().any(|step| matches!(step, Step::Continue(_))));
}

#[test]
fn windows_are_not_centred_without_an_aspect_ratio() {
    let mut wm = manager();
    let rules = RuleSet::new();
    let mut settings = Settings::default();
    settings.floating_window_toggle_aspect_ratio = AspectRatio::Custom(16, 0);
    let seen = seen();
    let context = Context { rules: &rules, settings: &settings, seen: &seen };
    let window = Window { hwnd: 1 };
    let mut unmanaged = screen(vec![facts(1)]);
    let stage = Resume::Event(EventStage::Settled, WindowManagerEvent::Unmanage(window));
    assert_eq!(wm.resume(stage, &context, &mut unmanaged), Err(Error::NoAspectRatio));
    assert!(unmanaged.plan.steps.is_empty());
    let mut titled = screen(vec![facts(1)]);
    let event = WindowManagerEvent::TitleUpdate(win_event(), window);
    assert_eq!(wm.process_event(event, &context, &mut titled), Ok(()));
}
