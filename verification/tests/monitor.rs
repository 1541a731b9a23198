use komorebi::container::Container;
use komorebi::container::Lockable;
use komorebi::desktop::Desktop;
use komorebi::desktop::WindowFacts;
use komorebi::error::Error;
use komorebi::geometry::DefaultLayout;
use komorebi::geometry::Layout;
use komorebi::geometry::OperationDirection;
use komorebi::geometry::Rect;
use komorebi::monitor;
use komorebi::monitor::Monitor;
use komorebi::monitor::MonitorInformation;
use komorebi::plan::Call;
use komorebi::plan::Plan;
use komorebi::plan::Step;
use komorebi::settings::Settings;
use komorebi::wallpaper_worker::Wallpaper;
use komorebi::window::Hiding;
use komorebi::window::HidingBehaviour;
use komorebi::window::Screen;
use komorebi::window::Window;

fn test_monitor() -> Monitor {
    Monitor::new(
        0,
        Rect::default(),
        Rect::default(),
        "TestMonitor".to_string(),
        "TestDevice".to_string(),
        "TestDeviceID".to_string(),
        Some("TestMonitorID".to_string()),
    )
}

fn facts(hwnd: isize) -> WindowFacts {
    WindowFacts {
        hwnd,
        is_window: true,
        process_id: 1,
        is_visible: true,
        is_shown: true,
        is_maximized: false,
        is_minimized: false,
        is_cloaked: Some(false),
        is_responding: true,
        rect: Some(Rect { left: 0, top: 0, right: 100, bottom: 100 }),
        title: Some("title".to_string()),
        exe: Some("app.exe".to_string()),
        class: Some("class".to_string()),
        path: Some("C:\\app.exe".to_string()),
        style: Some(0x00C0_0000),
        ex_style: Some(0x0000_0100),
        alpha: None,
        monitor: 0,
        monitor_rect: None,
        work_rect: None,
        covers_monitor_area: false,
        covers_work_area: false,
        border: None,
    }
}

fn desktop(windows: Vec<WindowFacts>, foreground: Option<isize>) -> Desktop {
    Desktop { windows, foreground, cursor_window: None, unmanaged: Some(vec![]), now_ms: 10_000 }
}

fn screen(windows: Vec<WindowFacts>, foreground: Option<isize>) -> Screen {
    Screen {
        hiding: Hiding { hidden_hwnds: vec![], behaviour: HidingBehaviour::Cloak },
        desktop: desktop(windows, foreground),
        plan: Plan::new(),
    }
}

#[test]
fn test_add_container() {
    let mut m = test_monitor();

    m.add_container(Container::default(), Some(0)).unwrap();

    let workspace = m.focused_workspace_mut().unwrap();
    assert_eq!(workspace.containers().len(), 1);
}

#[test]
fn test_remove_workspace_by_idx() {
    let mut m = test_monitor();

    let new_workspace_index = m.new_workspace_idx();
    assert_eq!(new_workspace_index, 1);

    m.focus_workspace(new_workspace_index).unwrap();
    assert_eq!(m.workspaces().len(), 2);

    m.focus_workspace(new_workspace_index + 1).unwrap();
    assert_eq!(m.workspaces().len(), 3);

    m.remove_workspace_by_idx(1);
    assert_eq!(m.workspaces().len(), 2);
}

#[test]
fn test_remove_workspaces() {
    let mut m = test_monitor();

    let new_workspace_index = m.new_workspace_idx();
    assert_eq!(new_workspace_index, 1);

    m.focus_workspace(new_workspace_index).unwrap();
    assert_eq!(m.workspaces().len(), 2);

    m.focus_workspace(new_workspace_index + 1).unwrap();
    assert_eq!(m.workspaces().len(), 3);

    m.remove_workspaces();
    assert_eq!(m.workspaces().len(), 0);
}

#[test]
fn test_remove_nonexistent_workspace() {
    let mut m = test_monitor();

    let removed_workspace = m.remove_workspace_by_idx(1);
    assert!(removed_workspace.is_none());
}

#[test]
fn test_focus_workspace() {
    let mut m = test_monitor();

    let new_workspace_index = m.new_workspace_idx();
    assert_eq!(new_workspace_index, 1);

    m.focus_workspace(new_workspace_index).unwrap();
    assert_eq!(m.workspaces().len(), 2);
    assert_eq!(m.focused_workspace_idx(), 1);
}

#[test]
fn test_new_workspace_idx() {
    let m = test_monitor();

    let new_workspace_index = m.new_workspace_idx();
    assert_eq!(new_workspace_index, 1);
}

#[test]
fn test_move_container_to_workspace() {
    let mut m = test_monitor();
    let mut screen = screen(vec![], Some(9999));

    let new_workspace_index = m.new_workspace_idx();
    assert_eq!(new_workspace_index, 1);

    {
        let workspace = m.focused_workspace_mut().unwrap();
        for _ in 0..3 {
            let container = Container::default();
            workspace.add_container_to_back(container);
        }

        assert_eq!(m.focused_workspace().unwrap().containers().len(), 3);
    }

    m.focus_workspace(new_workspace_index).unwrap();
    m.focus_workspace(0).unwrap();

    m.move_container_to_workspace(1, true, None, &mut screen).unwrap();
    assert_eq!(m.focused_workspace_idx(), 1);
    assert_eq!(m.focused_workspace().unwrap().containers().len(), 1);

    m.focus_workspace(0).unwrap();
    assert_eq!(m.focused_workspace().unwrap().containers().len(), 2);

    m.move_container_to_workspace(1, false, None, &mut screen).unwrap();
    assert_eq!(m.focused_workspace().unwrap().containers().len(), 1);
    assert_eq!(m.focused_workspace_idx(), 0);

    m.focus_workspace(1).unwrap();
    assert_eq!(m.focused_workspace().unwrap().containers().len(), 2);
}

#[test]
fn test_move_container_to_workspace_moves_only_focused_window_from_stack() {
    let mut m = test_monitor();
    let mut screen = screen(vec![], Some(9999));

    let new_workspace_index = m.new_workspace_idx();
    assert_eq!(new_workspace_index, 1);

    {
        let workspace = m.focused_workspace_mut().unwrap();

        let mut stack = Container::default();
        stack.windows_mut().push(Window { hwnd: 0 });
        stack.windows_mut().push(Window { hwnd: 1 });
        workspace.add_container_to_back(stack);

        let mut single = Container::default();
        single.windows_mut().push(Window { hwnd: 2 });
        workspace.add_container_to_back(single);

        workspace.focus_container(0);

        assert_eq!(workspace.containers().len(), 2);
        assert_eq!(workspace.focused_container_idx(), 0);
    }

    m.move_container_to_workspace(1, false, None, &mut screen).unwrap();

    assert_eq!(m.focused_workspace_idx(), 0);
    assert_eq!(m.focused_workspace().unwrap().containers().len(), 2);
    let source_stack = &m.focused_workspace().unwrap().containers()[0];
    assert_eq!(source_stack.windows().len(), 1);
    assert!(source_stack.contains_window(1));

    m.focus_workspace(1).unwrap();
    assert_eq!(m.focused_workspace().unwrap().containers().len(), 1);
    let moved = &m.focused_workspace().unwrap().containers()[0];
    assert_eq!(moved.windows().len(), 1);
    assert!(moved.contains_window(0));
}

#[test]
fn test_move_container_to_nonexistent_workspace() {
    let mut m = test_monitor();
    let mut screen = screen(vec![], Some(9999));

    {
        let workspace = m.focused_workspace_mut().unwrap();
        for _ in 0..3 {
            let container = Container::default();
            workspace.add_container_to_back(container);
        }

        assert_eq!(m.focused_workspace().unwrap().containers().len(), 3);
    }

    assert_eq!(m.workspaces().len(), 1);

    m.move_container_to_workspace(8, true, None, &mut screen).unwrap();
    assert_eq!(m.workspaces().len(), 9);
    assert_eq!(m.focused_workspace_idx(), 8);
    assert_eq!(m.focused_workspace().unwrap().containers().len(), 1);
}

#[test]
fn test_ensure_workspace_count_workspace_contains_two_workspaces() {
    let mut m = test_monitor();

    let new_workspace_index = m.new_workspace_idx();
    m.focus_workspace(new_workspace_index).unwrap();
    assert_eq!(m.workspaces().len(), 2, "Monitor should have 2 workspaces");

    m.ensure_workspace_count(5);
    assert_eq!(m.workspaces().len(), 5, "Monitor should have 5 workspaces");
}

#[test]
fn test_ensure_workspace_count_only_default_workspace() {
    let mut m = test_monitor();

    m.ensure_workspace_count(5);
    assert_eq!(m.workspaces().len(), 5, "Monitor should have 5 workspaces");

    m.ensure_workspace_count(3);
    assert_eq!(m.workspaces().len(), 5, "Monitor should have 5 workspaces");
}

#[test]
fn test_ignored_window_candidate_excludes_managed_windows() {
    assert!(Monitor::is_ignored_window_candidate(false, true, false, false));
    assert!(Monitor::is_ignored_window_candidate(false, false, true, false));
    assert!(Monitor::is_ignored_window_candidate(false, false, false, true));

    assert!(!Monitor::is_ignored_window_candidate(true, false, true, false));
    assert!(!Monitor::is_ignored_window_candidate(true, true, false, false));

    assert!(!Monitor::is_ignored_window_candidate(false, false, false, false));
}

#[test]
fn test_should_auto_demote_excludes_topmost_widgets() {
    let is_widget = false;
    assert!(Monitor::should_auto_demote_predicate(is_widget, false));
    assert!(Monitor::should_auto_demote_predicate(is_widget, true));
    assert!(Monitor::should_auto_demote_predicate(true, false));
    assert!(!Monitor::should_auto_demote_predicate(true, true));
}

#[test]
fn test_should_steal_ignored_window_foreground() {
    assert!(Monitor::should_steal_ignored_window_foreground(true, false));
    assert!(Monitor::should_steal_ignored_window_foreground(true, true));
    assert!(Monitor::should_steal_ignored_window_foreground(false, true));
    assert!(!Monitor::should_steal_ignored_window_foreground(false, false));
}

#[test]
fn test_toggle_pin_always_on_top() {
    let mut m = test_monitor();
    let desktop = desktop(vec![], None);
    let mut plan = Plan::new();

    m.pin_floating_window(10);
    assert!(!m.is_pinned_always_on_top(10));

    m.toggle_pin_always_on_top(10, &desktop, &mut plan);
    assert!(m.is_pinned_always_on_top(10));

    m.toggle_pin_always_on_top(10, &desktop, &mut plan);
    assert!(!m.is_pinned_always_on_top(10));

    m.toggle_pin_always_on_top(10, &desktop, &mut plan);
    m.unpin_floating_window(10, &desktop, &mut plan);
    assert!(!m.is_pinned(10));
    assert!(!m.is_pinned_always_on_top(10));
}

#[test]
fn test_apply_pin_visibility_gated_by_config() {
    let mut m = test_monitor();
    let mut screen = screen(vec![], None);
    let mut settings = Settings::default();
    m.pin_floating_window(10);

    settings.hide_pinned_on_empty_workspaces = false;
    m.apply_pin_visibility(&settings, &mut screen).unwrap();
    assert_eq!(m.pinned_floating, vec![10]);

    settings.hide_pinned_on_empty_workspaces = true;
    m.apply_pin_visibility(&settings, &mut screen).unwrap();
    assert_eq!(m.pinned_floating, vec![10]);

    m.focused_workspace_mut()
        .unwrap()
        .add_container_to_back(Container::default());
    m.apply_pin_visibility(&settings, &mut screen).unwrap();
    assert_eq!(m.pinned_floating, vec![10]);
}

#[test]
fn test_update_focused_workspace_rechecks_pin_visibility() {
    let mut m = test_monitor();
    let mut screen = screen(vec![], None);
    let mut settings = Settings::default();
    m.pin_floating_window(10);

    settings.hide_pinned_on_empty_workspaces = true;

    m.update_focused_workspace(None, &settings, &mut screen).unwrap();
    assert_eq!(m.pinned_floating, vec![10]);

    m.focused_workspace_mut()
        .unwrap()
        .add_container_to_back(Container::default());
    m.update_focused_workspace(None, &settings, &mut screen).unwrap();
    assert_eq!(m.pinned_floating, vec![10]);
}

#[test]
fn pins_are_hidden_while_the_workspace_is_empty() {
    let mut m = test_monitor();
    m.pin_floating_window(10);
    let mut settings = Settings::default();
    settings.hide_pinned_on_empty_workspaces = true;
    let mut screen = screen(vec![facts(10)], None);

    m.apply_pin_visibility(&settings, &mut screen).unwrap();
    assert_eq!(screen.hiding.hidden_hwnds, vec![10]);

    m.focused_workspace_mut()
        .unwrap()
        .add_container_to_back(Container::default());
    m.apply_pin_visibility(&settings, &mut screen).unwrap();
    assert!(screen.hiding.hidden_hwnds.is_empty());
}

#[test]
fn updating_lays_the_focused_workspace_out() {
    let mut m = test_monitor();
    let mut screen = screen(vec![], None);
    m.update_focused_workspace(None, &Settings::default(), &mut screen).unwrap();
    assert!(matches!(
        screen.plan.steps[0],
        Step::Do(Call::UpdateWorkspace { monitor: 0, workspace: 0 })
    ));

    m.remove_workspaces();
    assert_eq!(
        m.update_focused_workspace(None, &Settings::default(), &mut screen),
        Err(Error::NoWorkspace)
    );
}

#[test]
fn windows_that_are_not_pinned_are_not_kept_on_top() {
    let mut m = test_monitor();
    let mut plan = Plan::new();
    m.toggle_pin_always_on_top(10, &desktop(vec![], None), &mut plan);
    assert!(!m.is_pinned_always_on_top(10));
    assert!(plan.steps.is_empty());
}

#[test]
fn pinning_takes_a_float_from_its_workspace() {
    let mut m = test_monitor();
    m.focused_workspace_mut().unwrap().floating_windows_mut().push(Window { hwnd: 10 });
    m.pin_floating_window(10);
    assert!(m.focused_workspace().unwrap().floating_windows().is_empty());
    assert!(m.is_pinned(10));
    m.pin_floating_window(10);
    assert_eq!(m.pinned_floating, vec![10]);
}

#[test]
fn containers_go_to_workspaces_that_exist() {
    let mut m = test_monitor();
    assert_eq!(
        m.add_container(Container::default(), Some(3)),
        Err(Error::NoWorkspaceAt(3))
    );
    assert_eq!(
        m.add_container_with_direction(Container::default(), None, OperationDirection::Left),
        Ok(())
    );
    assert_eq!(m.focused_workspace().unwrap().containers().len(), 1);
    m.remove_workspaces();
    assert_eq!(m.add_container(Container::default(), None), Err(Error::NoWorkspace));
}

#[test]
fn moving_needs_a_container_and_a_foreground() {
    let mut m = test_monitor();
    let mut nothing = screen(vec![], Some(5));
    assert_eq!(
        m.move_container_to_workspace(1, true, None, &mut nothing),
        Err(Error::NoContainer)
    );
    let mut silent = screen(vec![], None);
    m.focused_workspace_mut().unwrap().add_container_to_back(Container::default());
    assert_eq!(
        m.move_container_to_workspace(1, true, None, &mut silent),
        Err(Error::WindowSystem)
    );
}

#[test]
fn maximized_windows_do_not_move() {
    let mut m = test_monitor();
    m.focused_workspace_mut().unwrap().maximized_window = Some(Window { hwnd: 5 });
    let mut screen = screen(vec![], Some(5));
    assert_eq!(
        m.move_container_to_workspace(1, true, None, &mut screen),
        Err(Error::MaximizedWindow)
    );
}

#[test]
fn pinned_windows_are_on_every_workspace_already() {
    let mut m = test_monitor();
    m.pin_floating_window(5);
    let mut screen = screen(vec![], Some(5));
    assert_eq!(m.move_container_to_workspace(1, true, None, &mut screen), Ok(()));
    assert_eq!(m.workspaces().len(), 1);
}

#[test]
fn new_monitors_have_one_empty_workspace() {
    let m = monitor::new(
        7,
        Rect { left: 0, top: 0, right: 1920, bottom: 1080 },
        Rect { left: 0, top: 0, right: 1920, bottom: 1040 },
        "name".to_string(),
        "device".to_string(),
        "id".to_string(),
        None,
    );
    assert_eq!(m.workspaces().len(), 1);
    assert!(m.focused_workspace().unwrap().is_empty());
    assert_eq!(m.focused_workspace_layout(), Some(Layout::Default(DefaultLayout::BSP)));
    assert_eq!(m.focused_workspace_name(), None);
    let information = MonitorInformation::from_monitor(&m);
    assert_eq!(information.id, 7);
    assert_eq!(information.device_id, "id");
}

#[test]
fn switches_are_stable_after_a_while() {
    let mut m = test_monitor();
    assert!(!m.within_switch_stabilization(10_000));
    m.last_switch_at = Some(10_000);
    assert!(m.within_switch_stabilization(10_000));
    assert!(!m.within_switch_stabilization(20_000));
}

#[test]
fn containers_can_be_locked() {
    let mut container = Container::default();
    assert!(!container.locked());
    container.set_locked(true);
    assert!(container.locked());
    container.set_locked(false).set_locked(true);
    assert!(container.locked());
}

#[test]
fn unmanaged_windows_are_found_by_their_looks() {
    let m = test_monitor();
    let mut windows = desktop(vec![facts(1), facts(2)], None);
    windows.unmanaged = Some(vec![1, 2]);
    let ignored: Vec<isize> = m.ignored_windows(&windows).iter().map(|w| w.hwnd).collect();
    assert_eq!(ignored, vec![1, 2]);
}

#[test]
fn placeholders_are_empty_monitors() {
    let m = Monitor::placeholder();
    assert_eq!(m.id, 0);
    assert_eq!(m.name, "PLACEHOLDER");
    assert_eq!(m.device_id, "");
    assert!(m.workspaces().is_empty());
}

#[test]
fn workspaces_learn_what_their_monitor_is_like() {
    let mut m = test_monitor();
    m.focus_workspace(1).unwrap();
    m.work_area_size = Rect { left: 0, top: 0, right: 1920, bottom: 1040 };
    let offset = Rect { left: 10, top: 0, right: 10, bottom: 0 };
    m.update_workspaces_globals(Some(offset), &Settings::default());
    for workspace in m.workspaces() {
        assert_eq!(workspace.globals.work_area, m.work_area_size);
        assert_eq!(workspace.globals.work_area_offset, Some(offset));
    }
}

#[test]
fn switches_show_the_focused_workspace_with_the_wallpaper() {
    let mut m = test_monitor();
    m.focus_workspace(1).unwrap();
    m.pin_floating_window(7);
    m.wallpaper = Some(Wallpaper {
        path: "sea.png".to_string(),
        generate_theme: None,
        theme_options: None,
    });
    let mut screen = screen(vec![facts(7)], None);
    m.load_focused_workspace(true, false, &mut screen);
    assert_eq!(m.last_switch_at, Some(10_000));
    assert_eq!(m.pinned_floating, vec![7]);
    assert_eq!(screen.plan.steps.len(), 3);
    assert!(matches!(
        screen.plan.steps[0],
        Step::Do(Call::HideWorkspace { monitor: 0, workspace: 0 })
    ));
    match &screen.plan.steps[1] {
        Step::Do(Call::RestoreWorkspace {
            monitor: 0,
            workspace: 1,
            mouse_follows_focus: true,
            trigger_focus: false,
            monitor_wallpaper: Some(wallpaper),
        }) => assert_eq!(wallpaper.path, "sea.png"),
        _ => panic!("the workspace was not shown"),
    }
}
