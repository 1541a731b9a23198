use komorebi::animation::settings::AnimationPrefix;
use komorebi::behaviour::FocusFollowsMouseImplementation;
use komorebi::behaviour::MonocleFocusBehaviour;
use komorebi::behaviour::MoveBehaviour;
use komorebi::behaviour::Placement;
use komorebi::behaviour::WindowManagementBehaviour;
use komorebi::container::Container;
use komorebi::desktop::Desktop;
use komorebi::desktop::WindowFacts;
use komorebi::error::Error;
use komorebi::geometry::Axis;
use komorebi::geometry::CustomLayout;
use komorebi::geometry::CycleDirection;
use komorebi::geometry::DefaultLayout;
use komorebi::geometry::Layout;
use komorebi::geometry::OperationDirection;
use komorebi::geometry::Rect;
use komorebi::geometry::Sizing;
use komorebi::manager_op::ManagerOp;
use komorebi::monitor;
use komorebi::plan::Call;
use komorebi::plan::CommandStage;
use komorebi::plan::Plan;
use komorebi::plan::Signal;
use komorebi::plan::Step;
use komorebi::process_command::receive_command;
use komorebi::process_command::wait_for_lock;
use komorebi::process_command::LockWait;
use komorebi::process_command::Reception;
use komorebi::reply::Answer;
use komorebi::reply::Reply;
use komorebi::rule_set::RuleSet;
use komorebi::rules::ApplicationIdentifier;
use komorebi::session::Session;
use komorebi::settings::Rgb;
use komorebi::settings::Settings;
use komorebi::socket_message::SocketMessage;
use komorebi::socket_message::StateQuery;
use komorebi::socket_message::SubscribeOptions;
use komorebi::socket_message::WindowKind;
use komorebi::turn::Observations;
use komorebi::window::Hiding;
use komorebi::window::HidingBehaviour;
use komorebi::window::Screen;
use komorebi::window::Window;
use komorebi::window_manager::WindowManager;
use komorebi::workspace::WindowContainerBehaviour;
use komorebi::workspace::WorkspaceLayer;

fn facts(hwnd: isize) -> WindowFacts {
    WindowFacts {
        hwnd,
        is_window: true,
        process_id: 1,
        is_visible: true,
        is_shown: true,
        is_maximized: false,
        is_minimized: false,
        is_cloaked: Some(false),
        is_responding: true,
        rect: Some(Rect { left: 0, top: 0, right: 800, bottom: 600 }),
        title: Some("title".to_string()),
        exe: Some("app.exe".to_string()),
        class: Some("class".to_string()),
        path: Some("C:\\app.exe".to_string()),
        style: Some(0x00C0_0000),
        ex_style: Some(0x0000_0100),
        alpha: None,
        monitor: 0,
        monitor_rect: None,
        work_rect: None,
        covers_monitor_area: false,
        covers_work_area: false,
        border: None,
    }
}

fn screen(windows: Vec<WindowFacts>, foreground: Option<isize>) -> Screen {
    Screen {
        hiding: Hiding { hidden_hwnds: vec![], behaviour: HidingBehaviour::Cloak },
        desktop: Desktop {
            windows,
            foreground,
            cursor_window: None,
            unmanaged: Some(vec![]),
            now_ms: 100_000,
        },
        plan: Plan::new(),
    }
}

fn seen() -> Observations {
    Observations {
        cursor_monitor: Some(0),
        cursor_containers: vec![],
        event_monitor: Some(0),
        virtual_desktop: None,
        display_changing: false,
        flips_suppressed: false,
        overlay_suppressed: false,
        behaviour: WindowManagementBehaviour {
            current_behaviour: WindowContainerBehaviour::Create,
            float_override: false,
            floating_layer_override: false,
            floating_layer_placement: Placement::Unplaced,
            float_override_placement: Placement::Unplaced,
            float_rule_placement: Placement::Unplaced,
        },
        dimmed_hwnds: vec![],
        answer: false,
        modified: false,
        has_subscribers: false,
        system_focus_follows_mouse: Some(false),
        resize_dimensions: vec![],
    }
}

fn session() -> Session {
    Session::new(RuleSet::new(), Settings::default())
}

fn manager(monitors: usize) -> WindowManager {
    let mut wm = WindowManager::new();
    for idx in 0..monitors {
        let m = monitor::new(
            idx as isize,
            Rect { left: 0, top: 0, right: 1920, bottom: 1080 },
            Rect { left: 0, top: 0, right: 1920, bottom: 1040 },
            format!("TestMonitor{idx}"),
            "TestDevice".to_string(),
            format!("TestDeviceID{idx}"),
            None,
        );
        wm.monitors_mut().push(m);
    }
    wm
}

fn command(wm: &mut WindowManager, session: &mut Session, message: SocketMessage) -> Screen {
    let mut screen = screen(vec![facts(1), facts(2)], Some(1));
    wm.process_command(&message, session, &seen(), &mut screen).unwrap();
    screen
}

fn asks_for(screen: &Screen, wanted: fn(&ManagerOp) -> bool) -> bool {
    screen.plan.steps.iter().any(|step| match step {
        Step::Manage(op) => wanted(op),
        _ => false,
    })
}

#[test]
fn focusing_a_workspace_is_handed_on() {
    let mut wm = manager(1);
    let screen = command(&mut wm, &mut session(), SocketMessage::FocusWorkspaceNumber(5));
    assert!(asks_for(&screen, |op| matches!(op, ManagerOp::FocusWorkspace(5))));
    assert!(matches!(screen.plan.steps[0], Step::RememberState));
    for step in &screen.plan.steps {
        if let Step::Manage(ManagerOp::FocusWorkspace(idx)) = step {
            wm.focus_workspace(*idx).unwrap();
        }
    }
    assert_eq!(wm.focused_workspace_idx().unwrap(), 5);
    assert_eq!(wm.monitors()[0].workspaces().len(), 6);
    assert_eq!(wm.focus_workspace(usize::MAX), Err(Error::NoWorkspaceAt(usize::MAX)));
    assert_eq!(manager(0).focus_workspace(0), Err(Error::NoMonitor));
}

/// The primary columns that are to be resized, by the index of their rule.
fn resized_columns(screen: &Screen) -> Vec<Option<usize>> {
    screen
        .plan
        .steps
        .iter()
        .filter_map(|step| match step {
            Step::Manage(ManagerOp::ResizePrimaryColumn { rule, sizing: Sizing::Increase }) => {
                Some(*rule)
            }
            _ => None,
        })
        .collect()
}

#[test]
fn custom_layouts_are_resized_by_their_primary_column() {
    let mut wm = manager(1);
    let custom = Layout::Custom(CustomLayout { handle: 1 });
    let message = || SocketMessage::ResizeWindowAxis(Axis::Horizontal, Sizing::Increase);

    let screen = command(&mut wm, &mut session(), message());
    assert!(resized_columns(&screen).is_empty());
    assert!(asks_for(&screen, |op| matches!(
        op,
        ManagerOp::ResizeWindow { direction: OperationDirection::Left, .. }
    )));

    wm.focused_workspace_mut().unwrap().layout = custom;
    let screen = command(&mut wm, &mut session(), message());
    assert_eq!(resized_columns(&screen), vec![None]);
    assert!(!asks_for(&screen, |op| matches!(op, ManagerOp::ResizeWindow { .. })));

    let workspace = wm.focused_workspace_mut().unwrap();
    workspace.layout_rules = vec![
        (0, custom),
        (1, Layout::Default(DefaultLayout::BSP)),
        (1, custom),
        (2, custom),
    ];
    workspace.containers.elements.push(Container::default());
    let screen = command(&mut wm, &mut session(), message());
    assert_eq!(resized_columns(&screen), vec![Some(0), Some(2)]);

    let vertical = SocketMessage::ResizeWindowAxis(Axis::Vertical, Sizing::Increase);
    let screen = command(&mut wm, &mut session(), vertical);
    assert!(resized_columns(&screen).is_empty());
    assert!(asks_for(&screen, |op| matches!(op, ManagerOp::UpdateFocusedWorkspace { .. })));
}

#[test]
fn pauses_toggle() {
    let mut wm = manager(1);
    command(&mut wm, &mut session(), SocketMessage::TogglePause);
    assert!(wm.is_paused);
    command(&mut wm, &mut session(), SocketMessage::TogglePause);
    assert!(!wm.is_paused);
}

#[test]
fn paused_managers_take_few_commands() {
    assert_eq!(receive_command(false, &SocketMessage::Retile), Reception::Process);
    assert_eq!(receive_command(true, &SocketMessage::Retile), Reception::IgnoreAndClose);
    assert_eq!(receive_command(true, &SocketMessage::TogglePause), Reception::ProcessAndClose);
    assert_eq!(receive_command(true, &SocketMessage::State), Reception::ProcessAndClose);
    assert_eq!(receive_command(true, &SocketMessage::GlobalState), Reception::ProcessAndClose);
    assert_eq!(receive_command(true, &SocketMessage::Stop), Reception::ProcessAndClose);
}

#[test]
fn waiting_for_the_manager_has_an_end() {
    assert_eq!(wait_for_lock(100, false), LockWait { warn: false, give_up: false });
    assert_eq!(wait_for_lock(2_000, false), LockWait { warn: true, give_up: false });
    assert_eq!(wait_for_lock(2_000, true), LockWait { warn: false, give_up: false });
    assert_eq!(wait_for_lock(10_000, true), LockWait { warn: false, give_up: true });
}

#[test]
fn behaviours_toggle() {
    let mut wm = manager(1);
    let mut session = session();
    command(&mut wm, &mut session, SocketMessage::ToggleWindowContainerBehaviour);
    assert_eq!(
        wm.window_management_behaviour.current_behaviour,
        WindowContainerBehaviour::Append
    );
    command(&mut wm, &mut session, SocketMessage::ToggleFloatOverride);
    assert!(wm.window_management_behaviour.float_override);
    command(&mut wm, &mut session, SocketMessage::ToggleCrossMonitorMoveBehaviour);
    assert_eq!(wm.cross_monitor_move_behaviour, MoveBehaviour::Insert);
    command(&mut wm, &mut session, SocketMessage::ToggleMonocleFocusBehaviour);
    assert_eq!(wm.monocle_focus_behaviour, MonocleFocusBehaviour::Cycle);
    command(&mut wm, &mut session, SocketMessage::ToggleMouseFollowsFocus);
    assert!(!wm.mouse_follows_focus);
    command(&mut wm, &mut session, SocketMessage::MouseFollowsFocus(true));
    assert!(wm.mouse_follows_focus);
    command(&mut wm, &mut session, SocketMessage::ResizeDelta(30));
    assert_eq!(wm.resize_delta, 30);
}

#[test]
fn settings_are_changed_by_commands() {
    let mut wm = manager(1);
    let mut session = session();
    command(&mut wm, &mut session, SocketMessage::Transparency(true));
    assert!(session.settings.transparency.enabled);
    command(&mut wm, &mut session, SocketMessage::ToggleTransparency);
    assert!(!session.settings.transparency.enabled);
    command(&mut wm, &mut session, SocketMessage::TransparencyAlpha(120));
    assert_eq!(session.settings.transparency.alpha, 120);
    command(&mut wm, &mut session, SocketMessage::BorderWidth(4));
    assert_eq!(session.settings.border.width, 4);
    command(
        &mut wm,
        &mut session,
        SocketMessage::BorderColour(WindowKind::Stack, 1, 2, 3),
    );
    assert_eq!(session.settings.border.colours.stack, Some(Rgb { r: 1, g: 2, b: 3 }));
    command(&mut wm, &mut session, SocketMessage::AnimationFps(30));
    assert_eq!(session.settings.animations.fps, 30);
    command(
        &mut wm,
        &mut session,
        SocketMessage::Animation(true, Some(AnimationPrefix::Movement)),
    );
    assert!(session.settings.animations.is_enabled(AnimationPrefix::Movement));
    assert!(!session.settings.animations.is_enabled(AnimationPrefix::Transparency));
}

#[test]
fn rules_are_added_once() {
    let mut wm = manager(1);
    let mut session = session();
    let before = session.rules.manage_identifiers.len();
    for _ in 0..2 {
        command(
            &mut wm,
            &mut session,
            SocketMessage::ManageRule(ApplicationIdentifier::Exe, "editor.exe".to_string()),
        );
    }
    assert_eq!(session.rules.manage_identifiers.len(), before + 1);
}

#[test]
fn ignored_windows_are_sent_away_one_by_one() {
    let mut wm = manager(1);
    let mut container = Container::default();
    container.add_window(Window { hwnd: 1 });
    wm.focused_workspace_mut().unwrap().add_container_to_back(container);
    let mut session = session();
    let message = SocketMessage::IgnoreRule(ApplicationIdentifier::Exe, "app.exe".to_string());
    let mut screen = screen(vec![facts(1)], Some(1));
    wm.process_command(&message, &mut session, &seen(), &mut screen).unwrap();
    assert_eq!(session.purge, vec![(0, 1)]);
    assert!(matches!(
        screen.plan.steps.last(),
        Some(Step::ContinueCommand(CommandStage::Purge))
    ));
    wm.resume_command(CommandStage::Purge, &message, &mut session, &seen(), &mut screen)
        .unwrap();
    assert!(!wm.contains_window(1));
}

#[test]
fn commands_end_with_what_follows_every_command() {
    let mut wm = manager(1);
    let mut session = session();
    let mut screen = screen(vec![], None);
    wm.resume_command(
        CommandStage::Finish { force_borders: true },
        &SocketMessage::Retile,
        &mut session,
        &seen(),
        &mut screen,
    )
    .unwrap();
    assert!(screen
        .plan
        .steps
        .iter()
        .any(|step| matches!(step, Step::Send(Signal::ForceUpdateBorders))));
    assert!(screen
        .plan
        .steps
        .iter()
        .any(|step| matches!(step, Step::Send(Signal::UpdateStackbars))));
}

#[test]
fn commands_on_other_desktops_change_nothing() {
    let mut wm = manager(1);
    wm.virtual_desktop_id = Some(vec![1]);
    let mut seen = seen();
    seen.virtual_desktop = Some(vec![2]);
    let mut session = session();
    let mut screen = screen(vec![], None);
    wm.process_command(&SocketMessage::TogglePause, &mut session, &seen, &mut screen).unwrap();
    assert!(!wm.is_paused);
    assert!(screen.plan.steps.is_empty());
}

#[test]
fn subscribers_come_and_go() {
    let mut wm = manager(1);
    let mut session = session();
    command(
        &mut wm,
        &mut session,
        SocketMessage::AddSubscriberSocketWithOptions(
            "bar".to_string(),
            SubscribeOptions { filter_state_changes: true },
        ),
    );
    assert!(session.subscriptions.has_subscribers());
    command(&mut wm, &mut session, SocketMessage::RemoveSubscriberSocket("bar".to_string()));
    assert!(!session.subscriptions.has_subscribers());
}

#[test]
fn named_workspaces_are_found() {
    let mut wm = manager(2);
    wm.monitors_mut()[1].workspaces_mut()[0].name = Some("mail".to_string());
    assert_eq!(wm.monitor_workspace_index_by_name("mail"), Some((1, 0)));
    assert_eq!(wm.monitor_workspace_index_by_name("chat"), None);
    let mut session = session();
    let moved = command(
        &mut wm,
        &mut session,
        SocketMessage::SendContainerToNamedWorkspace("mail".to_string()),
    );
    assert!(asks_for(&moved, |op| matches!(
        op,
        ManagerOp::MoveContainerToMonitor { monitor: 1, to: Some(0), follow: false }
    )));
}

#[test]
fn questions_are_answered() {
    let mut wm = manager(2);
    wm.focus_monitor(1).unwrap();
    assert!(matches!(wm.query(StateQuery::FocusedMonitorIndex), Ok(Answer::Number(1))));
    assert!(matches!(wm.query(StateQuery::Version), Ok(Answer::Version)));
    assert_eq!(wm.monitor_information().len(), 2);
    assert_eq!(wm.visible_windows().len(), 2);
    let mut session = session();
    let screen = command(&mut wm, &mut session, SocketMessage::State);
    assert!(screen.plan.steps.iter().any(|step| matches!(step, Step::Reply(Reply::State))));
}

#[test]
fn questions_about_nothing_fail() {
    let wm = manager(0);
    assert!(matches!(wm.query(StateQuery::FocusedWorkspaceIndex), Err(Error::NoMonitor)));
}

#[test]
fn rules_are_debugged_for_a_window() {
    let mut wm = manager(1);
    let mut session = session();
    let screen = command(&mut wm, &mut session, SocketMessage::DebugWindow(1));
    let debug = screen
        .plan
        .steps
        .iter()
        .find_map(|step| match step {
            Step::Reply(Reply::RuleDebug(debug)) => Some(debug),
            _ => None,
        })
        .unwrap();
    assert_eq!(debug.exe_name, Some("app.exe".to_string()));
}

#[test]
fn the_focus_follows_the_mouse_in_one_way() {
    let mut wm = manager(1);
    let mut session = session();
    session.settings.custom_ffm = true;
    command(
        &mut wm,
        &mut session,
        SocketMessage::FocusFollowsMouse(FocusFollowsMouseImplementation::Komorebi, true),
    );
    assert_eq!(wm.focus_follows_mouse, Some(FocusFollowsMouseImplementation::Komorebi));
}

#[test]
fn directions_are_handed_to_the_layout() {
    let mut wm = manager(1);
    let mut session = session();
    let screen =
        command(&mut wm, &mut session, SocketMessage::FocusWindow(OperationDirection::Left));
    assert!(asks_for(&screen, |op| matches!(
        op,
        ManagerOp::FocusContainerInDirection(OperationDirection::Left)
    )));
    let screen =
        command(&mut wm, &mut session, SocketMessage::CycleMoveWindow(CycleDirection::Next));
    assert!(asks_for(&screen, |op| matches!(
        op,
        ManagerOp::MoveContainerInCycleDirection(CycleDirection::Next)
    )));
}

#[test]
fn layers_toggle() {
    let mut wm = manager(1);
    wm.focused_workspace_mut().unwrap().floating_windows_mut().push(Window { hwnd: 2 });
    let mut session = session();
    command(&mut wm, &mut session, SocketMessage::ToggleWorkspaceLayer);
    assert_eq!(wm.focused_workspace().unwrap().layer, WorkspaceLayer::Floating);
    assert!(wm.focused_workspace().unwrap().layer_lock);
    command(&mut wm, &mut session, SocketMessage::ToggleWorkspaceLayer);
    assert_eq!(wm.focused_workspace().unwrap().layer, WorkspaceLayer::Tiling);
}

#[test]
fn windows_are_found_by_their_program() {
    let mut wm = manager(2);
    let mut container = Container::default();
    container.add_window(Window { hwnd: 1 });
    wm.monitors_mut()[1].workspaces_mut()[0].add_container_to_back(container);
    let desktop = screen(vec![facts(1)], None).desktop;
    assert!(wm.monitors()[1].workspaces()[0].location_from_exe("app.exe", &desktop).is_some());
    assert!(wm.monitors()[1].workspaces()[0].location_from_exe("other.exe", &desktop).is_none());
}

#[test]
fn monitors_are_focused_by_number() {
    let mut wm = manager(2);
    assert_eq!(wm.focus_monitor(1), Ok(()));
    assert_eq!(wm.focused_monitor_idx(), 1);
    assert_eq!(wm.focus_monitor(5), Err(Error::NoMonitorAt(5)));
}

fn tiled(wm: &mut WindowManager, monitor: usize, workspace: usize, hwnd: isize) {
    let mut container = Container::default();
    container.add_window(Window { hwnd });
    wm.monitors_mut()[monitor].workspaces_mut()[workspace].add_container_to_back(container);
}

#[test]
fn the_next_empty_workspace_is_focused() {
    let mut wm = manager(1);
    wm.monitors_mut()[0].focus_workspace(3).unwrap();
    wm.monitors_mut()[0].focus_workspace(0).unwrap();
    tiled(&mut wm, 0, 0, 1);
    tiled(&mut wm, 0, 1, 2);
    let mut session = session();
    let next = SocketMessage::CycleFocusEmptyWorkspace(CycleDirection::Next);
    let screen = command(&mut wm, &mut session, next);
    assert!(asks_for(&screen, |op| matches!(op, ManagerOp::FocusWorkspace(2))));
    let previous = SocketMessage::CycleFocusEmptyWorkspace(CycleDirection::Previous);
    let screen = command(&mut wm, &mut session, previous);
    assert!(asks_for(&screen, |op| matches!(op, ManagerOp::FocusWorkspace(3))));

    // Backwards from behind the last workspace
    wm.monitors_mut()[0].workspaces.focus(9);
    let previous = SocketMessage::CycleFocusEmptyWorkspace(CycleDirection::Previous);
    let screen = command(&mut wm, &mut session, previous);
    assert!(asks_for(&screen, |op| matches!(op, ManagerOp::FocusWorkspace(3))));
}

#[test]
fn full_workspaces_are_not_cycled_through() {
    let mut wm = manager(1);
    tiled(&mut wm, 0, 0, 1);
    let message = SocketMessage::CycleFocusEmptyWorkspace(CycleDirection::Next);
    let screen = command(&mut wm, &mut session(), message);
    assert!(!asks_for(&screen, |op| matches!(op, ManagerOp::FocusWorkspace(_))));
}

#[test]
fn only_empty_workspaces_are_closed() {
    let mut wm = manager(1);
    wm.monitors_mut()[0].focus_workspace(1).unwrap();
    let mut session = session();
    tiled(&mut wm, 0, 1, 1);
    command(&mut wm, &mut session, SocketMessage::CloseWorkspace);
    assert_eq!(wm.monitors()[0].workspaces().len(), 2);

    wm.monitors_mut()[0].focus_workspace(0).unwrap();
    let screen = command(&mut wm, &mut session, SocketMessage::CloseWorkspace);
    assert_eq!(wm.monitors()[0].workspaces().len(), 1);
    assert!(asks_for(&screen, |op| matches!(op, ManagerOp::FocusWorkspace(0))));

    command(&mut wm, &mut session, SocketMessage::CloseWorkspace);
    assert_eq!(wm.monitors()[0].workspaces().len(), 1);
}

#[test]
fn ignored_windows_toggle_between_the_layers() {
    let mut wm = manager(1);
    let mut session = session();
    let message = SocketMessage::ToggleIgnoredWindowLayer;
    let mut up = screen(vec![facts(1), facts(2)], Some(1));
    up.desktop.unmanaged = Some(vec![1, 2]);
    wm.process_command(&message, &mut session, &seen(), &mut up).unwrap();
    assert!(wm.focused_workspace().unwrap().ignored_windows_above_managed);
    let raised: Vec<isize> = up
        .plan
        .steps
        .iter()
        .filter_map(|step| match step {
            Step::Do(Call::RaiseWindow(hwnd)) => Some(*hwnd),
            _ => None,
        })
        .collect();
    assert_eq!(raised, vec![2, 1]);
    assert!(up
        .plan
        .steps
        .iter()
        .any(|step| matches!(step, Step::Do(Call::RaiseAndFocusWindow(1)))));

    let mut down = screen(vec![facts(1), facts(2)], Some(1));
    down.desktop.unmanaged = Some(vec![1, 2]);
    wm.process_command(&message, &mut session, &seen(), &mut down).unwrap();
    assert!(!wm.focused_workspace().unwrap().ignored_windows_above_managed);
    let lowered: Vec<isize> = down
        .plan
        .steps
        .iter()
        .filter_map(|step| match step {
            Step::Do(Call::LowerWindow(hwnd)) => Some(*hwnd),
            _ => None,
        })
        .collect();
    assert_eq!(lowered, vec![1, 2]);
}

#[test]
fn session_rules_float_a_window_until_they_are_cleared() {
    let mut wm = manager(1);
    let mut session = session();
    let before = session.rules.floating_applications.len();
    let screen = command(&mut wm, &mut session, SocketMessage::SessionFloatRule);
    assert!(asks_for(&screen, |op| matches!(op, ManagerOp::ToggleFloat(true))));
    assert_eq!(session.rules.floating_applications.len(), before + 1);
    assert_eq!(session.rules.session_floating_applications.len(), 1);
    command(&mut wm, &mut session, SocketMessage::ClearSessionFloatRules);
    assert_eq!(session.rules.floating_applications.len(), before);
    assert!(session.rules.session_floating_applications.is_empty());
}

#[test]
fn workspaces_switch_on_all_monitors_at_once() {
    let mut wm = manager(2);
    let mut session = session();
    let message = SocketMessage::FocusWorkspaceNumbers(2);
    let mut screen = screen(vec![], None);
    wm.process_command(&message, &mut session, &seen(), &mut screen).unwrap();
    assert_eq!(wm.monitors()[1].focused_workspace_idx(), 2);
    assert_eq!(wm.monitors()[0].focused_workspace_idx(), 0);
    let stage = CommandStage::SwitchNext { workspace: 2, monitor: 2 };
    wm.resume_command(stage, &message, &mut session, &seen(), &mut screen).unwrap();
    assert!(asks_for(&screen, |op| matches!(op, ManagerOp::FocusWorkspace(2))));
}

#[test]
fn the_last_workspace_is_remembered() {
    let mut wm = manager(1);
    wm.monitors_mut()[0].focus_workspace(1).unwrap();
    let mut session = session();
    let message = SocketMessage::FocusLastWorkspace;
    let mut screen = screen(vec![], None);
    wm.process_command(&message, &mut session, &seen(), &mut screen).unwrap();
    assert!(asks_for(&screen, |op| matches!(op, ManagerOp::FocusWorkspace(0))));
    let stage = CommandStage::NoteLastWorkspace(1);
    wm.resume_command(stage, &message, &mut session, &seen(), &mut screen).unwrap();
    assert_eq!(wm.monitors()[0].last_focused_workspace, Some(1));
}

#[test]
fn commands_about_nothing_fail() {
    let mut wm = WindowManager::new();
    let mut session = session();
    let mut screen = screen(vec![], None);
    let message = SocketMessage::CycleFocusWorkspace(CycleDirection::Next);
    assert_eq!(
        wm.process_command(&message, &mut session, &seen(), &mut screen),
        Err(Error::NoMonitor)
    );
    let message = SocketMessage::Close;
    assert_eq!(
        wm.process_command(&message, &mut session, &seen(), &mut screen),
        Err(Error::WindowSystem)
    );
    let mut wm = manager(1);
    let message = SocketMessage::ForceFocus;
    assert_eq!(
        wm.process_command(&message, &mut session, &seen(), &mut screen),
        Err(Error::NoContainer)
    );
}
