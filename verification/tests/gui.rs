use komorebi::behaviour::FocusFollowsMouseImplementation;
use komorebi::desktop::WindowFacts;
use komorebi::eligibility::RuleDebug;
use komorebi::geometry::CustomLayout;
use komorebi::geometry::DefaultLayout;
use komorebi::geometry::Layout;
use komorebi::geometry::Rect;
use komorebi::gui::action::Action;
use komorebi::gui::action::AnimationAction;
use komorebi::gui::action::BorderAction;
use komorebi::gui::action::BorderKind;
use komorebi::gui::action::Button;
use komorebi::gui::action::Effect;
use komorebi::gui::action::FocusAction;
use komorebi::gui::action::Side;
use komorebi::gui::action::StackbarAction;
use komorebi::gui::action::TransparencyAction;
use komorebi::gui::action::WorkspaceAction;
use komorebi::gui::config::colour32;
use komorebi::gui::config::subscriber_name;
use komorebi::gui::config::subscriber_name_with;
use komorebi::gui::config::Colour;
use komorebi::gui::config::WorkspaceConfig;
use komorebi::gui::debugging::chosen_label;
use komorebi::gui::debugging::count_windows;
use komorebi::gui::debugging::list_windows;
use komorebi::gui::state::GuiEvent;
use komorebi::gui::state::KomorebiGui;
use komorebi::gui::state::State;
use komorebi::monitor;
use komorebi::ring::Ring;
use komorebi::settings::Rgb;
use komorebi::settings::Settings;
use komorebi::socket_message::BorderStyle;
use komorebi::socket_message::SocketMessage;
use komorebi::socket_message::StackbarMode;
use komorebi::socket_message::WindowKind;
use komorebi::workspace::Workspace;

fn state() -> State {
    let mut m = monitor::new(
        0,
        Rect { left: 0, top: 0, right: 1920, bottom: 1080 },
        Rect::default(),
        "TestMonitor".to_string(),
        "TestDevice".to_string(),
        "TestDeviceID".to_string(),
        None,
    );
    m.workspaces_mut()[0].name = Some("mail".to_string());
    m.workspaces_mut()[0].container_padding = Some(5);
    m.workspaces_mut().push(Workspace::default());
    State {
        monitors: Ring { elements: vec![m], focused: 0 },
        mouse_follows_focus: true,
        focus_follows_mouse: None,
        resize_delta: 50,
    }
}

fn gui() -> KomorebiGui {
    KomorebiGui::new(Some(Settings::default()), Some(state()), vec![1])
}

fn facts(hwnd: isize, title: &str, exe: &str) -> WindowFacts {
    WindowFacts {
        hwnd,
        is_window: true,
        process_id: 1,
        is_visible: true,
        is_shown: true,
        is_maximized: false,
        is_minimized: false,
        is_cloaked: Some(false),
        is_responding: true,
        rect: None,
        title: Some(title.to_string()),
        exe: Some(exe.to_string()),
        class: Some("class".to_string()),
        path: None,
        style: None,
        ex_style: None,
        alpha: None,
        monitor: 0,
        monitor_rect: None,
        work_rect: None,
        covers_monitor_area: false,
        covers_work_area: false,
        border: None,
    }
}

#[test]
fn the_window_opens_on_what_is_known() {
    let gui = gui();
    assert_eq!(gui.monitors.len(), 1);
    assert_eq!(gui.monitors[0].workspaces[0].name, "mail");
    assert_eq!(gui.monitors[0].workspaces[0].container_padding, 5);
    assert_eq!(gui.monitors[0].workspaces[0].workspace_padding, 20);
    assert_eq!(gui.workspace_names[&0][0], "mail");
    assert!(gui.focus_config.mouse_follows_focus);
    assert_eq!(gui.resize_delta, 50);
    assert_eq!(gui.border_config.border_width, 8);
    assert_eq!(gui.animation_config.duration, 200);
    assert_eq!(gui.animation_config.fps, 60);
    assert!(gui.live_updates);

    let unknown = KomorebiGui::new(None, None, vec![]);
    assert!(unknown.monitors.is_empty());
    assert_eq!(unknown.border_config.border_style, BorderStyle::System);
    assert_eq!(unknown.stackbar_config.mode, StackbarMode::Never);
    assert_eq!(unknown.transparency_config.alpha, 0);
}

#[test]
fn unnamed_workspaces_are_called_by_a_word() {
    let gui = gui();
    assert!(!gui.monitors[0].workspaces[1].name.is_empty());
    assert_eq!(gui.monitors[0].workspaces[1].name, gui.workspace_names[&0][1]);
    let mut workspace = Workspace::default();
    workspace.layout = Layout::Custom(CustomLayout { handle: 1 });
    let config = WorkspaceConfig::with_word(&workspace, "word".to_string());
    assert_eq!(config.name, "word");
    assert_eq!(config.layout, DefaultLayout::BSP);
    assert_eq!(config.container_padding, 20);
}

#[test]
fn subscribers_have_a_word_in_their_name() {
    assert_eq!(subscriber_name_with("word"), "komorebi-gui-word");
    let name = subscriber_name();
    assert!(name.starts_with("komorebi-gui-"));
    assert!(name.len() > "komorebi-gui-".len());
}

#[test]
fn colours_are_shown_by_their_last_bytes() {
    assert_eq!(colour32(None), Colour { r: 0, g: 0, b: 0 });
    assert_eq!(
        colour32(Some(Rgb { r: 255, g: 256, b: 257 })),
        Colour { r: 255, g: 0, b: 1 }
    );
}

#[test]
fn states_are_taken_while_updates_are_live() {
    let mut gui = gui();
    let mut changed = state();
    changed.resize_delta = 70;
    assert!(gui.process_event(GuiEvent::StateUpdate(changed)));
    assert_eq!(gui.resize_delta, 70);
    gui.live_updates = false;
    assert!(!gui.process_event(GuiEvent::StateUpdate(state())));
    assert_eq!(gui.resize_delta, 70);
    assert!(!gui.process_event(GuiEvent::Connected));
    assert!(gui.subscription_connected);
    assert!(!gui.process_event(GuiEvent::Disconnected));
    assert!(!gui.subscription_connected);
}

#[test]
fn live_updates_ask_for_everything() {
    let mut gui = gui();
    assert!(gui.perform(Action::LiveUpdates(false)).is_empty());
    let effects = gui.perform(Action::LiveUpdates(true));
    assert!(matches!(
        effects[..],
        [Effect::LoadState, Effect::LoadGlobalState, Effect::ListWindows]
    ));
    let mut settings = Settings::default();
    settings.border.enabled = true;
    settings.transparency.alpha = 99;
    gui.apply_global_state(settings);
    assert!(gui.border_config.border_enabled);
    assert_eq!(gui.transparency_config.alpha, 99);
    assert!(matches!(gui.perform(Action::RefreshWindows)[..], [Effect::ListWindows]));
}

#[test]
fn sliders_send_once_they_are_let_go() {
    let mut gui = gui();
    assert!(gui.perform(Action::Border(BorderAction::Width(3, false))).is_empty());
    assert_eq!(gui.border_config.border_width, 3);
    assert!(matches!(
        gui.perform(Action::Border(BorderAction::Width(4, true)))[..],
        [Effect::Send(SocketMessage::BorderWidth(4))]
    ));
    assert!(matches!(
        gui.perform(Action::ResizeDelta(9, true))[..],
        [Effect::Send(SocketMessage::ResizeDelta(9))]
    ));
    assert!(matches!(
        gui.perform(Action::Animation(AnimationAction::Fps(30, true)))[..],
        [Effect::Send(SocketMessage::AnimationFps(30))]
    ));
    assert!(matches!(
        gui.perform(Action::Transparency(TransparencyAction::Alpha(10, true)))[..],
        [Effect::Send(SocketMessage::TransparencyAlpha(10))]
    ));
    assert!(matches!(
        gui.perform(Action::Stackbar(StackbarAction::Height(20, true)))[..],
        [Effect::Send(SocketMessage::StackbarHeight(20)), Effect::Send(SocketMessage::Retile)]
    ));
    assert!(matches!(
        gui.perform(Action::InvisibleBorder(Side::Top, 7, true))[..],
        [Effect::Send(SocketMessage::InvisibleBorders(Rect { left: 0, top: 7, right: 0, bottom: 0 }))]
    ));
    assert!(matches!(
        gui.perform(Action::WorkAreaOffset(0, Side::Left, 8, true))[..],
        [Effect::Send(SocketMessage::MonitorWorkAreaOffset(0, Rect { left: 8, .. }))]
    ));
    assert_eq!(gui.monitors[0].work_area_offset.left, 8);
}

#[test]
fn new_styles_wait_before_the_layout() {
    let mut gui = gui();
    assert!(matches!(
        gui.perform(Action::Border(BorderAction::Style(BorderStyle::Square)))[..],
        [
            Effect::Send(SocketMessage::BorderStyle(BorderStyle::Square)),
            Effect::Wait,
            Effect::Send(SocketMessage::Retile)
        ]
    ));
    let red = Colour { r: 255, g: 0, b: 0 };
    assert!(matches!(
        gui.perform(Action::Border(BorderAction::Colour(BorderKind::Monocle, red)))[..],
        [Effect::Send(SocketMessage::BorderColour(WindowKind::Monocle, 255, 0, 0))]
    ));
    assert_eq!(gui.border_config.border_colours.monocle, red);
}

#[test]
fn the_focus_follows_the_mouse_by_a_switch() {
    let mut gui = gui();
    assert!(matches!(
        gui.perform(Action::Focus(FocusAction::FocusFollowsMouse(true)))[..],
        [Effect::Send(SocketMessage::FocusFollowsMouse(
            FocusFollowsMouseImplementation::Komorebi,
            true
        ))]
    ));
    gui.perform(Action::Focus(FocusAction::Implementation(
        FocusFollowsMouseImplementation::Windows,
    )));
    assert!(matches!(
        gui.perform(Action::Focus(FocusAction::FocusFollowsMouse(false)))[..],
        [Effect::Send(SocketMessage::FocusFollowsMouse(
            FocusFollowsMouseImplementation::Windows,
            false
        ))]
    ));
    assert_eq!(gui.focus_config.focus_follows_mouse, None);
    assert!(gui.perform(Action::Focus(FocusAction::FocusFollowsMouse(false))).is_empty());
}

#[test]
fn workspaces_are_focused_without_the_mouse() {
    let mut gui = gui();
    assert!(matches!(
        gui.perform(Action::Workspace(0, 1, WorkspaceAction::Focus))[..],
        [
            Effect::Send(SocketMessage::MouseFollowsFocus(false)),
            Effect::Send(SocketMessage::FocusMonitorWorkspaceNumber(0, 1)),
            Effect::Send(SocketMessage::MouseFollowsFocus(true))
        ]
    ));
}

#[test]
fn names_are_sent_when_the_text_loses_the_focus() {
    let mut gui = gui();
    let edit = WorkspaceAction::Name("chat".to_string(), false);
    assert!(gui.perform(Action::Workspace(0, 0, edit)).is_empty());
    assert_eq!(gui.workspace_names[&0][0], "chat");
    assert_eq!(gui.monitors[0].workspaces[0].name, "mail");
    let done = WorkspaceAction::Name("chat".to_string(), true);
    let effects = gui.perform(Action::Workspace(0, 0, done));
    assert!(matches!(
        &effects[..],
        [Effect::Send(SocketMessage::WorkspaceName(0, 0, name))] if name == "chat"
    ));
    assert_eq!(gui.monitors[0].workspaces[0].name, "chat");
    gui.perform(Action::Workspace(0, 0, WorkspaceAction::Layout(DefaultLayout::Grid)));
    assert_eq!(gui.monitors[0].workspaces[0].layout, DefaultLayout::Grid);
    gui.perform(Action::Workspace(0, 0, WorkspaceAction::Tiling(false)));
    assert!(!gui.monitors[0].workspaces[0].tile);
}

#[test]
fn buttons_send_their_message() {
    let mut gui = gui();
    assert!(matches!(
        gui.perform(Action::Press(Button::FocusLast))[..],
        [Effect::Send(SocketMessage::FocusLastWorkspace)]
    ));
    assert!(matches!(
        gui.perform(Action::SelectWindow(5))[..],
        [Effect::AskForRules(5)]
    ));
    assert_eq!(gui.debug_hwnd, 5);
    gui.show_rules(RuleDebug::default());
    assert!(gui.debug_rule.is_some());
}

#[test]
fn patterns_find_windows() {
    let mut gui = gui();
    let windows = vec![facts(1, "Editor", "editor.exe"), facts(2, "Mail", "mail.exe")];
    assert!(gui.shows_hint());
    assert!(gui.matching_windows(&windows).is_empty());
    gui.edit_pattern("^Edi".to_string());
    assert_eq!(gui.matching_windows(&windows), vec!["Editor | exe: editor.exe | cls: class"]);
    assert!(!gui.shows_hint());
    gui.edit_pattern("(".to_string());
    assert!(gui.regex_compiled.is_none());
    assert!(gui.regex_error.as_ref().unwrap().contains("unclosed group"));
    gui.edit_pattern(String::new());
    assert!(gui.regex_error.is_none());
    assert!(gui.shows_hint());
}

#[test]
fn only_usable_windows_are_listed() {
    let mut minimized = facts(2, "Mail", "mail.exe");
    minimized.is_minimized = true;
    let mut nameless = facts(3, "", "x.exe");
    nameless.title = None;
    let windows = vec![facts(1, "Editor", "editor.exe"), minimized, nameless];
    assert_eq!(list_windows(&windows), vec![1]);
    assert_eq!(count_windows(&windows), (3, 1));
    let mut gui = gui();
    gui.refresh_debug_windows(&windows);
    assert_eq!(gui.debug_windows, vec![1]);
    assert_eq!(chosen_label(&windows[0]), "Editor (editor.exe)");
    assert_eq!(chosen_label(&windows[2]), "Select a Window");
}
