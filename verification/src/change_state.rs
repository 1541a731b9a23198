//! Commands that change the state of the window manager directly.

use vstd::prelude::*;

use crate::behaviour::MonocleFocusBehaviour;
use crate::behaviour::MoveBehaviour;
use crate::behaviour::WindowManagementBehaviour;
use crate::container::ContainerView;
use crate::error::Error;
use crate::geometry::Rect;
use crate::manager_op::ManagerOp;
use crate::monitor::MonitorView;
use crate::plan::Call;
use crate::plan::CommandStage;
use crate::plan::StepView;
use crate::socket_message::SocketMessage;
use crate::text;
use crate::window;
use crate::window::HidingView;
use crate::window::Screen;
use crate::window::ScreenView;
use crate::window::Window;
use crate::window_manager;
use crate::window_manager::ManagerView;
use crate::window_manager::WindowManager;
use crate::workspace::LayoutOptions;
use crate::workspace::ScrollingLayoutOptions;
use crate::workspace::WindowContainerBehaviour;
use crate::workspace::Workspace;
use crate::workspace::WorkspaceView;

verus! {

/// What comes of a command: the state, what is asked of the window system, and at which
/// stage the manager is to be asked again, or why it failed.
pub struct Deed {
    pub manager: ManagerView,
    pub screen: ScreenView,
    pub result: Result<CommandStage, Error>,
}

/// A command that is carried out.
pub open spec fn carried_out(manager: ManagerView, screen: ScreenView) -> Deed {
    Deed { manager, screen, result: Ok(CommandStage::Finish { force_borders: false }) }
}

/// A command after which all borders are drawn anew.
pub open spec fn carried_out_with_borders(manager: ManagerView, screen: ScreenView) -> Deed {
    Deed { manager, screen, result: Ok(CommandStage::Finish { force_borders: true }) }
}

/// A command that goes on at a stage.
pub open spec fn underway(manager: ManagerView, screen: ScreenView, stage: CommandStage) -> Deed {
    Deed { manager, screen, result: Ok(stage) }
}

/// A command that failed.
pub open spec fn refused(manager: ManagerView, screen: ScreenView, error: Error) -> Deed {
    Deed { manager, screen, result: Err(error) }
}

/// The end of a command after which nothing is special.
pub(crate) fn finished() -> (r: Result<CommandStage, Error>)
    ensures
        r == Ok::<CommandStage, Error>(CommandStage::Finish { force_borders: false }),
{
    Ok(CommandStage::Finish { force_borders: false })
}

impl WindowContainerBehaviour {
    /// The other one.
    pub open spec fn toggled(self) -> WindowContainerBehaviour {
        match self {
            WindowContainerBehaviour::Create => WindowContainerBehaviour::Append,
            WindowContainerBehaviour::Append => WindowContainerBehaviour::Create,
        }
    }

    pub fn toggle(self) -> (r: WindowContainerBehaviour)
        ensures
            r == self.toggled(),
    {
        match self {
            WindowContainerBehaviour::Create => WindowContainerBehaviour::Append,
            WindowContainerBehaviour::Append => WindowContainerBehaviour::Create,
        }
    }
}

impl MoveBehaviour {
    /// The other one of swapping and inserting.
    pub open spec fn toggled(self) -> MoveBehaviour {
        match self {
            MoveBehaviour::Swap => MoveBehaviour::Insert,
            MoveBehaviour::Insert => MoveBehaviour::Swap,
            MoveBehaviour::NoOp => MoveBehaviour::NoOp,
        }
    }

    pub fn toggle(self) -> (r: MoveBehaviour)
        ensures
            r == self.toggled(),
    {
        match self {
            MoveBehaviour::Swap => MoveBehaviour::Insert,
            MoveBehaviour::Insert => MoveBehaviour::Swap,
            MoveBehaviour::NoOp => MoveBehaviour::NoOp,
        }
    }
}

impl MonocleFocusBehaviour {
    /// The other one.
    pub open spec fn toggled(self) -> MonocleFocusBehaviour {
        match self {
            MonocleFocusBehaviour::Cycle => MonocleFocusBehaviour::NoOp,
            MonocleFocusBehaviour::NoOp => MonocleFocusBehaviour::Cycle,
        }
    }

    pub fn toggle(self) -> (r: MonocleFocusBehaviour)
        ensures
            r == self.toggled(),
    {
        match self {
            MonocleFocusBehaviour::Cycle => MonocleFocusBehaviour::NoOp,
            MonocleFocusBehaviour::NoOp => MonocleFocusBehaviour::Cycle,
        }
    }
}

/// Toggling a behaviour twice leaves it as it was.
pub proof fn behaviours_toggle_back(
    container: WindowContainerBehaviour,
    move_behaviour: MoveBehaviour,
    monocle: MonocleFocusBehaviour,
)
    ensures
        container.toggled().toggled() == container,
        move_behaviour.toggled().toggled() == move_behaviour,
        monocle.toggled().toggled() == monocle,
{
}

impl ManagerView {
    /// The manager after a command that changes one of its own settings.
    #[verifier::opaque]
    pub open spec fn set_by(self, message: SocketMessage) -> Option<ManagerView> {
        match message {
            SocketMessage::MouseFollowsFocus(enable) => Some(
                ManagerView { mouse_follows_focus: enable, ..self },
            ),
            SocketMessage::ToggleMouseFollowsFocus => Some(
                ManagerView { mouse_follows_focus: !self.mouse_follows_focus, ..self },
            ),
            SocketMessage::ResizeDelta(delta) => Some(ManagerView { resize_delta: delta, ..self }),
            SocketMessage::ToggleWindowContainerBehaviour => Some(
                ManagerView {
                    window_management_behaviour: WindowManagementBehaviour {
                        current_behaviour:
                            self.window_management_behaviour.current_behaviour.toggled(),
                        ..self.window_management_behaviour
                    },
                    ..self
                },
            ),
            SocketMessage::ToggleFloatOverride => Some(
                ManagerView {
                    window_management_behaviour: WindowManagementBehaviour {
                        float_override: !self.window_management_behaviour.float_override,
                        ..self.window_management_behaviour
                    },
                    ..self
                },
            ),
            SocketMessage::ToggleCrossMonitorMoveBehaviour => Some(
                ManagerView {
                    cross_monitor_move_behaviour: self.cross_monitor_move_behaviour.toggled(),
                    ..self
                },
            ),
            SocketMessage::CrossMonitorMoveBehaviour(behaviour) => Some(
                ManagerView { cross_monitor_move_behaviour: behaviour, ..self },
            ),
            SocketMessage::ToggleMonocleFocusBehaviour => Some(
                ManagerView {
                    monocle_focus_behaviour: self.monocle_focus_behaviour.toggled(),
                    ..self
                },
            ),
            SocketMessage::MonocleFocusBehaviour(behaviour) => Some(
                ManagerView { monocle_focus_behaviour: behaviour, ..self },
            ),
            SocketMessage::UnmanagedWindowOperationBehaviour(behaviour) => Some(
                ManagerView { unmanaged_window_operation_behaviour: behaviour, ..self },
            ),
            _ => None,
        }
    }

    /// The manager with another workspace at a place.
    pub open spec fn with_workspace_at(self, m: int, w: int, workspace: WorkspaceView) -> ManagerView {
        self.with_monitor(m, self.monitors.elements[m].with_workspace(w, workspace))
    }

    /// Whether there is a workspace at a place.
    pub open spec fn has_place(self, m: int, w: int) -> bool {
        0 <= m < self.monitors.elements.len() && 0 <= w
            < self.monitors.elements[m].workspaces.elements.len()
    }

    /// The workspace at a place.
    pub open spec fn workspace_at(self, m: int, w: int) -> WorkspaceView {
        self.monitors.elements[m].workspaces.elements[w]
    }
}

/// Lay one workspace out.
pub open spec fn retile_op(monitor: usize, workspace: usize, keep_resizes: bool) -> ManagerOp {
    ManagerOp::RetileWorkspace { monitor, workspace, keep_resizes }
}

/// Lock a container or unlock it, where there is one.
#[verifier::opaque]
pub open spec fn locking(
    manager: ManagerView,
    screen: ScreenView,
    m: usize,
    w: usize,
    c: usize,
    locked: bool,
) -> Deed {
    if m >= manager.monitors.elements.len() {
        refused(manager, screen, Error::NoMonitorAt(m))
    } else if !manager.has_place(m as int, w as int) {
        refused(manager, screen, Error::NoWorkspaceAt(w))
    } else {
        let workspace = manager.workspace_at(m as int, w as int);
        carried_out(
            if c < workspace.containers.elements.len() {
                manager.with_workspace_at(
                    m as int,
                    w as int,
                    WorkspaceView {
                        containers: workspace.containers.updated(
                            c as int,
                            ContainerView {
                                locked,
                                ..workspace.containers.elements[c as int]
                            },
                        ),
                        ..workspace
                    },
                )
            } else {
                manager
            },
            screen,
        )
    }
}

/// Move the work area of a workspace, where there is one.
#[verifier::opaque]
pub open spec fn offset_workspace(
    manager: ManagerView,
    screen: ScreenView,
    m: usize,
    w: usize,
    rect: Rect,
) -> Deed {
    if manager.has_place(m as int, w as int) {
        carried_out(
            manager.with_workspace_at(
                m as int,
                w as int,
                WorkspaceView {
                    work_area_offset: Some(rect),
                    ..manager.workspace_at(m as int, w as int)
                },
            ),
            screen.managing(retile_op(m, w, false)),
        )
    } else {
        carried_out(manager, screen)
    }
}

/// Move the work area of a monitor, where there is one. The other monitors are left
/// alone.
#[verifier::opaque]
pub open spec fn offset_monitor(
    manager: ManagerView,
    screen: ScreenView,
    m: usize,
    rect: Rect,
) -> Deed {
    if m < manager.monitors.elements.len() {
        let monitor = manager.monitors.elements[m as int];
        carried_out(
            manager.with_monitor(
                m as int,
                MonitorView { work_area_offset: Some(rect), ..monitor },
            ),
            screen.managing(retile_op(m, monitor.workspaces.focused, false)),
        )
    } else {
        carried_out(manager, screen)
    }
}

/// The options of a layout with another number of visible columns. Options that do not
/// scroll stay as they are.
pub open spec fn with_columns(options: Option<LayoutOptions>, columns: usize) -> LayoutOptions {
    match options {
        Some(options) => match options.scrolling {
            Some(scrolling) => LayoutOptions {
                scrolling: Some(ScrollingLayoutOptions { columns, ..scrolling }),
                ..options
            },
            None => options,
        },
        None => LayoutOptions {
            scrolling: Some(ScrollingLayoutOptions { columns, center_focused_column: None }),
            ratios: None,
        },
    }
}

/// The focused workspace after a command that changes it, and the operation that follows.
pub open spec fn changed_workspace(
    manager: ManagerView,
    workspace: WorkspaceView,
    message: SocketMessage,
) -> Option<(WorkspaceView, Option<ManagerOp>)> {
    match message {
        SocketMessage::ToggleWindowBasedWorkAreaOffset => Some(
            (
                WorkspaceView {
                    apply_window_based_work_area_offset:
                        !workspace.apply_window_based_work_area_offset,
                    ..workspace
                },
                Some(
                    retile_op(
                        manager.monitors.focused,
                        manager.monitors.elements[manager.monitors.focused as int].workspaces.focused,
                        true,
                    ),
                ),
            ),
        ),
        SocketMessage::ToggleWorkspaceWindowContainerBehaviour => Some(
            (
                WorkspaceView {
                    window_container_behaviour: Some(
                        match workspace.window_container_behaviour {
                            Some(behaviour) => behaviour.toggled(),
                            None => manager.window_management_behaviour.current_behaviour.toggled(),
                        },
                    ),
                    ..workspace
                },
                None,
            ),
        ),
        SocketMessage::ToggleWorkspaceFloatOverride => Some(
            (
                WorkspaceView {
                    float_override: Some(
                        match workspace.float_override {
                            Some(float_override) => !float_override,
                            None => !manager.window_management_behaviour.float_override,
                        },
                    ),
                    ..workspace
                },
                None,
            ),
        ),
        SocketMessage::ScrollingLayoutColumns(columns) => Some(
            (
                WorkspaceView {
                    layout_options: Some(with_columns(workspace.layout_options, columns)),
                    ..workspace
                },
                Some(
                    ManagerOp::UpdateFocusedWorkspace {
                        follow_focus: false,
                        trigger_focus: false,
                    },
                ),
            ),
        ),
        _ => None,
    }
}

/// Whether a command changes the focused workspace.
pub open spec fn changes_workspace(message: SocketMessage) -> bool {
    message is ToggleWindowBasedWorkAreaOffset
        || message is ToggleWorkspaceWindowContainerBehaviour
        || message is ToggleWorkspaceFloatOverride || message is ScrollingLayoutColumns
}

/// A command that changes the focused workspace.
#[verifier::opaque]
pub open spec fn workspace_change(
    manager: ManagerView,
    screen: ScreenView,
    message: SocketMessage,
) -> Deed {
    match manager.workspace() {
        Err(error) => refused(manager, screen, error),
        Ok(workspace) => match changed_workspace(manager, workspace, message) {
            Some((changed, Some(op))) => carried_out(
                manager.with_workspace(changed),
                screen.managing(op),
            ),
            Some((changed, None)) => carried_out(manager.with_workspace(changed), screen),
            None => carried_out(manager, screen),
        },
    }
}

/// Click in the middle of the focused window.
#[verifier::opaque]
pub open spec fn force_focus(manager: ManagerView, screen: ScreenView) -> Deed {
    match manager.workspace() {
        Err(error) => refused(manager, screen, error),
        Ok(workspace) => match workspace.containers.focused_element() {
            None => refused(manager, screen, Error::NoContainer),
            Some(container) => match container.front() {
                None => refused(manager, screen, Error::NoWindow),
                Some(window) => match screen.desktop.at(window.hwnd).rect {
                    None => refused(manager, screen, Error::WindowSystem),
                    Some(rect) => carried_out(
                        manager,
                        screen.taking(StepView::Do(Call::CenterCursorInRect(rect))).taking(
                            StepView::Do(Call::LeftClick),
                        ),
                    ),
                },
            },
        },
    }
}

impl WindowManager {
    /// Carry out a command that changes a setting of the manager itself.
    fn change_own_setting(&mut self, message: &SocketMessage) -> (r: bool)
        ensures
            match old(self)@.set_by(*message) {
                Some(manager) => r && final(self)@ == manager,
                None => !r && final(self)@ == old(self)@,
            },
    {
        proof {
            reveal(ManagerView::set_by);
        }
        match message {
            SocketMessage::MouseFollowsFocus(enable) => {
                self.mouse_follows_focus = *enable;
            },
            SocketMessage::ToggleMouseFollowsFocus => {
                self.mouse_follows_focus = !self.mouse_follows_focus;
            },
            SocketMessage::ResizeDelta(delta) => {
                self.resize_delta = *delta;
            },
            SocketMessage::ToggleWindowContainerBehaviour => {
                self.window_management_behaviour.current_behaviour =
                self.window_management_behaviour.current_behaviour.toggle();
            },
            SocketMessage::ToggleFloatOverride => {
                self.window_management_behaviour.float_override =
                !self.window_management_behaviour.float_override;
            },
            SocketMessage::ToggleCrossMonitorMoveBehaviour => {
                self.cross_monitor_move_behaviour = self.cross_monitor_move_behaviour.toggle();
            },
            SocketMessage::CrossMonitorMoveBehaviour(behaviour) => {
                self.cross_monitor_move_behaviour = *behaviour;
            },
            SocketMessage::ToggleMonocleFocusBehaviour => {
                self.monocle_focus_behaviour = self.monocle_focus_behaviour.toggle();
            },
            SocketMessage::MonocleFocusBehaviour(behaviour) => {
                self.monocle_focus_behaviour = *behaviour;
            },
            SocketMessage::UnmanagedWindowOperationBehaviour(behaviour) => {
                self.unmanaged_window_operation_behaviour = *behaviour;
            },
            _ => {
                return false;
            },
        }
        true
    }

    fn workspace_at_mut(&mut self, m: usize, w: usize) -> (r: Option<&mut Workspace>)
        ensures
            match r {
                Some(workspace) => old(self)@.has_place(m as int, w as int) && workspace@ == old(
                    self)@.workspace_at(m as int, w as int) && final(self)@ == old(
                    self)@.with_workspace_at(m as int, w as int, final(workspace)@),
                None => !old(self)@.has_place(m as int, w as int) && final(self)@ == old(self)@,
            },
    {
        proof {
            self.same_place(m as int);
        }
        match self.monitors.get_mut(m) {
            Some(monitor) => monitor.workspaces.get_mut(w),
            None => None,
        }
    }

    /// A monitor that is put where it is changes nothing.
    proof fn same_place(&self, m: int)
        ensures
            0 <= m < self@.monitors.elements.len() ==> self@.with_monitor(
                m,
                self@.monitors.elements[m],
            ) == self@,
    {
        if 0 <= m < self@.monitors.elements.len() {
            assert(self@.monitors.elements.update(m, self@.monitors.elements[m])
                =~= self@.monitors.elements);
        }
    }

    fn lock_container(&mut self, m: usize, w: usize, c: usize, locked: bool, screen: &Screen) -> (r:
        Result<CommandStage, Error>)
        ensures
            (Deed { manager: final(self)@, screen: screen@, result: r }) == locking(
                old(self)@,
                screen@,
                m,
                w,
                c,
                locked,
            ),
    {
        proof {
            reveal(locking);
        }
        if m >= self.monitors.elements.len() {
            return Err(Error::NoMonitorAt(m));
        }
        proof {
            self.same_place(m as int);
            if self@.has_place(m as int, w as int) {
                let monitor = self@.monitors.elements[m as int];
                assert(monitor.workspaces.elements.update(
                    w as int,
                    monitor.workspaces.elements[w as int],
                ) =~= monitor.workspaces.elements);
            }
        }
        match self.workspace_at_mut(m, w) {
            Some(workspace) => match workspace.containers.get_mut(c) {
                Some(container) => {
                    container.locked = locked;
                },
                None => {},
            },
            None => {
                return Err(Error::NoWorkspaceAt(w));
            },
        }
        finished()
    }

    fn set_workspace_offset(&mut self, m: usize, w: usize, rect: Rect, screen: &mut Screen) -> (r:
        Result<CommandStage, Error>)
        ensures
            (Deed { manager: final(self)@, screen: final(screen)@, result: r })
                == offset_workspace(old(self)@, old(screen)@, m, w, rect),
    {
        proof {
            reveal(offset_workspace);
        }
        match self.workspace_at_mut(m, w) {
            Some(workspace) => {
                workspace.work_area_offset = Some(rect);
                screen.manage(
                    ManagerOp::RetileWorkspace { monitor: m, workspace: w, keep_resizes: false },
                );
            },
            None => {},
        }
        finished()
    }

    fn set_monitor_offset(&mut self, m: usize, rect: Rect, screen: &mut Screen) -> (r: Result<
        CommandStage,
        Error,
    >)
        ensures
            (Deed { manager: final(self)@, screen: final(screen)@, result: r }) == offset_monitor(
                old(self)@,
                old(screen)@,
                m,
                rect,
            ),
    {
        proof {
            reveal(offset_monitor);
        }
        match self.monitors.get_mut(m) {
            Some(monitor) => {
                monitor.work_area_offset = Some(rect);
                let workspace: usize = monitor.focused_workspace_idx();
                screen.manage(
                    ManagerOp::RetileWorkspace { monitor: m, workspace, keep_resizes: false },
                );
            },
            None => {},
        }
        finished()
    }

    fn change_workspace(&mut self, message: &SocketMessage, screen: &mut Screen) -> (r: Result<
        CommandStage,
        Error,
    >)
        requires
            changes_workspace(*message),
        ensures
            (Deed { manager: final(self)@, screen: final(screen)@, result: r })
                == workspace_change(old(self)@, old(screen)@, *message),
    {
        proof {
            reveal(workspace_change);
        }
        let monitor: usize = self.focused_monitor_idx();
        let behaviour = self.window_management_behaviour;
        let focused: usize = match self.focused_workspace_idx() {
            Ok(idx) => idx,
            Err(error) => {
                return Err(error);
            },
        };
        let workspace = match self.focused_workspace_mut() {
            Ok(workspace) => workspace,
            Err(error) => {
                return Err(error);
            },
        };
        match message {
            SocketMessage::ToggleWindowBasedWorkAreaOffset => {
                workspace.apply_window_based_work_area_offset =
                !workspace.apply_window_based_work_area_offset;
                screen.manage(
                    ManagerOp::RetileWorkspace { monitor, workspace: focused, keep_resizes: true },
                );
            },
            SocketMessage::ToggleWorkspaceWindowContainerBehaviour => {
                let current = match workspace.window_container_behaviour {
                    Some(own) => own,
                    None => behaviour.current_behaviour,
                };
                workspace.window_container_behaviour = Some(current.toggle());
            },
            SocketMessage::ToggleWorkspaceFloatOverride => {
                let current = match workspace.float_override {
                    Some(own) => own,
                    None => behaviour.float_override,
                };
                workspace.float_override = Some(!current);
            },
            SocketMessage::ScrollingLayoutColumns(columns) => {
                let options = match workspace.layout_options {
                    Some(options) => match options.scrolling {
                        Some(scrolling) => LayoutOptions {
                            scrolling: Some(
                                ScrollingLayoutOptions {
                                    columns: *columns,
                                    center_focused_column: scrolling.center_focused_column,
                                },
                            ),
                            ratios: options.ratios,
                        },
                        None => options,
                    },
                    None => LayoutOptions {
                        scrolling: Some(
                            ScrollingLayoutOptions {
                                columns: *columns,
                                center_focused_column: None,
                            },
                        ),
                        ratios: None,
                    },
                };
                workspace.layout_options = Some(options);
                screen.update(false, false);
            },
            _ => {},
        }
        finished()
    }

    fn forget_moved_windows(&mut self)
        ensures
            final(self)@ == (ManagerView {
                already_moved_window_handles: Set::empty(),
                ..old(self)@
            }),
    {
        broadcast use vstd::std_specs::hash::group_hash_axioms;

        self.already_moved_window_handles.clear();
    }

    fn click_focused_window(&self, screen: &mut Screen) -> (r: Result<CommandStage, Error>)
        ensures
            (Deed { manager: self@, screen: final(screen)@, result: r }) == force_focus(
                self@,
                old(screen)@,
            ),
    {
        proof {
            reveal(force_focus);
        }
        let workspace = match self.focused_workspace() {
            Ok(workspace) => workspace,
            Err(error) => {
                return Err(error);
            },
        };
        let container = match workspace.focused_container() {
            Some(container) => container,
            None => {
                return Err(Error::NoContainer);
            },
        };
        let window = match container.focused_window() {
            Some(window) => window,
            None => {
                return Err(Error::NoWindow);
            },
        };
        let rect = match screen.desktop.rect(window.hwnd) {
            Some(rect) => rect,
            None => {
                return Err(Error::WindowSystem);
            },
        };
        screen.plan.call(Call::CenterCursorInRect(rect));
        screen.plan.call(Call::LeftClick);
        finished()
    }
}

/// Minimize the window in the foreground, unless it is a bar.
pub open spec fn minimize_foreground(manager: ManagerView, screen: ScreenView) -> Deed {
    match screen.desktop.foreground {
        Some(foreground) => {
            let exe = match screen.desktop.at(foreground).exe {
                Some(exe) => exe@,
                None => Seq::empty(),
            };
            carried_out(
                manager,
                if text::occurs_in("komorebi-bar"@, exe) {
                    screen
                } else {
                    screen.taking(StepView::Do(Call::MinimizeWindow(foreground)))
                },
            )
        },
        None => refused(manager, screen, Error::WindowSystem),
    }
}

/// What comes of a command that leaves the state as it is and only asks something of the
/// window system; nothing for another one.
#[verifier::opaque]
pub open spec fn called_by(
    manager: ManagerView,
    screen: ScreenView,
    message: SocketMessage,
) -> Option<Deed> {
    match message {
        SocketMessage::WindowHidingBehaviour(behaviour) => Some(
            carried_out(
                manager,
                ScreenView { hiding: HidingView { behaviour, ..screen.hiding }, ..screen },
            ),
        ),
        SocketMessage::Retile => Some(
            carried_out_with_borders(
                manager,
                screen.taking(StepView::Do(Call::DestroyAllBorders)).managing(
                    ManagerOp::RetileAll(false),
                ),
            ),
        ),
        SocketMessage::RetileWithResizeDimensions => Some(
            carried_out_with_borders(
                manager,
                screen.taking(StepView::Do(Call::DestroyAllBorders)).managing(
                    ManagerOp::RetileAll(true),
                ),
            ),
        ),
        SocketMessage::ReloadConfiguration => Some(
            carried_out_with_borders(manager, screen.managing(ManagerOp::ReloadConfiguration)),
        ),
        SocketMessage::ReloadStaticConfiguration(path) => Some(
            carried_out_with_borders(
                manager,
                screen.managing(ManagerOp::ReloadStaticConfiguration(path)),
            ),
        ),
        SocketMessage::Close => Some(
            match screen.desktop.foreground {
                Some(foreground) => carried_out(
                    manager,
                    screen.taking(StepView::Do(Call::CloseWindow(foreground))),
                ),
                None => refused(manager, screen, Error::WindowSystem),
            },
        ),
        SocketMessage::Minimize => Some(minimize_foreground(manager, screen)),
        SocketMessage::ForceFocus => Some(force_focus(manager, screen)),
        SocketMessage::InvisibleBorders(_)
        | SocketMessage::AltFocusHack(_)
        | SocketMessage::IdentifyBorderOverflowApplication(..) => Some(
            carried_out(manager, screen),
        ),
        _ => None,
    }
}

/// What comes of a command that changes the state directly; nothing for another one.
#[verifier::opaque]
pub open spec fn changed_by(
    manager: ManagerView,
    screen: ScreenView,
    message: SocketMessage,
) -> Option<Deed> {
    match message {
        SocketMessage::LockMonitorWorkspaceContainer(m, w, c) => Some(
            locking(manager, screen, m, w, c, true),
        ),
        SocketMessage::UnlockMonitorWorkspaceContainer(m, w, c) => Some(
            locking(manager, screen, m, w, c, false),
        ),
        SocketMessage::WorkspaceWorkAreaOffset(m, w, rect) => Some(
            offset_workspace(manager, screen, m, w, rect),
        ),
        SocketMessage::MonitorWorkAreaOffset(m, rect) => Some(
            offset_monitor(manager, screen, m, rect),
        ),
        SocketMessage::WorkAreaOffset(rect) => Some(
            carried_out(
                ManagerView { work_area_offset: Some(rect), ..manager },
                screen.managing(ManagerOp::RetileAll(false)),
            ),
        ),
        SocketMessage::TogglePause => Some(
            carried_out(
                ManagerView { is_paused: !manager.is_paused, ..manager },
                screen.managing(ManagerOp::RetileAll(true)),
            ),
        ),
        SocketMessage::EnforceWorkspaceRules => Some(
            carried_out(
                ManagerView { already_moved_window_handles: Set::empty(), ..manager },
                screen.managing(ManagerOp::EnforceWorkspaceRules),
            ),
        ),
        _ => if changes_workspace(message) {
            Some(workspace_change(manager, screen, message))
        } else {
            match manager.set_by(message) {
                Some(changed) => Some(carried_out(changed, screen)),
                None => None,
            }
        },
    }
}

impl WindowManager {
    /// Carry out a command that only asks something of the window system.
    pub(crate) fn make_calls(&self, message: &SocketMessage, screen: &mut Screen) -> (r: Option<
        Result<CommandStage, Error>,
    >)
        ensures
            match called_by(self@, old(screen)@, *message) {
                Some(deed) => r is Some && (Deed {
                    manager: self@,
                    screen: final(screen)@,
                    result: r->0,
                }) == deed,
                None => r is None && final(screen)@ == old(screen)@,
            },
    {
        proof {
            reveal(called_by);
        }
        match message {
            SocketMessage::WindowHidingBehaviour(behaviour) => {
                screen.hiding.behaviour = *behaviour;
                Some(finished())
            },
            SocketMessage::Retile => {
                screen.plan.call(Call::DestroyAllBorders);
                screen.manage(ManagerOp::RetileAll(false));
                Some(Ok(CommandStage::Finish { force_borders: true }))
            },
            SocketMessage::RetileWithResizeDimensions => {
                screen.plan.call(Call::DestroyAllBorders);
                screen.manage(ManagerOp::RetileAll(true));
                Some(Ok(CommandStage::Finish { force_borders: true }))
            },
            SocketMessage::ReloadConfiguration => {
                screen.manage(ManagerOp::ReloadConfiguration);
                Some(Ok(CommandStage::Finish { force_borders: true }))
            },
            SocketMessage::ReloadStaticConfiguration(path) => {
                screen.manage(ManagerOp::ReloadStaticConfiguration(path.clone()));
                Some(Ok(CommandStage::Finish { force_borders: true }))
            },
            SocketMessage::Close => match screen.desktop.foreground {
                Some(foreground) => {
                    Window { hwnd: foreground }.close(&mut screen.plan);
                    Some(finished())
                },
                None => Some(Err(Error::WindowSystem)),
            },
            SocketMessage::Minimize => match screen.desktop.foreground {
                Some(foreground) => {
                    Window { hwnd: foreground }.minimize(&screen.desktop, &mut screen.plan);
                    Some(finished())
                },
                None => Some(Err(Error::WindowSystem)),
            },
            SocketMessage::ForceFocus => Some(self.click_focused_window(screen)),
            SocketMessage::InvisibleBorders(_)
            | SocketMessage::AltFocusHack(_)
            | SocketMessage::IdentifyBorderOverflowApplication(..) => Some(finished()),
            _ => None,
        }
    }

    /// Carry out a command that changes the state directly.
    pub(crate) fn change_state(&mut self, message: &SocketMessage, screen: &mut Screen) -> (r: Option<
        Result<CommandStage, Error>,
    >)
        ensures
            match changed_by(old(self)@, old(screen)@, *message) {
                Some(deed) => r is Some && (Deed {
                    manager: final(self)@,
                    screen: final(screen)@,
                    result: r->0,
                }) == deed,
                None => r is None && final(self)@ == old(self)@ && final(screen)@ == old(screen)@,
            },
    {
        proof {
            reveal(changed_by);
        }
        match message {
            SocketMessage::LockMonitorWorkspaceContainer(m, w, c) => Some(
                self.lock_container(*m, *w, *c, true, screen),
            ),
            SocketMessage::UnlockMonitorWorkspaceContainer(m, w, c) => Some(
                self.lock_container(*m, *w, *c, false, screen),
            ),
            SocketMessage::WorkspaceWorkAreaOffset(m, w, rect) => Some(
                self.set_workspace_offset(*m, *w, *rect, screen),
            ),
            SocketMessage::MonitorWorkAreaOffset(m, rect) => Some(
                self.set_monitor_offset(*m, *rect, screen),
            ),
            SocketMessage::WorkAreaOffset(rect) => {
                self.work_area_offset = Some(*rect);
                screen.manage(ManagerOp::RetileAll(false));
                Some(finished())
            },
            SocketMessage::TogglePause => {
                self.is_paused = !self.is_paused;
                screen.manage(ManagerOp::RetileAll(true));
                Some(finished())
            },
            SocketMessage::EnforceWorkspaceRules => {
                self.forget_moved_windows();
                screen.manage(ManagerOp::EnforceWorkspaceRules);
                Some(finished())
            },
            SocketMessage::ToggleWindowBasedWorkAreaOffset
            | SocketMessage::ToggleWorkspaceWindowContainerBehaviour
            | SocketMessage::ToggleWorkspaceFloatOverride
            | SocketMessage::ScrollingLayoutColumns(_) => Some(
                self.change_workspace(message, screen),
            ),
            _ => if self.change_own_setting(message) {
                Some(finished())
            } else {
                None
            },
        }
    }
}

} // verus!
