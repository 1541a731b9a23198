//! The command that looks a window up by its executable and focuses it.

use vstd::prelude::*;

use crate::change_state;
use crate::change_state::Deed;
use crate::container::Container;
use crate::container::ContainerView;
use crate::desktop::Desktop;
use crate::desktop::DesktopView;
use crate::error::Error;
use crate::manager_op::ManagerOp;
use crate::monitor::Monitor;
use crate::monitor::MonitorView;
use crate::plan::CommandStage;
use crate::text;
use crate::window;
use crate::window::Screen;
use crate::window::ScreenView;
use crate::window::Window;
use crate::window_manager;
use crate::window_manager::ManagerView;
use crate::window_manager::WindowManager;
use crate::workspace::Workspace;
use crate::workspace::WorkspaceView;

verus! {

/// Where on a workspace a window is.
#[derive(Clone, Copy, Debug, PartialEq, Eq, Structural)]
pub enum WorkspaceWindowLocation {
    /// In the monocle container, at an index.
    Monocle(usize),
    Maximized,
    /// In a container, at an index.
    Container(usize, usize),
    /// Among the floating windows, at an index.
    Floating(usize),
}

/// Whether a window belongs to an executable.
pub open spec fn runs(window: Window, exe: Seq<char>, d: DesktopView) -> bool {
    d.at(window.hwnd).exe matches Some(own) && own@ == exe
}

/// The first window of an executable, from an index on.
pub open spec fn window_of_exe(windows: Seq<Window>, exe: Seq<char>, d: DesktopView, from: int) -> Option<
    int,
>
    decreases windows.len() - from,
{
    if from < 0 || from >= windows.len() {
        None
    } else if runs(windows[from], exe, d) {
        Some(from)
    } else {
        window_of_exe(windows, exe, d, from + 1)
    }
}

/// The first container, from an index on, with a window of an executable, and that window.
pub open spec fn container_of_exe(
    containers: Seq<ContainerView>,
    exe: Seq<char>,
    d: DesktopView,
    from: int,
) -> Option<(int, int)>
    decreases containers.len() - from,
{
    if from < 0 || from >= containers.len() {
        None
    } else {
        match window_of_exe(containers[from].windows.elements, exe, d, 0) {
            Some(at) => Some((from, at)),
            None => container_of_exe(containers, exe, d, from + 1),
        }
    }
}

impl WorkspaceView {
    /// The first window of an executable in the monocle container.
    pub open spec fn monocle_of_exe(self, exe: Seq<char>, d: DesktopView) -> Option<int> {
        match self.monocle_container {
            Some(monocle) => window_of_exe(monocle.windows.elements, exe, d, 0),
            None => None,
        }
    }

    /// Where the window of an executable is: in a container, else maximized, else in the
    /// monocle container, else floating.
    pub open spec fn location_of(self, exe: Seq<char>, d: DesktopView) -> Option<
        WorkspaceWindowLocation,
    > {
        match container_of_exe(self.containers.elements, exe, d, 0) {
            Some((container, at)) => Some(
                WorkspaceWindowLocation::Container(container as usize, at as usize),
            ),
            None => if self.maximized_window matches Some(window) && runs(window, exe, d) {
                Some(WorkspaceWindowLocation::Maximized)
            } else {
                match self.monocle_of_exe(exe, d) {
                    Some(at) => Some(WorkspaceWindowLocation::Monocle(at as usize)),
                    None => match window_of_exe(self.floating_windows.elements, exe, d, 0) {
                        Some(at) => Some(WorkspaceWindowLocation::Floating(at as usize)),
                        None => None,
                    },
                }
            },
        }
    }
}

/// The first workspace, from an index on, with a window of an executable, and where it is.
pub open spec fn workspace_of_exe(
    workspaces: Seq<WorkspaceView>,
    exe: Seq<char>,
    d: DesktopView,
    from: int,
) -> Option<(int, WorkspaceWindowLocation)>
    decreases workspaces.len() - from,
{
    if from < 0 || from >= workspaces.len() {
        None
    } else {
        match workspaces[from].location_of(exe, d) {
            Some(location) => Some((from, location)),
            None => workspace_of_exe(workspaces, exe, d, from + 1),
        }
    }
}

/// The first monitor, from an index on, with a window of an executable, its workspace, and
/// where it is.
pub open spec fn monitor_of_exe(
    monitors: Seq<MonitorView>,
    exe: Seq<char>,
    d: DesktopView,
    from: int,
) -> Option<(int, int, WorkspaceWindowLocation)>
    decreases monitors.len() - from,
{
    if from < 0 || from >= monitors.len() {
        None
    } else {
        match workspace_of_exe(monitors[from].workspaces.elements, exe, d, 0) {
            Some((workspace, location)) => Some((from, workspace, location)),
            None => monitor_of_exe(monitors, exe, d, from + 1),
        }
    }
}

/// Focus the window at a place of the focused workspace.
#[verifier::opaque]
pub open spec fn focus_location(
    manager: ManagerView,
    screen: ScreenView,
    location: WorkspaceWindowLocation,
    stage: CommandStage,
) -> Deed {
    match location {
        WorkspaceWindowLocation::Monocle(idx) => change_state::underway(
            manager,
            screen.managing(ManagerOp::FocusContainerWindow(idx)),
            stage,
        ),
        WorkspaceWindowLocation::Maximized => match manager.workspace() {
            Err(error) => change_state::refused(manager, screen, error),
            Ok(workspace) => change_state::underway(
                manager,
                match workspace.maximized_window {
                    Some(window) => screen.followed_by(
                        window::focus_steps(
                            window.hwnd,
                            manager.mouse_follows_focus,
                            screen.desktop,
                        ),
                    ),
                    None => screen,
                },
                stage,
            ),
        },
        WorkspaceWindowLocation::Container(container, idx) => match manager.workspace() {
            Err(error) => change_state::refused(manager, screen, error),
            Ok(workspace) => change_state::underway(
                manager.with_workspace(
                    WorkspaceView {
                        containers: workspace.containers.focusing(container as int),
                        ..workspace
                    },
                ),
                screen.managing(ManagerOp::FocusContainerWindow(idx)),
                stage,
            ),
        },
        WorkspaceWindowLocation::Floating(idx) => match manager.workspace() {
            Err(error) => change_state::refused(manager, screen, error),
            Ok(workspace) => if idx < workspace.floating_windows.elements.len() {
                change_state::underway(
                    manager.with_workspace(workspace.focusing_float(idx as int)),
                    screen.followed_by(
                        window::focus_steps(
                            workspace.floating_windows.elements[idx as int].hwnd,
                            manager.mouse_follows_focus,
                            screen.desktop,
                        ),
                    ),
                    stage,
                )
            } else {
                change_state::underway(manager, screen, stage)
            },
        },
    }
}

/// The manager with the focus on a monitor and on one of its workspaces.
pub open spec fn gone_to(manager: ManagerView, m: int, w: int) -> ManagerView {
    let monitor = manager.monitors.elements[m];
    (if monitor.workspaces.focused != w {
        manager.with_monitor(m, monitor.focusing(w as usize))
    } else {
        manager
    }).focusing_monitor(m)
}

/// Focus the first window of an executable. Its workspace is shown only afterwards, so
/// that no other window of it gets the focus first.
#[verifier::opaque]
pub open spec fn eagerly_focused(manager: ManagerView, screen: ScreenView, exe: Seq<char>) -> Deed {
    match monitor_of_exe(manager.monitors.elements, exe, screen.desktop, 0) {
        None => change_state::carried_out(manager, screen),
        Some((m, w, location)) => {
            focus_location(
                gone_to(manager, m, w),
                screen,
                location,
                if manager.monitors.elements[m].workspaces.focused != w {
                    CommandStage::LoadFocused
                } else {
                    CommandStage::Finish { force_borders: false }
                },
            )
        },
    }
}

/// Show the focused workspace, where there is a monitor.
#[verifier::opaque]
pub open spec fn load_focused(manager: ManagerView, screen: ScreenView) -> Deed {
    match manager.monitors.focused_element() {
        Some(monitor) => change_state::carried_out(
            manager.with_current_monitor(monitor.switched(screen.desktop.now_ms)),
            screen.followed_by(monitor.load_steps(manager.mouse_follows_focus, true)),
        ),
        None => change_state::carried_out(manager, screen),
    }
}

fn is_of_exe(window: Window, exe: &str, desktop: &Desktop) -> (r: bool)
    ensures
        r == runs(window, exe@, desktop@),
{
    match window.exe(desktop) {
        Ok(own) => text::equal(own.as_str(), exe),
        Err(_) => false,
    }
}

fn find_window(windows: &Vec<Window>, exe: &str, desktop: &Desktop) -> (r: Option<usize>)
    ensures
        match r {
            Some(idx) => window_of_exe(windows@, exe@, desktop@, 0) == Some(idx as int),
            None => window_of_exe(windows@, exe@, desktop@, 0) is None,
        },
{
    let mut i: usize = 0;
    while i < windows.len()
        invariant
            i <= windows@.len(),
            window_of_exe(windows@, exe@, desktop@, 0) == window_of_exe(
                windows@,
                exe@,
                desktop@,
                i as int,
            ),
        decreases windows@.len() - i,
    {
        if is_of_exe(windows[i], exe, desktop) {
            return Some(i);
        }
        i = i + 1;
    }
    None
}

fn find_container(workspace: &Workspace, exe: &str, desktop: &Desktop) -> (r: Option<(usize, usize)>)
    ensures
        match r {
            Some((container, idx)) => container_of_exe(
                workspace@.containers.elements,
                exe@,
                desktop@,
                0,
            ) == Some((container as int, idx as int)),
            None => container_of_exe(workspace@.containers.elements, exe@, desktop@, 0) is None,
        },
{
    let mut i: usize = 0;
    while i < workspace.containers.elements.len()
        invariant
            i <= workspace.containers.elements@.len(),
            container_of_exe(workspace@.containers.elements, exe@, desktop@, 0)
                == container_of_exe(workspace@.containers.elements, exe@, desktop@, i as int),
        decreases workspace.containers.elements@.len() - i,
    {
        let container = &workspace.containers.elements[i];
        assert(workspace@.containers.elements[i as int] == container@);
        assert(container@.windows.elements =~= container.windows.elements@);
        match find_window(&container.windows.elements, exe, desktop) {
            Some(idx) => {
                return Some((i, idx));
            },
            None => {},
        }
        i = i + 1;
    }
    None
}

impl Workspace {
    /// Where the window of an executable is.
    pub fn location_from_exe(&self, exe: &str, desktop: &Desktop) -> (r: Option<
        WorkspaceWindowLocation,
    >)
        ensures
            r == self@.location_of(exe@, desktop@),
    {
        match find_container(self, exe, desktop) {
            Some((container, idx)) => {
                return Some(WorkspaceWindowLocation::Container(container, idx));
            },
            None => {},
        }
        let maximized = match self.maximized_window {
            Some(window) => is_of_exe(window, exe, desktop),
            None => false,
        };
        if maximized {
            return Some(WorkspaceWindowLocation::Maximized);
        }
        let in_monocle = match &self.monocle_container {
            Some(monocle) => {
                assert(monocle@.windows.elements =~= monocle.windows.elements@);
                find_window(&monocle.windows.elements, exe, desktop)
            },
            None => None,
        };
        match in_monocle {
            Some(idx) => Some(WorkspaceWindowLocation::Monocle(idx)),
            None => match find_window(&self.floating_windows.elements, exe, desktop) {
                Some(idx) => Some(WorkspaceWindowLocation::Floating(idx)),
                None => None,
            },
        }
    }
}

fn find_on_monitor(monitor: &Monitor, exe: &str, desktop: &Desktop) -> (r: Option<
    (usize, WorkspaceWindowLocation),
>)
    ensures
        match r {
            Some((workspace, location)) => workspace < monitor.workspaces.elements@.len()
                && workspace_of_exe(monitor@.workspaces.elements, exe@, desktop@, 0) == Some(
                (workspace as int, location),
            ),
            None => workspace_of_exe(monitor@.workspaces.elements, exe@, desktop@, 0) is None,
        },
{
    let mut i: usize = 0;
    while i < monitor.workspaces.elements.len()
        invariant
            i <= monitor.workspaces.elements@.len(),
            workspace_of_exe(monitor@.workspaces.elements, exe@, desktop@, 0)
                == workspace_of_exe(monitor@.workspaces.elements, exe@, desktop@, i as int),
        decreases monitor.workspaces.elements@.len() - i,
    {
        let workspace = &monitor.workspaces.elements[i];
        assert(monitor@.workspaces.elements[i as int] == workspace@);
        match workspace.location_from_exe(exe, desktop) {
            Some(location) => {
                return Some((i, location));
            },
            None => {},
        }
        i = i + 1;
    }
    None
}

impl WindowManager {
    fn find_exe(&self, exe: &str, desktop: &Desktop) -> (r: Option<
        (usize, usize, WorkspaceWindowLocation),
    >)
        ensures
            match r {
                Some((m, w, location)) => {
                    &&& monitor_of_exe(self@.monitors.elements, exe@, desktop@, 0) == Some(
                        (m as int, w as int, location),
                    )
                    &&& m < self.monitors.elements@.len()
                    &&& w < self.monitors.elements@[m as int].workspaces.elements@.len()
                },
                None => monitor_of_exe(self@.monitors.elements, exe@, desktop@, 0) is None,
            },
    {
        let mut i: usize = 0;
        while i < self.monitors.elements.len()
            invariant
                i <= self.monitors.elements@.len(),
                monitor_of_exe(self@.monitors.elements, exe@, desktop@, 0) == monitor_of_exe(
                    self@.monitors.elements,
                    exe@,
                    desktop@,
                    i as int,
                ),
            decreases self.monitors.elements@.len() - i,
        {
            let monitor = &self.monitors.elements[i];
            assert(self@.monitors.elements[i as int] == monitor@);
            match find_on_monitor(monitor, exe, desktop) {
                Some((workspace, location)) => {
                    return Some((i, workspace, location));
                },
                None => {},
            }
            i = i + 1;
        }
        None
    }

    fn focus_window_at(
        &mut self,
        location: WorkspaceWindowLocation,
        stage: CommandStage,
        screen: &mut Screen,
    ) -> (r: Result<CommandStage, Error>)
        ensures
            (Deed { manager: final(self)@, screen: final(screen)@, result: r }) == focus_location(
                old(self)@,
                old(screen)@,
                location,
                stage,
            ),
    {
        proof {
            reveal(focus_location);
            if self@.workspace() is Ok {
                window_manager::same_workspace(self@);
            }
        }
        let mouse_follows_focus = self.mouse_follows_focus;
        match location {
            WorkspaceWindowLocation::Monocle(idx) => {
                screen.manage(ManagerOp::FocusContainerWindow(idx));
            },
            WorkspaceWindowLocation::Maximized => match self.focused_workspace() {
                Ok(workspace) => match workspace.maximized_window {
                    Some(window) => {
                        window.focus(mouse_follows_focus, &screen.desktop, &mut screen.plan);
                    },
                    None => {},
                },
                Err(error) => {
                    return Err(error);
                },
            },
            WorkspaceWindowLocation::Container(container, idx) => {
                match self.focused_workspace_mut() {
                    Ok(workspace) => {
                        workspace.focus_container(container);
                    },
                    Err(error) => {
                        return Err(error);
                    },
                }
                screen.manage(ManagerOp::FocusContainerWindow(idx));
            },
            WorkspaceWindowLocation::Floating(idx) => match self.focused_workspace_mut() {
                Ok(workspace) => {
                    if workspace.focus_floating_window(idx) {
                        let window = workspace.floating_windows.elements[idx];
                        window.focus(mouse_follows_focus, &screen.desktop, &mut screen.plan);
                    }
                },
                Err(error) => {
                    return Err(error);
                },
            },
        }
        Ok(stage)
    }

    fn show_on_monitor(&mut self, m: usize, w: usize) -> (r: bool)
        requires
            m < old(self).monitors.elements@.len(),
            w < old(self).monitors.elements@[m as int].workspaces.elements@.len(),
        ensures
            r == (old(self)@.monitors.elements[m as int].workspaces.focused != w),
            final(self)@ == (if r {
                old(self)@.with_monitor(
                    m as int,
                    old(self)@.monitors.elements[m as int].focusing(w),
                )
            } else {
                old(self)@
            }),
    {
        if self.monitors.elements[m].focused_workspace_idx() == w {
            return false;
        }
        match self.monitors.get_mut(m) {
            Some(monitor) => {
                let count: usize = monitor.workspaces.elements.len();
                assert(w < count);
                let _ = monitor.focus_workspace(w);
            },
            None => {},
        }
        true
    }

    fn go_to_found(&mut self, m: usize, w: usize) -> (r: bool)
        requires
            m < old(self).monitors.elements@.len(),
            w < old(self).monitors.elements@[m as int].workspaces.elements@.len(),
        ensures
            r == (old(self)@.monitors.elements[m as int].workspaces.focused != w),
            final(self)@ == gone_to(old(self)@, m as int, w as int),
    {
        let loads = self.show_on_monitor(m, w);
        self.monitors.focus(m);
        loads
    }

    /// Focus the first window of an executable.
    pub(crate) fn focus_eagerly(&mut self, exe: &str, screen: &mut Screen) -> (r: Result<
        CommandStage,
        Error,
    >)
        ensures
            (Deed { manager: final(self)@, screen: final(screen)@, result: r })
                == eagerly_focused(old(self)@, old(screen)@, exe@),
    {
        proof {
            reveal(eagerly_focused);
        }
        let (m, w, location) = match self.find_exe(exe, &screen.desktop) {
            Some(found) => found,
            None => {
                return change_state::finished();
            },
        };
        let loads = self.go_to_found(m, w);
        let stage = if loads {
            CommandStage::LoadFocused
        } else {
            CommandStage::Finish { force_borders: false }
        };
        self.focus_window_at(location, stage, screen)
    }

    /// Show the focused workspace.
    pub(crate) fn load_focused_monitor(&mut self, screen: &mut Screen) -> (r: Result<
        CommandStage,
        Error,
    >)
        ensures
            (Deed { manager: final(self)@, screen: final(screen)@, result: r }) == load_focused(
                old(self)@,
                old(screen)@,
            ),
    {
        proof {
            reveal(load_focused);
        }
        let mouse_follows_focus = self.mouse_follows_focus;
        match self.focused_monitor_mut() {
            Some(monitor) => {
                monitor.load_focused_workspace(mouse_follows_focus, true, screen);
            },
            None => {},
        }
        change_state::finished()
    }
}

} // verus!
