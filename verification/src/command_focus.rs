//! Commands that go from monitor to monitor and from workspace to workspace.

use vstd::prelude::*;

use crate::change_state;
use crate::change_state::Deed;
use crate::error::Error;
use crate::geometry::CycleDirection;
use crate::manager_op::ManagerOp;
use crate::monitor::MonitorView;
use crate::plan::CommandStage;
use crate::ring::RingView;
use crate::socket_message::SocketMessage;
use crate::turn::Observations;
use crate::turn::ObservationsView;
use crate::window::Screen;
use crate::window::ScreenView;
use crate::window_manager;
use crate::window_manager::ManagerView;
use crate::window_manager::WindowManager;
use crate::workspace::WorkspaceView;

verus! {

impl ManagerView {
    /// The manager with the focus on the monitor under the cursor, where that one shows an
    /// empty workspace: no window there can have the focus.
    pub open spec fn at_cursor(self, seen: ObservationsView) -> ManagerView {
        match seen.cursor_monitor {
            Some(idx) => if idx != self.monitors.focused && idx < self.monitors.elements.len()
                && (self.monitors.elements[idx as int].workspaces.focused_element() matches Some(
                workspace,
            ) && workspace.empty()) {
                self.focusing_monitor(idx as int)
            } else {
                self
            },
            None => self,
        }
    }
}

/// The index that follows another one, where there are any to choose from.
pub open spec fn cycled(
    direction: CycleDirection,
    idx: usize,
    len: int,
    none: Error,
) -> Result<usize, Error> {
    if len == 0 {
        Err(none)
    } else if idx == usize::MAX {
        Err(Error::OutOfRange)
    } else {
        Ok(direction.next_of(idx as int, len) as usize)
    }
}

fn cycle(direction: CycleDirection, idx: usize, len: usize, none: Error) -> (r: Result<usize, Error>)
    ensures
        r == cycled(direction, idx, len as int, none),
{
    if len == 0 {
        Err(none)
    } else if idx == usize::MAX {
        Err(Error::OutOfRange)
    } else {
        Ok(direction.next_idx(idx, len))
    }
}

/// Do something at the next workspace of the focused monitor.
pub open spec fn next_workspace(manager: ManagerView, direction: CycleDirection) -> Result<
    usize,
    Error,
> {
    match manager.monitor() {
        Err(error) => Err(error),
        Ok(monitor) => cycled(
            direction,
            monitor.workspaces.focused,
            monitor.workspaces.elements.len() as int,
            Error::NoWorkspace,
        ),
    }
}

/// The next monitor.
pub open spec fn next_monitor(manager: ManagerView, direction: CycleDirection) -> Result<
    usize,
    Error,
> {
    cycled(
        direction,
        manager.monitors.focused,
        manager.monitors.elements.len() as int,
        Error::NoMonitor,
    )
}

/// One operation at an index, or the reason why there is none.
pub open spec fn operation(
    manager: ManagerView,
    screen: ScreenView,
    idx: Result<usize, Error>,
    op: spec_fn(usize) -> ManagerOp,
) -> Deed {
    match idx {
        Ok(idx) => change_state::carried_out(manager, screen.managing(op(idx))),
        Err(error) => change_state::refused(manager, screen, error),
    }
}

/// The first empty workspace after an index in a direction, within a number of steps.
pub open spec fn next_empty(
    workspaces: Seq<WorkspaceView>,
    direction: CycleDirection,
    idx: int,
    steps: nat,
) -> Option<int>
    decreases steps,
{
    if steps == 0 || !(0 <= idx < workspaces.len()) {
        None
    } else {
        let next = direction.next_of(idx, workspaces.len() as int);
        if workspaces[next].empty() {
            Some(next)
        } else {
            next_empty(workspaces, direction, next, (steps - 1) as nat)
        }
    }
}

/// How many steps lead from an index to another one.
spec fn distance(direction: CycleDirection, from: int, to: int, len: int) -> int {
    match direction {
        CycleDirection::Next => if to > from {
            to - from
        } else {
            to - from + len
        },
        CycleDirection::Previous => if to < from {
            from - to
        } else {
            from - to + len
        },
    }
}

proof fn reached(
    workspaces: Seq<WorkspaceView>,
    direction: CycleDirection,
    idx: int,
    empty: int,
    steps: nat,
)
    requires
        0 <= idx < workspaces.len(),
        0 <= empty < workspaces.len(),
        workspaces[empty].empty(),
        distance(direction, idx, empty, workspaces.len() as int) <= steps,
    ensures
        next_empty(workspaces, direction, idx, steps) matches Some(found) && 0 <= found
            < workspaces.len() && workspaces[found].empty(),
    decreases steps,
{
    let next = direction.next_of(idx, workspaces.len() as int);
    if !workspaces[next].empty() {
        reached(workspaces, direction, next, empty, (steps - 1) as nat);
    }
}

/// Where a workspace of a monitor is empty, going round once in either direction leads to
/// an empty one.
pub proof fn empty_workspaces_are_found(
    workspaces: Seq<WorkspaceView>,
    direction: CycleDirection,
    idx: int,
    empty: int,
)
    requires
        0 <= idx < workspaces.len(),
        0 <= empty < workspaces.len(),
        workspaces[empty].empty(),
    ensures
        next_empty(workspaces, direction, idx, workspaces.len()) matches Some(found) && 0 <= found
            < workspaces.len() && workspaces[found].empty(),
{
    reached(workspaces, direction, idx, empty, workspaces.len());
}

/// The index from which the next empty workspace is looked for. Backwards from behind the
/// last workspace, all of them come, the last one first.
pub open spec fn search_start(focused: usize, direction: CycleDirection, len: nat) -> int {
    if focused >= len && direction == CycleDirection::Previous {
        0
    } else {
        focused as int
    }
}

/// Focus the next empty workspace, where there is one.
pub open spec fn focus_empty(
    manager: ManagerView,
    screen: ScreenView,
    direction: CycleDirection,
) -> Deed {
    match manager.monitor() {
        Err(error) => change_state::refused(manager, screen, error),
        Ok(monitor) => match next_empty(
            monitor.workspaces.elements,
            direction,
            search_start(
                monitor.workspaces.focused,
                direction,
                monitor.workspaces.elements.len(),
            ),
            monitor.workspaces.elements.len(),
        ) {
            Some(idx) => change_state::carried_out(
                manager,
                screen.managing(ManagerOp::FocusWorkspace(idx as usize)),
            ),
            None => change_state::carried_out(manager, screen),
        },
    }
}

/// Whether the focused workspace of a monitor can be closed: there is another one, and it
/// holds nothing and has no name.
pub open spec fn can_close(monitor: MonitorView) -> bool {
    monitor.workspaces.focused_element() matches Some(workspace)
        && monitor.workspaces.elements.len() > 1 && workspace.containers.elements.len() == 0
        && workspace.floating_windows.elements.len() == 0 && workspace.monocle_container is None
        && workspace.maximized_window is None && workspace.name is None
}

/// The monitor without its focused workspace.
pub open spec fn without_focused(monitor: MonitorView) -> MonitorView {
    MonitorView {
        workspaces: RingView {
            elements: monitor.workspaces.elements.remove(monitor.workspaces.focused as int),
            ..monitor.workspaces
        },
        ..monitor
    }
}

/// Close the focused workspace where that is possible, and focus the one before it.
pub open spec fn close_workspace(manager: ManagerView, screen: ScreenView) -> Deed {
    match manager.monitors.focused_element() {
        Some(monitor) => if can_close(monitor) {
            let focused = monitor.workspaces.focused;
            change_state::carried_out(
                manager.with_current_monitor(without_focused(monitor)),
                screen.managing(
                    ManagerOp::FocusWorkspace(
                        if focused == 0 {
                            0
                        } else {
                            (focused - 1) as usize
                        },
                    ),
                ),
            )
        } else {
            change_state::carried_out(manager, screen)
        },
        None => change_state::carried_out(manager, screen),
    }
}

/// Do something at the workspace that the focused monitor showed before, where there is
/// one, and remember the one that it shows now.
pub open spec fn at_last_workspace(
    manager: ManagerView,
    screen: ScreenView,
    op: spec_fn(usize) -> ManagerOp,
) -> Deed {
    match manager.monitor() {
        Err(error) => change_state::refused(manager, screen, error),
        Ok(monitor) => change_state::underway(
            manager,
            match monitor.last_focused_workspace {
                Some(last) => screen.managing(op(last)),
                None => screen,
            },
            CommandStage::NoteLastWorkspace(monitor.workspaces.focused),
        ),
    }
}

/// Remember which workspace the focused monitor showed before.
#[verifier::opaque]
pub open spec fn note_last_workspace(manager: ManagerView, screen: ScreenView, idx: usize) -> Deed {
    match manager.monitor() {
        Err(error) => change_state::refused(manager, screen, error),
        Ok(monitor) => change_state::carried_out(
            manager.with_current_monitor(
                MonitorView { last_focused_workspace: Some(idx), ..monitor },
            ),
            screen,
        ),
    }
}

/// The index of the focused workspace, or the first one.
pub open spec fn focused_or_first(manager: ManagerView) -> usize {
    match manager.monitor() {
        Ok(monitor) => monitor.workspaces.focused,
        Err(_) => 0,
    }
}

/// Focus a monitor and one of its workspaces.
pub open spec fn focus_place(manager: ManagerView, screen: ScreenView, m: usize, w: usize) -> Deed {
    if m < manager.monitors.elements.len() {
        change_state::carried_out(
            manager.focusing_monitor(m as int),
            screen.managing(ManagerOp::FocusWorkspace(w)),
        )
    } else {
        change_state::refused(manager, screen, Error::NoMonitorAt(m))
    }
}

/// Focus a monitor, and lay its workspace out.
pub open spec fn focus_monitor(
    manager: ManagerView,
    screen: ScreenView,
    idx: Result<usize, Error>,
) -> Deed {
    match idx {
        Err(error) => change_state::refused(manager, screen, error),
        Ok(idx) => if idx < manager.monitors.elements.len() {
            change_state::carried_out(
                manager.focusing_monitor(idx as int),
                screen.updating(manager.mouse_follows_focus, true),
            )
        } else {
            change_state::refused(manager, screen, Error::NoMonitorAt(idx))
        },
    }
}

/// Show the workspace with an index on the monitor at an index, unless it is the focused
/// one, which comes last and moves the focus.
#[verifier::opaque]
pub open spec fn switch_from(
    manager: ManagerView,
    screen: ScreenView,
    workspace: usize,
    monitor: usize,
) -> Deed {
    let at = if monitor == manager.monitors.focused && monitor < manager.monitors.elements.len() {
        monitor + 1
    } else {
        monitor as int
    };
    if at >= manager.monitors.elements.len() {
        change_state::carried_out(manager, screen.managing(ManagerOp::FocusWorkspace(workspace)))
    } else if workspace == usize::MAX {
        change_state::refused(manager, screen, Error::NoWorkspaceAt(workspace))
    } else {
        let focused = manager.monitors.elements[at].focusing(workspace);
        change_state::underway(
            manager.with_monitor(at, focused.switched(screen.desktop.now_ms)),
            screen.followed_by(focused.load_steps(false, false)),
            CommandStage::SwitchNext { workspace, monitor: (at + 1) as usize },
        )
    }
}

/// Focus the monitor under the cursor, where there is one.
pub open spec fn focus_at_cursor(manager: ManagerView, seen: ObservationsView) -> Result<
    ManagerView,
    Error,
> {
    match seen.cursor_monitor {
        Some(idx) => if idx < manager.monitors.elements.len() {
            Ok(manager.focusing_monitor(idx as int))
        } else {
            Err(Error::NoMonitorAt(idx))
        },
        None => Ok(manager),
    }
}

/// What comes of a command that works from the monitor under the cursor.
pub open spec fn focused_from_cursor(
    manager: ManagerView,
    screen: ScreenView,
    message: SocketMessage,
) -> Option<Deed> {
    match message {
        SocketMessage::MoveContainerToLastWorkspace => Some(
            at_last_workspace(
                manager,
                screen,
                |workspace: usize| ManagerOp::MoveContainerToWorkspace { workspace, follow: true },
            ),
        ),
        SocketMessage::SendContainerToLastWorkspace => Some(
            at_last_workspace(
                manager,
                screen,
                |workspace: usize|
                    ManagerOp::MoveContainerToWorkspace { workspace, follow: false },
            ),
        ),
        SocketMessage::FocusLastWorkspace => Some(
            at_last_workspace(manager, screen, |idx: usize| ManagerOp::FocusWorkspace(idx)),
        ),
        SocketMessage::CycleFocusWorkspace(direction) => Some(
            operation(
                manager,
                screen,
                next_workspace(manager, direction),
                |idx: usize| ManagerOp::FocusWorkspace(idx),
            ),
        ),
        SocketMessage::CycleFocusEmptyWorkspace(direction) => Some(
            focus_empty(manager, screen, direction),
        ),
        SocketMessage::CloseWorkspace => Some(close_workspace(manager, screen)),
        SocketMessage::FocusWorkspaceNumber(idx) => Some(
            change_state::carried_out(
                manager,
                if focused_or_first(manager) != idx {
                    screen.managing(ManagerOp::FocusWorkspace(idx))
                } else {
                    screen
                },
            ),
        ),
        _ => None,
    }
}

/// What comes of a command that moves something to the next workspace or monitor.
pub open spec fn moved_on(
    manager: ManagerView,
    screen: ScreenView,
    message: SocketMessage,
) -> Option<Deed> {
    match message {
        SocketMessage::CycleMoveContainerToWorkspace(direction) => Some(
            operation(
                manager,
                screen,
                next_workspace(manager, direction),
                |workspace: usize| ManagerOp::MoveContainerToWorkspace { workspace, follow: true },
            ),
        ),
        SocketMessage::CycleSendContainerToWorkspace(direction) => Some(
            operation(
                manager,
                screen,
                next_workspace(manager, direction),
                |workspace: usize|
                    ManagerOp::MoveContainerToWorkspace { workspace, follow: false },
            ),
        ),
        SocketMessage::CycleMoveContainerToMonitor(direction) => Some(
            operation(
                manager,
                screen,
                next_monitor(manager, direction),
                |monitor: usize|
                    ManagerOp::MoveContainerToMonitor { monitor, to: None, follow: true },
            ),
        ),
        SocketMessage::CycleSendContainerToMonitor(direction) => Some(
            operation(
                manager,
                screen,
                next_monitor(manager, direction),
                |monitor: usize|
                    ManagerOp::MoveContainerToMonitor { monitor, to: None, follow: false },
            ),
        ),
        SocketMessage::CycleMoveWorkspaceToMonitor(direction) => Some(
            operation(
                manager,
                screen,
                next_monitor(manager, direction),
                |monitor: usize| ManagerOp::MoveWorkspaceToMonitor(monitor),
            ),
        ),
        _ => None,
    }
}

/// What comes of a command that focuses a monitor or a workspace; nothing for another one.
#[verifier::opaque]
pub open spec fn focused_by(
    manager: ManagerView,
    screen: ScreenView,
    seen: ObservationsView,
    message: SocketMessage,
) -> Option<Deed> {
    match message {
        SocketMessage::FocusMonitorNumber(idx) => Some(focus_monitor(manager, screen, Ok(idx))),
        SocketMessage::CycleFocusMonitor(direction) => Some(
            focus_monitor(manager, screen, next_monitor(manager, direction)),
        ),
        SocketMessage::FocusMonitorAtCursor => Some(
            match focus_at_cursor(manager, seen) {
                Ok(focused) => change_state::carried_out(focused, screen),
                Err(error) => change_state::refused(manager, screen, error),
            },
        ),
        SocketMessage::FocusStackWindow(idx) => Some(
            match focus_at_cursor(manager, seen) {
                Ok(focused) => change_state::carried_out(
                    focused,
                    screen.managing(ManagerOp::FocusContainerWindow(idx)),
                ),
                Err(error) => change_state::refused(manager, screen, error),
            },
        ),
        SocketMessage::FocusMonitorWorkspaceNumber(m, w) => Some(
            if manager.monitors.focused == m && focused_or_first(manager) == w {
                change_state::carried_out(manager, screen)
            } else {
                focus_place(manager, screen, m, w)
            },
        ),
        SocketMessage::FocusNamedWorkspace(name) => Some(
            match manager.place_named(name@) {
                Some((m, w)) => focus_place(manager, screen, m as usize, w as usize),
                None => change_state::carried_out(manager, screen),
            },
        ),
        SocketMessage::FocusWorkspaceNumbers(workspace) => Some(
            switch_from(manager, screen, workspace, 0),
        ),
        _ => match moved_on(manager, screen, message) {
            Some(deed) => Some(deed),
            None => focused_from_cursor(manager.at_cursor(seen), screen, message),
        },
    }
}

/// Whether a command works from the monitor under the cursor.
fn starts_at_cursor(message: &SocketMessage) -> (r: bool)
    ensures
        r == (message is MoveContainerToLastWorkspace || message is SendContainerToLastWorkspace
            || message is FocusLastWorkspace || message is CycleFocusWorkspace
            || message is CycleFocusEmptyWorkspace || message is CloseWorkspace
            || message is FocusWorkspaceNumber),
{
    matches!(
        message,
        SocketMessage::MoveContainerToLastWorkspace
            | SocketMessage::SendContainerToLastWorkspace
            | SocketMessage::FocusLastWorkspace
            | SocketMessage::CycleFocusWorkspace(_)
            | SocketMessage::CycleFocusEmptyWorkspace(_)
            | SocketMessage::CloseWorkspace
            | SocketMessage::FocusWorkspaceNumber(_)
    )
}

impl WindowManager {
    fn go_to_cursor(&mut self, seen: &Observations)
        ensures
            final(self)@ == old(self)@.at_cursor(seen@),
    {
        match seen.cursor_monitor {
            Some(idx) => {
                if idx != self.focused_monitor_idx() && idx < self.monitors.elements.len() {
                    let monitor = &self.monitors.elements[idx];
                    assert(monitor@ == self@.monitors.elements[idx as int]);
                    let is_empty = match monitor.focused_workspace() {
                        Some(workspace) => workspace.is_empty(),
                        None => false,
                    };
                    if is_empty {
                        self.monitors.focus(idx);
                    }
                }
            },
            None => {},
        }
    }

    fn next_workspace_idx(&self, direction: CycleDirection) -> (r: Result<usize, Error>)
        ensures
            r == next_workspace(self@, direction),
    {
        match self.focused_monitor() {
            Some(monitor) => cycle(
                direction,
                monitor.focused_workspace_idx(),
                monitor.workspaces.elements.len(),
                Error::NoWorkspace,
            ),
            None => Err(Error::NoMonitor),
        }
    }

    fn next_monitor_idx(&self, direction: CycleDirection) -> (r: Result<usize, Error>)
        ensures
            r == next_monitor(self@, direction),
    {
        cycle(
            direction,
            self.focused_monitor_idx(),
            self.monitors.elements.len(),
            Error::NoMonitor,
        )
    }

    fn focus_empty_workspace(&self, direction: CycleDirection, screen: &mut Screen) -> (r: Result<
        CommandStage,
        Error,
    >)
        ensures
            (Deed { manager: self@, screen: final(screen)@, result: r }) == focus_empty(
                self@,
                old(screen)@,
                direction,
            ),
    {
        let monitor = match self.focused_monitor() {
            Some(monitor) => monitor,
            None => {
                return Err(Error::NoMonitor);
            },
        };
        let len: usize = monitor.workspaces.elements.len();
        let ghost workspaces = monitor@.workspaces.elements;
        let focused: usize = monitor.focused_workspace_idx();
        let start: usize = if focused >= len && direction == CycleDirection::Previous {
            0
        } else {
            focused
        };
        let mut idx: usize = start;
        let mut steps: usize = len;
        while steps > 0 && idx < len
            invariant
                len == workspaces.len(),
                len == monitor.workspaces.elements@.len(),
                workspaces == monitor@.workspaces.elements,
                next_empty(workspaces, direction, start as int, len as nat) == next_empty(
                    workspaces,
                    direction,
                    idx as int,
                    steps as nat,
                ),
                self@.monitors.focused_element() == Some(monitor@),
                start == search_start(monitor@.workspaces.focused, direction, len as nat),
                screen@ == old(screen)@,
            decreases steps,
        {
            idx = direction.next_idx(idx, len);
            assert(workspaces[idx as int] == monitor.workspaces.elements@[idx as int]@);
            if monitor.workspaces.elements[idx].is_empty() {
                screen.manage(ManagerOp::FocusWorkspace(idx));
                return change_state::finished();
            }
            steps = steps - 1;
        }
        change_state::finished()
    }

    fn close_focused_workspace(&mut self, screen: &mut Screen) -> (r: Result<CommandStage, Error>)
        ensures
            (Deed { manager: final(self)@, screen: final(screen)@, result: r })
                == close_workspace(old(self)@, old(screen)@),
    {
        proof {
            if self@.monitors.focused_element() is Some {
                let focused = self@.monitors.focused as int;
                assert(self@.monitors.elements.update(focused, self@.monitors.elements[focused])
                    =~= self@.monitors.elements);
            }
        }
        match self.focused_monitor_mut() {
            Some(monitor) => {
                let focused: usize = monitor.focused_workspace_idx();
                let closable = match monitor.focused_workspace() {
                    Some(workspace) => monitor.workspaces.elements.len() > 1
                        && workspace.containers.elements.len() == 0
                        && workspace.floating_windows.elements.len() == 0
                        && workspace.monocle_container.is_none()
                        && workspace.maximized_window.is_none() && workspace.name.is_none(),
                    None => false,
                };
                if closable {
                    let ghost before = monitor@;
                    let _ = monitor.workspaces.elements.remove(focused);
                    assert(monitor@.workspaces.elements =~= before.workspaces.elements.remove(
                        focused as int,
                    ));
                    screen.manage(
                        ManagerOp::FocusWorkspace(
                            if focused == 0 {
                                0
                            } else {
                                focused - 1
                            },
                        ),
                    );
                }
            },
            None => {},
        }
        change_state::finished()
    }

    fn last_workspace(&self) -> (r: Result<(Option<usize>, usize), Error>)
        ensures
            r == (match self@.monitor() {
                Ok(monitor) => Ok::<(Option<usize>, usize), Error>(
                    (monitor.last_focused_workspace, monitor.workspaces.focused),
                ),
                Err(error) => Err(error),
            }),
    {
        match self.focused_monitor() {
            Some(monitor) => Ok((monitor.last_focused_workspace, monitor.focused_workspace_idx())),
            None => Err(Error::NoMonitor),
        }
    }

    fn focus_from_cursor(&mut self, message: &SocketMessage, screen: &mut Screen) -> (r: Option<
        Result<CommandStage, Error>,
    >)
        ensures
            match focused_from_cursor(old(self)@, old(screen)@, *message) {
                Some(deed) => r is Some && (Deed {
                    manager: final(self)@,
                    screen: final(screen)@,
                    result: r->0,
                }) == deed,
                None => r is None && final(self)@ == old(self)@ && final(screen)@ == old(screen)@,
            },
    {
        match message {
            SocketMessage::MoveContainerToLastWorkspace
            | SocketMessage::SendContainerToLastWorkspace
            | SocketMessage::FocusLastWorkspace => {
                let (last, focused) = match self.last_workspace() {
                    Ok(found) => found,
                    Err(error) => {
                        return Some(Err(error));
                    },
                };
                match last {
                    Some(workspace) => match message {
                        SocketMessage::MoveContainerToLastWorkspace => {
                            screen.manage(
                                ManagerOp::MoveContainerToWorkspace { workspace, follow: true },
                            );
                        },
                        SocketMessage::SendContainerToLastWorkspace => {
                            screen.manage(
                                ManagerOp::MoveContainerToWorkspace { workspace, follow: false },
                            );
                        },
                        _ => {
                            screen.manage(ManagerOp::FocusWorkspace(workspace));
                        },
                    },
                    None => {},
                }
                Some(Ok(CommandStage::NoteLastWorkspace(focused)))
            },
            SocketMessage::CycleFocusWorkspace(direction) => match self.next_workspace_idx(
                *direction,
            ) {
                Ok(idx) => {
                    screen.manage(ManagerOp::FocusWorkspace(idx));
                    Some(change_state::finished())
                },
                Err(error) => Some(Err(error)),
            },
            SocketMessage::CycleFocusEmptyWorkspace(direction) => Some(
                self.focus_empty_workspace(*direction, screen),
            ),
            SocketMessage::CloseWorkspace => Some(self.close_focused_workspace(screen)),
            SocketMessage::FocusWorkspaceNumber(idx) => {
                let focused: usize = self.focused_or_first_idx();
                if focused != *idx {
                    screen.manage(ManagerOp::FocusWorkspace(*idx));
                }
                Some(change_state::finished())
            },
            _ => None,
        }
    }

    fn focused_or_first_idx(&self) -> (r: usize)
        ensures
            r == focused_or_first(self@),
    {
        match self.focused_workspace_idx() {
            Ok(idx) => idx,
            Err(_) => 0,
        }
    }

    fn move_on(&self, message: &SocketMessage, screen: &mut Screen) -> (r: Option<
        Result<CommandStage, Error>,
    >)
        ensures
            match moved_on(self@, old(screen)@, *message) {
                Some(deed) => r is Some && (Deed {
                    manager: self@,
                    screen: final(screen)@,
                    result: r->0,
                }) == deed,
                None => r is None && final(screen)@ == old(screen)@,
            },
    {
        let idx = match message {
            SocketMessage::CycleMoveContainerToWorkspace(direction)
            | SocketMessage::CycleSendContainerToWorkspace(direction) =>
                self.next_workspace_idx(*direction),
            SocketMessage::CycleMoveContainerToMonitor(direction)
            | SocketMessage::CycleSendContainerToMonitor(direction)
            | SocketMessage::CycleMoveWorkspaceToMonitor(direction) =>
                self.next_monitor_idx(*direction),
            _ => {
                return None;
            },
        };
        match idx {
            Ok(idx) => {
                let op = match message {
                    SocketMessage::CycleMoveContainerToWorkspace(_) =>
                        ManagerOp::MoveContainerToWorkspace { workspace: idx, follow: true },
                    SocketMessage::CycleSendContainerToWorkspace(_) =>
                        ManagerOp::MoveContainerToWorkspace { workspace: idx, follow: false },
                    SocketMessage::CycleMoveContainerToMonitor(_) =>
                        ManagerOp::MoveContainerToMonitor { monitor: idx, to: None, follow: true },
                    SocketMessage::CycleSendContainerToMonitor(_) =>
                        ManagerOp::MoveContainerToMonitor {
                            monitor: idx,
                            to: None,
                            follow: false,
                        },
                    _ => ManagerOp::MoveWorkspaceToMonitor(idx),
                };
                screen.manage(op);
                Some(change_state::finished())
            },
            Err(error) => Some(Err(error)),
        }
    }

    fn go_to_place(&mut self, m: usize, w: usize, screen: &mut Screen) -> (r: Result<
        CommandStage,
        Error,
    >)
        ensures
            (Deed { manager: final(self)@, screen: final(screen)@, result: r }) == focus_place(
                old(self)@,
                old(screen)@,
                m,
                w,
            ),
    {
        match self.focus_monitor(m) {
            Ok(()) => {},
            Err(error) => {
                return Err(error);
            },
        }
        screen.manage(ManagerOp::FocusWorkspace(w));
        change_state::finished()
    }

    fn go_to_monitor(&mut self, idx: Result<usize, Error>, screen: &mut Screen) -> (r: Result<
        CommandStage,
        Error,
    >)
        ensures
            (Deed { manager: final(self)@, screen: final(screen)@, result: r }) == focus_monitor(
                old(self)@,
                old(screen)@,
                idx,
            ),
    {
        match idx {
            Ok(idx) => match self.focus_monitor(idx) {
                Ok(()) => {
                    screen.update(self.mouse_follows_focus, true);
                    change_state::finished()
                },
                Err(error) => Err(error),
            },
            Err(error) => Err(error),
        }
    }

    fn focus_cursor_monitor(&mut self, seen: &Observations) -> (r: Result<(), Error>)
        ensures
            match focus_at_cursor(old(self)@, seen@) {
                Ok(focused) => r is Ok && final(self)@ == focused,
                Err(error) => r == Err::<(), Error>(error) && final(self)@ == old(self)@,
            },
    {
        match seen.cursor_monitor {
            Some(idx) => self.focus_monitor(idx),
            None => Ok(()),
        }
    }

    /// Show the workspace with an index on the next monitor.
    pub(crate) fn switch_next(&mut self, workspace: usize, monitor: usize, screen: &mut Screen) -> (r:
        Result<CommandStage, Error>)
        ensures
            (Deed { manager: final(self)@, screen: final(screen)@, result: r }) == switch_from(
                old(self)@,
                old(screen)@,
                workspace,
                monitor,
            ),
    {
        proof {
            reveal(switch_from);
        }
        let len: usize = self.monitors.elements.len();
        let at: usize = if monitor < len && monitor == self.focused_monitor_idx() {
            monitor + 1
        } else {
            monitor
        };
        if at >= len {
            screen.manage(ManagerOp::FocusWorkspace(workspace));
            return change_state::finished();
        }
        if workspace == usize::MAX {
            return Err(Error::NoWorkspaceAt(workspace));
        }
        let ghost before = self@.monitors.elements;
        let ghost there = before[at as int].focusing(workspace);
        let _ = self.monitors.elements[at].focus_workspace(workspace);
        assert(self@.monitors.elements =~= before.update(at as int, there));
        self.monitors.elements[at].load_focused_workspace(false, false, screen);
        assert(self@.monitors.elements =~= before.update(
            at as int,
            there.switched(old(screen)@.desktop.now_ms),
        ));
        Ok(CommandStage::SwitchNext { workspace, monitor: at + 1 })
    }

    /// Remember which workspace the focused monitor showed before.
    pub(crate) fn remember_last_workspace(&mut self, idx: usize, screen: &Screen) -> (r: Result<
        CommandStage,
        Error,
    >)
        ensures
            (Deed { manager: final(self)@, screen: screen@, result: r }) == note_last_workspace(
                old(self)@,
                screen@,
                idx,
            ),
    {
        proof {
            reveal(note_last_workspace);
        }
        match self.focused_monitor_mut() {
            Some(monitor) => {
                monitor.last_focused_workspace = Some(idx);
                change_state::finished()
            },
            None => Err(Error::NoMonitor),
        }
    }

    /// Carry out a command that focuses a monitor or a workspace.
    pub(crate) fn change_focus(
        &mut self,
        message: &SocketMessage,
        seen: &Observations,
        screen: &mut Screen,
    ) -> (r: Option<Result<CommandStage, Error>>)
        ensures
            match focused_by(old(self)@, old(screen)@, seen@, *message) {
                Some(deed) => r is Some && (Deed {
                    manager: final(self)@,
                    screen: final(screen)@,
                    result: r->0,
                }) == deed,
                None => r is None && final(self)@ == old(self)@ && final(screen)@ == old(screen)@,
            },
    {
        proof {
            reveal(focused_by);
        }
        match message {
            SocketMessage::FocusMonitorNumber(idx) => Some(self.go_to_monitor(Ok(*idx), screen)),
            SocketMessage::CycleFocusMonitor(direction) => {
                let idx = self.next_monitor_idx(*direction);
                Some(self.go_to_monitor(idx, screen))
            },
            SocketMessage::FocusMonitorAtCursor => match self.focus_cursor_monitor(seen) {
                Ok(()) => Some(change_state::finished()),
                Err(error) => Some(Err(error)),
            },
            SocketMessage::FocusStackWindow(idx) => match self.focus_cursor_monitor(seen) {
                Ok(()) => {
                    screen.manage(ManagerOp::FocusContainerWindow(*idx));
                    Some(change_state::finished())
                },
                Err(error) => Some(Err(error)),
            },
            SocketMessage::FocusMonitorWorkspaceNumber(m, w) => {
                let focused: usize = self.focused_or_first_idx();
                if self.focused_monitor_idx() == *m && focused == *w {
                    Some(change_state::finished())
                } else {
                    Some(self.go_to_place(*m, *w, screen))
                }
            },
            SocketMessage::FocusNamedWorkspace(name) => {
                match self.monitor_workspace_index_by_name(name.as_str()) {
                    Some((m, w)) => Some(self.go_to_place(m, w, screen)),
                    None => Some(change_state::finished()),
                }
            },
            SocketMessage::FocusWorkspaceNumbers(workspace) => Some(
                self.switch_next(*workspace, 0, screen),
            ),
            _ => if starts_at_cursor(message) {
                self.go_to_cursor(seen);
                self.focus_from_cursor(message, screen)
            } else {
                self.move_on(message, screen)
            },
        }
    }
}

} // verus!
