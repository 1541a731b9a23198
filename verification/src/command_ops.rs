//! Commands that come down to operations on the state of the window manager.

use vstd::prelude::*;

use crate::error::Error;
use crate::geometry::Axis;
use crate::geometry::Layout;
use crate::geometry::OperationDirection;
use crate::geometry::Sizing;
use crate::manager_op::ManagerOp;
use crate::monitor::Monitor;
use crate::monitor::MonitorView;
use crate::plan::StepView;
use crate::socket_message::CycleFocusWindowContent;
use crate::socket_message::SocketMessage;
use crate::text;
use crate::window::Screen;
use crate::window::ScreenView;
use crate::window_manager::ManagerView;
use crate::window_manager::WindowManager;
use crate::workspace::Workspace;
use crate::workspace::WorkspaceLayer;
use crate::workspace::WorkspaceView;

verus! {

/// Whether a workspace has a name.
pub open spec fn is_named(workspace: WorkspaceView, name: Seq<char>) -> bool {
    workspace.name matches Some(own) && own@ == name
}

/// The first workspace with a name, from an index on.
pub open spec fn named_workspace(
    workspaces: Seq<WorkspaceView>,
    name: Seq<char>,
    from: int,
) -> Option<int>
    decreases workspaces.len() - from,
{
    if from < 0 || from >= workspaces.len() {
        None
    } else if is_named(workspaces[from], name) {
        Some(from)
    } else {
        named_workspace(workspaces, name, from + 1)
    }
}

/// The first monitor, from an index on, with a workspace with a name, and that workspace.
pub open spec fn named_place(monitors: Seq<MonitorView>, name: Seq<char>, from: int) -> Option<
    (int, int),
>
    decreases monitors.len() - from,
{
    if from < 0 || from >= monitors.len() {
        None
    } else {
        match named_workspace(monitors[from].workspaces.elements, name, 0) {
            Some(at) => Some((from, at)),
            None => named_place(monitors, name, from + 1),
        }
    }
}

impl ManagerView {
    /// The indices of the monitor and of the workspace with a name.
    pub open spec fn place_named(self, name: Seq<char>) -> Option<(int, int)> {
        named_place(self.monitors.elements, name, 0)
    }
}

fn find_named_workspace(monitor: &Monitor, name: &str) -> (r: Option<usize>)
    ensures
        match r {
            Some(idx) => named_workspace(monitor@.workspaces.elements, name@, 0) == Some(
                idx as int,
            ) && idx < monitor.workspaces.elements@.len(),
            None => named_workspace(monitor@.workspaces.elements, name@, 0) is None,
        },
{
    let mut i: usize = 0;
    while i < monitor.workspaces.elements.len()
        invariant
            i <= monitor.workspaces.elements@.len(),
            named_workspace(monitor@.workspaces.elements, name@, 0) == named_workspace(
                monitor@.workspaces.elements,
                name@,
                i as int,
            ),
        decreases monitor.workspaces.elements@.len() - i,
    {
        let workspace = &monitor.workspaces.elements[i];
        assert(monitor@.workspaces.elements[i as int] == workspace@);
        match &workspace.name {
            Some(own) => {
                if text::equal(own.as_str(), name) {
                    return Some(i);
                }
            },
            None => {},
        }
        i = i + 1;
    }
    None
}

impl WindowManager {
    /// The indices of the first monitor with a workspace with a name, and of that
    /// workspace.
    pub fn monitor_workspace_index_by_name(&self, name: &str) -> (r: Option<(usize, usize)>)
        ensures
            match r {
                Some((monitor, workspace)) => self@.place_named(name@) == Some(
                    (monitor as int, workspace as int),
                ) && monitor < self.monitors.elements@.len(),
                None => self@.place_named(name@) is None,
            },
    {
        let mut i: usize = 0;
        while i < self.monitors.elements.len()
            invariant
                i <= self.monitors.elements@.len(),
                self@.place_named(name@) == named_place(
                    self@.monitors.elements,
                    name@,
                    i as int,
                ),
            decreases self.monitors.elements@.len() - i,
        {
            let monitor = &self.monitors.elements[i];
            assert(self@.monitors.elements[i as int] == monitor@);
            match find_named_workspace(monitor, name) {
                Some(workspace) => {
                    return Some((i, workspace));
                },
                None => {},
            }
            i = i + 1;
        }
        None
    }
}

/// A workspace that is found by its name has that name.
pub proof fn named_workspaces_have_their_name(manager: ManagerView, name: Seq<char>)
    ensures
        manager.place_named(name) matches Some((monitor, workspace)) ==> 0 <= monitor
            < manager.monitors.elements.len() && 0 <= workspace
            < manager.monitors.elements[monitor].workspaces.elements.len() && is_named(
            manager.monitors.elements[monitor].workspaces.elements[workspace],
            name,
        ),
{
    named_place_is_named(manager.monitors.elements, name, 0);
}

proof fn named_place_is_named(monitors: Seq<MonitorView>, name: Seq<char>, from: int)
    requires
        from >= 0,
    ensures
        named_place(monitors, name, from) matches Some((monitor, workspace)) ==> from <= monitor
            < monitors.len() && 0 <= workspace < monitors[monitor].workspaces.elements.len()
            && is_named(monitors[monitor].workspaces.elements[workspace], name),
    decreases monitors.len() - from,
{
    if from < monitors.len() {
        named_workspace_is_named(monitors[from].workspaces.elements, name, 0);
        named_place_is_named(monitors, name, from + 1);
    }
}

proof fn named_workspace_is_named(workspaces: Seq<WorkspaceView>, name: Seq<char>, from: int)
    requires
        from >= 0,
    ensures
        named_workspace(workspaces, name, from) matches Some(at) ==> from <= at < workspaces.len()
            && is_named(workspaces[at], name),
    decreases workspaces.len() - from,
{
    if from < workspaces.len() {
        named_workspace_is_named(workspaces, name, from + 1);
    }
}

/// The operation of a command that is always the same.
#[verifier::opaque]
pub open spec fn plain_op(message: SocketMessage) -> Option<ManagerOp> {
    match message {
        SocketMessage::Promote => Some(ManagerOp::PromoteContainerToFront),
        SocketMessage::PromoteSwap => Some(ManagerOp::PromoteContainerSwap),
        SocketMessage::PromoteFocus => Some(ManagerOp::PromoteFocusToFront),
        SocketMessage::CycleMoveWindow(direction) => Some(
            ManagerOp::MoveContainerInCycleDirection(direction),
        ),
        SocketMessage::StackWindow(direction) => Some(ManagerOp::AddWindowToContainer(direction)),
        SocketMessage::UnstackWindow => Some(ManagerOp::RemoveWindowFromContainer),
        SocketMessage::StackAll => Some(ManagerOp::StackAll),
        SocketMessage::UnstackAll => Some(ManagerOp::UnstackAll(true)),
        SocketMessage::CycleStack(direction) => Some(
            ManagerOp::CycleContainerWindowInDirection(direction),
        ),
        SocketMessage::CycleStackIndex(direction) => Some(
            ManagerOp::CycleContainerWindowIndexInDirection(direction),
        ),
        SocketMessage::ReclaimMinimizedWindows => Some(ManagerOp::RestoreMinimizedWindows),
        SocketMessage::ReclaimLastMinimizedWindow => Some(ManagerOp::RestoreLastMinimizedWindow),
        SocketMessage::ToggleLock => Some(ManagerOp::ToggleLock),
        SocketMessage::ToggleFloat => Some(ManagerOp::ToggleFloat(false)),
        SocketMessage::TogglePin => Some(ManagerOp::TogglePinFloatingWindow),
        SocketMessage::TogglePinAlwaysOnTop => Some(ManagerOp::TogglePinAlwaysOnTop),
        SocketMessage::ToggleMonocle => Some(ManagerOp::ToggleMonocle),
        SocketMessage::ToggleMaximize => Some(ManagerOp::ToggleMaximize),
        SocketMessage::EnforceStackRules => Some(ManagerOp::EnforceStackRules),
        SocketMessage::AdjustContainerPadding(sizing, adjustment) => Some(
            ManagerOp::AdjustContainerPadding(sizing, adjustment),
        ),
        SocketMessage::AdjustWorkspacePadding(sizing, adjustment) => Some(
            ManagerOp::AdjustWorkspacePadding(sizing, adjustment),
        ),
        SocketMessage::MoveContainerToWorkspaceNumber(workspace) => Some(
            ManagerOp::MoveContainerToWorkspace { workspace, follow: true },
        ),
        SocketMessage::SendContainerToWorkspaceNumber(workspace) => Some(
            ManagerOp::MoveContainerToWorkspace { workspace, follow: false },
        ),
        SocketMessage::MoveContainerToMonitorNumber(monitor) => Some(
            ManagerOp::MoveContainerToMonitor { monitor, to: None, follow: true },
        ),
        SocketMessage::SendContainerToMonitorNumber(monitor) => Some(
            ManagerOp::MoveContainerToMonitor { monitor, to: None, follow: false },
        ),
        SocketMessage::SwapWorkspacesToMonitorNumber(monitor) => Some(
            ManagerOp::SwapFocusedMonitor(monitor),
        ),
        SocketMessage::MoveWorkspaceToMonitorNumber(monitor) => Some(
            ManagerOp::MoveWorkspaceToMonitor(monitor),
        ),
        SocketMessage::ToggleTiling => Some(ManagerOp::ToggleTiling),
        SocketMessage::FlipLayout(axis) => Some(ManagerOp::FlipLayout(axis)),
        SocketMessage::ChangeLayout(layout) => Some(ManagerOp::ChangeWorkspaceLayout(layout)),
        SocketMessage::CycleLayout(direction) => Some(ManagerOp::CycleLayout(direction)),
        SocketMessage::ChangeLayoutCustom(path) => Some(
            ManagerOp::ChangeWorkspaceCustomLayout(path),
        ),
        SocketMessage::Stop => Some(ManagerOp::Stop(false)),
        SocketMessage::StopIgnoreRestore => Some(ManagerOp::Stop(true)),
        SocketMessage::EnsureWorkspaces(monitor, count) => Some(
            ManagerOp::EnsureWorkspaces(monitor, count),
        ),
        SocketMessage::EnsureNamedWorkspaces(monitor) => Some(
            ManagerOp::EnsureNamedWorkspaces(monitor),
        ),
        SocketMessage::NewWorkspace => Some(ManagerOp::NewWorkspace),
        SocketMessage::WorkspaceName(monitor, workspace, name) => Some(
            ManagerOp::SetWorkspaceName(monitor, workspace, name),
        ),
        SocketMessage::WatchConfiguration(enable) => Some(ManagerOp::WatchConfiguration(enable)),
        SocketMessage::ManageFocusedWindow => Some(ManagerOp::ManageFocusedWindow),
        SocketMessage::UnmanageFocusedWindow => Some(ManagerOp::UnmanageFocusedWindow),
        SocketMessage::Theme => Some(ManagerOp::ApplyTheme),
        SocketMessage::ApplyState => Some(ManagerOp::ApplyState),
        _ => None,
    }
}

fn plain_operation(message: &SocketMessage) -> (r: Option<ManagerOp>)
    ensures
        r == plain_op(*message),
{
    proof {
        reveal(plain_op);
    }
    match message {
        SocketMessage::Promote => Some(ManagerOp::PromoteContainerToFront),
        SocketMessage::PromoteSwap => Some(ManagerOp::PromoteContainerSwap),
        SocketMessage::PromoteFocus => Some(ManagerOp::PromoteFocusToFront),
        SocketMessage::CycleMoveWindow(direction) => Some(
            ManagerOp::MoveContainerInCycleDirection(*direction),
        ),
        SocketMessage::StackWindow(direction) => Some(
            ManagerOp::AddWindowToContainer(*direction),
        ),
        SocketMessage::UnstackWindow => Some(ManagerOp::RemoveWindowFromContainer),
        SocketMessage::StackAll => Some(ManagerOp::StackAll),
        SocketMessage::UnstackAll => Some(ManagerOp::UnstackAll(true)),
        SocketMessage::CycleStack(direction) => Some(
            ManagerOp::CycleContainerWindowInDirection(*direction),
        ),
        SocketMessage::CycleStackIndex(direction) => Some(
            ManagerOp::CycleContainerWindowIndexInDirection(*direction),
        ),
        SocketMessage::ReclaimMinimizedWindows => Some(ManagerOp::RestoreMinimizedWindows),
        SocketMessage::ReclaimLastMinimizedWindow => Some(ManagerOp::RestoreLastMinimizedWindow),
        SocketMessage::ToggleLock => Some(ManagerOp::ToggleLock),
        SocketMessage::ToggleFloat => Some(ManagerOp::ToggleFloat(false)),
        SocketMessage::TogglePin => Some(ManagerOp::TogglePinFloatingWindow),
        SocketMessage::TogglePinAlwaysOnTop => Some(ManagerOp::TogglePinAlwaysOnTop),
        SocketMessage::ToggleMonocle => Some(ManagerOp::ToggleMonocle),
        SocketMessage::ToggleMaximize => Some(ManagerOp::ToggleMaximize),
        SocketMessage::EnforceStackRules => Some(ManagerOp::EnforceStackRules),
        SocketMessage::AdjustContainerPadding(sizing, adjustment) => Some(
            ManagerOp::AdjustContainerPadding(*sizing, *adjustment),
        ),
        SocketMessage::AdjustWorkspacePadding(sizing, adjustment) => Some(
            ManagerOp::AdjustWorkspacePadding(*sizing, *adjustment),
        ),
        SocketMessage::MoveContainerToWorkspaceNumber(workspace) => Some(
            ManagerOp::MoveContainerToWorkspace { workspace: *workspace, follow: true },
        ),
        SocketMessage::SendContainerToWorkspaceNumber(workspace) => Some(
            ManagerOp::MoveContainerToWorkspace { workspace: *workspace, follow: false },
        ),
        SocketMessage::MoveContainerToMonitorNumber(monitor) => Some(
            ManagerOp::MoveContainerToMonitor { monitor: *monitor, to: None, follow: true },
        ),
        SocketMessage::SendContainerToMonitorNumber(monitor) => Some(
            ManagerOp::MoveContainerToMonitor {
                monitor: *monitor,
                to: None,
                follow: false,
            },
        ),
        SocketMessage::SwapWorkspacesToMonitorNumber(monitor) => Some(
            ManagerOp::SwapFocusedMonitor(*monitor),
        ),
        SocketMessage::MoveWorkspaceToMonitorNumber(monitor) => Some(
            ManagerOp::MoveWorkspaceToMonitor(*monitor),
        ),
        SocketMessage::ToggleTiling => Some(ManagerOp::ToggleTiling),
        SocketMessage::FlipLayout(axis) => Some(ManagerOp::FlipLayout(*axis)),
        SocketMessage::ChangeLayout(layout) => Some(ManagerOp::ChangeWorkspaceLayout(*layout)),
        SocketMessage::CycleLayout(direction) => Some(ManagerOp::CycleLayout(*direction)),
        SocketMessage::ChangeLayoutCustom(path) => Some(
            ManagerOp::ChangeWorkspaceCustomLayout(path.clone()),
        ),
        SocketMessage::Stop => Some(ManagerOp::Stop(false)),
        SocketMessage::StopIgnoreRestore => Some(ManagerOp::Stop(true)),
        SocketMessage::EnsureWorkspaces(monitor, count) => Some(
            ManagerOp::EnsureWorkspaces(*monitor, *count),
        ),
        SocketMessage::EnsureNamedWorkspaces(monitor) => Some(
            ManagerOp::EnsureNamedWorkspaces(*monitor),
        ),
        SocketMessage::NewWorkspace => Some(ManagerOp::NewWorkspace),
        SocketMessage::WorkspaceName(monitor, workspace, name) => Some(
            ManagerOp::SetWorkspaceName(*monitor, *workspace, name.clone()),
        ),
        SocketMessage::WatchConfiguration(enable) => Some(ManagerOp::WatchConfiguration(*enable)),
        SocketMessage::ManageFocusedWindow => Some(ManagerOp::ManageFocusedWindow),
        SocketMessage::UnmanageFocusedWindow => Some(ManagerOp::UnmanageFocusedWindow),
        SocketMessage::Theme => Some(ManagerOp::ApplyTheme),
        SocketMessage::ApplyState => Some(ManagerOp::ApplyState),
        _ => None,
    }
}

/// Where a command says at which workspace it works: by the indices of a monitor and a
/// workspace, by a name, or by the focus.
pub enum Target {
    At(usize, usize),
    Named(String),
    Focused,
}

/// The workspace at which a command works.
pub open spec fn target_of(message: SocketMessage) -> Option<Target> {
    match message {
        SocketMessage::ContainerPadding(m, w, _)
        | SocketMessage::WorkspacePadding(m, w, _)
        | SocketMessage::WorkspaceTiling(m, w, _)
        | SocketMessage::WorkspaceLayout(m, w, _)
        | SocketMessage::WorkspaceLayoutCustom(m, w, _)
        | SocketMessage::WorkspaceLayoutRule(m, w, _, _)
        | SocketMessage::WorkspaceLayoutCustomRule(m, w, _, _)
        | SocketMessage::ClearWorkspaceLayoutRules(m, w)
        | SocketMessage::SendContainerToMonitorWorkspaceNumber(m, w)
        | SocketMessage::MoveContainerToMonitorWorkspaceNumber(m, w) => Some(Target::At(m, w)),
        SocketMessage::NamedWorkspaceContainerPadding(name, _)
        | SocketMessage::NamedWorkspacePadding(name, _)
        | SocketMessage::NamedWorkspaceTiling(name, _)
        | SocketMessage::NamedWorkspaceLayout(name, _)
        | SocketMessage::NamedWorkspaceLayoutCustom(name, _)
        | SocketMessage::NamedWorkspaceLayoutRule(name, _, _)
        | SocketMessage::NamedWorkspaceLayoutCustomRule(name, _, _)
        | SocketMessage::ClearNamedWorkspaceLayoutRules(name)
        | SocketMessage::SendContainerToNamedWorkspace(name)
        | SocketMessage::MoveContainerToNamedWorkspace(name) => Some(Target::Named(name)),
        SocketMessage::FocusedWorkspaceContainerPadding(_)
        | SocketMessage::FocusedWorkspacePadding(_) => Some(Target::Focused),
        _ => None,
    }
}

/// The operation of a command that works at a workspace.
pub open spec fn op_at(message: SocketMessage, m: usize, w: usize) -> ManagerOp {
    match message {
        SocketMessage::ContainerPadding(_, _, size)
        | SocketMessage::NamedWorkspaceContainerPadding(_, size)
        | SocketMessage::FocusedWorkspaceContainerPadding(size) => ManagerOp::SetContainerPadding(
            m,
            w,
            size,
        ),
        SocketMessage::WorkspacePadding(_, _, size)
        | SocketMessage::NamedWorkspacePadding(_, size)
        | SocketMessage::FocusedWorkspacePadding(size) => ManagerOp::SetWorkspacePadding(
            m,
            w,
            size,
        ),
        SocketMessage::WorkspaceTiling(_, _, tile)
        | SocketMessage::NamedWorkspaceTiling(_, tile) => ManagerOp::SetWorkspaceTiling(
            m,
            w,
            tile,
        ),
        SocketMessage::WorkspaceLayout(_, _, layout)
        | SocketMessage::NamedWorkspaceLayout(_, layout) => ManagerOp::SetWorkspaceLayout(
            m,
            w,
            layout,
        ),
        SocketMessage::WorkspaceLayoutCustom(_, _, path)
        | SocketMessage::NamedWorkspaceLayoutCustom(_, path) =>
            ManagerOp::SetWorkspaceLayoutCustom(m, w, path),
        SocketMessage::WorkspaceLayoutRule(_, _, count, layout)
        | SocketMessage::NamedWorkspaceLayoutRule(_, count, layout) =>
            ManagerOp::AddWorkspaceLayoutRule(m, w, count, layout),
        SocketMessage::WorkspaceLayoutCustomRule(_, _, count, path)
        | SocketMessage::NamedWorkspaceLayoutCustomRule(_, count, path) =>
            ManagerOp::AddWorkspaceLayoutCustomRule(m, w, count, path),
        SocketMessage::SendContainerToMonitorWorkspaceNumber(..)
        | SocketMessage::SendContainerToNamedWorkspace(_) => ManagerOp::MoveContainerToMonitor {
            monitor: m,
            to: Some(w),
            follow: false,
        },
        SocketMessage::MoveContainerToMonitorWorkspaceNumber(..)
        | SocketMessage::MoveContainerToNamedWorkspace(_) => ManagerOp::MoveContainerToMonitor {
            monitor: m,
            to: Some(w),
            follow: true,
        },
        _ => ManagerOp::ClearWorkspaceLayoutRules(m, w),
    }
}

fn target(message: &SocketMessage) -> (r: Option<Target>)
    ensures
        r == target_of(*message),
{
    match message {
        SocketMessage::ContainerPadding(m, w, _)
        | SocketMessage::WorkspacePadding(m, w, _)
        | SocketMessage::WorkspaceTiling(m, w, _)
        | SocketMessage::WorkspaceLayout(m, w, _)
        | SocketMessage::WorkspaceLayoutCustom(m, w, _)
        | SocketMessage::WorkspaceLayoutRule(m, w, _, _)
        | SocketMessage::WorkspaceLayoutCustomRule(m, w, _, _)
        | SocketMessage::ClearWorkspaceLayoutRules(m, w)
        | SocketMessage::SendContainerToMonitorWorkspaceNumber(m, w)
        | SocketMessage::MoveContainerToMonitorWorkspaceNumber(m, w) => Some(Target::At(*m, *w)),
        SocketMessage::NamedWorkspaceContainerPadding(name, _)
        | SocketMessage::NamedWorkspacePadding(name, _)
        | SocketMessage::NamedWorkspaceTiling(name, _)
        | SocketMessage::NamedWorkspaceLayout(name, _)
        | SocketMessage::NamedWorkspaceLayoutCustom(name, _)
        | SocketMessage::NamedWorkspaceLayoutRule(name, _, _)
        | SocketMessage::NamedWorkspaceLayoutCustomRule(name, _, _)
        | SocketMessage::ClearNamedWorkspaceLayoutRules(name)
        | SocketMessage::SendContainerToNamedWorkspace(name)
        | SocketMessage::MoveContainerToNamedWorkspace(name) => Some(
            Target::Named(name.clone()),
        ),
        SocketMessage::FocusedWorkspaceContainerPadding(_)
        | SocketMessage::FocusedWorkspacePadding(_) => Some(Target::Focused),
        _ => None,
    }
}

fn operation_at(message: &SocketMessage, m: usize, w: usize) -> (r: ManagerOp)
    ensures
        r == op_at(*message, m, w),
{
    match message {
        SocketMessage::ContainerPadding(_, _, size)
        | SocketMessage::NamedWorkspaceContainerPadding(_, size)
        | SocketMessage::FocusedWorkspaceContainerPadding(size) => ManagerOp::SetContainerPadding(
            m,
            w,
            *size,
        ),
        SocketMessage::WorkspacePadding(_, _, size)
        | SocketMessage::NamedWorkspacePadding(_, size)
        | SocketMessage::FocusedWorkspacePadding(size) => ManagerOp::SetWorkspacePadding(
            m,
            w,
            *size,
        ),
        SocketMessage::WorkspaceTiling(_, _, tile)
        | SocketMessage::NamedWorkspaceTiling(_, tile) => ManagerOp::SetWorkspaceTiling(
            m,
            w,
            *tile,
        ),
        SocketMessage::WorkspaceLayout(_, _, layout)
        | SocketMessage::NamedWorkspaceLayout(_, layout) => ManagerOp::SetWorkspaceLayout(
            m,
            w,
            *layout,
        ),
        SocketMessage::WorkspaceLayoutCustom(_, _, path)
        | SocketMessage::NamedWorkspaceLayoutCustom(_, path) =>
            ManagerOp::SetWorkspaceLayoutCustom(m, w, path.clone()),
        SocketMessage::WorkspaceLayoutRule(_, _, count, layout)
        | SocketMessage::NamedWorkspaceLayoutRule(_, count, layout) =>
            ManagerOp::AddWorkspaceLayoutRule(m, w, *count, *layout),
        SocketMessage::WorkspaceLayoutCustomRule(_, _, count, path)
        | SocketMessage::NamedWorkspaceLayoutCustomRule(_, count, path) =>
            ManagerOp::AddWorkspaceLayoutCustomRule(m, w, *count, path.clone()),
        SocketMessage::SendContainerToMonitorWorkspaceNumber(..)
        | SocketMessage::SendContainerToNamedWorkspace(_) => ManagerOp::MoveContainerToMonitor {
            monitor: m,
            to: Some(w),
            follow: false,
        },
        SocketMessage::MoveContainerToMonitorWorkspaceNumber(..)
        | SocketMessage::MoveContainerToNamedWorkspace(_) => ManagerOp::MoveContainerToMonitor {
            monitor: m,
            to: Some(w),
            follow: true,
        },
        _ => ManagerOp::ClearWorkspaceLayoutRules(m, w),
    }
}

/// The operations of a command that works at a workspace. There are none where no
/// workspace has the name.
pub open spec fn targeted(manager: ManagerView, message: SocketMessage) -> Option<
    Result<Seq<ManagerOp>, Error>,
> {
    match target_of(message) {
        Some(Target::At(m, w)) => Some(Ok(seq![op_at(message, m, w)])),
        Some(Target::Named(name)) => match manager.place_named(name@) {
            Some((m, w)) => Some(Ok(seq![op_at(message, m as usize, w as usize)])),
            None => Some(Ok(Seq::empty())),
        },
        Some(Target::Focused) => match manager.monitor() {
            Ok(monitor) => Some(
                Ok(seq![op_at(message, manager.monitors.focused, monitor.workspaces.focused)]),
            ),
            Err(error) => Some(Err(error)),
        },
        None => None,
    }
}

/// Resize a window at an edge by the usual amount, without laying the workspace out.
pub open spec fn resize_edge(
    manager: ManagerView,
    direction: OperationDirection,
    sizing: Sizing,
) -> ManagerOp {
    ManagerOp::ResizeWindow { direction, sizing, delta: manager.resize_delta, update: false }
}

/// Lay the focused workspace out.
pub open spec fn update_op(follow_focus: bool, trigger_focus: bool) -> ManagerOp {
    ManagerOp::UpdateFocusedWorkspace { follow_focus, trigger_focus }
}

/// The operations that resize the primary columns of the custom layouts of those layout
/// rules that apply to a number of containers, in the order of the rules.
pub open spec fn rule_columns(rules: Seq<(usize, Layout)>, containers: int, sizing: Sizing) -> Seq<
    ManagerOp,
>
    decreases rules.len(),
{
    if rules.len() == 0 {
        Seq::empty()
    } else {
        let before = rule_columns(rules.drop_last(), containers, sizing);
        if containers >= rules.last().0 && rules.last().1 is Custom {
            before.push(
                ManagerOp::ResizePrimaryColumn { rule: Some((rules.len() - 1) as usize), sizing },
            )
        } else {
            before
        }
    }
}

/// The operations that resize the primary column of a workspace with a custom layout. The
/// layout itself has it, unless there are layout rules.
pub open spec fn resize_columns(workspace: WorkspaceView, sizing: Sizing) -> Seq<ManagerOp> {
    if workspace.layout_rules.len() == 0 {
        seq![ManagerOp::ResizePrimaryColumn { rule: None, sizing }]
    } else {
        rule_columns(
            workspace.layout_rules,
            workspace.containers.elements.len() as int,
            sizing,
        )
    }
}

/// The operations that resize along an axis. A custom layout has a primary column that is
/// resized in the place of the window.
pub open spec fn resize_axis(manager: ManagerView, axis: Axis, sizing: Sizing) -> Result<
    Seq<ManagerOp>,
    Error,
> {
    let left = resize_edge(manager, OperationDirection::Left, sizing);
    let right = resize_edge(manager, OperationDirection::Right, sizing);
    let up = resize_edge(manager, OperationDirection::Up, sizing);
    let down = resize_edge(manager, OperationDirection::Down, sizing);
    let update = update_op(false, false);
    match manager.workspace() {
        Err(error) => Err(error),
        Ok(workspace) => Ok(
            if workspace.layout is Custom {
                if axis == Axis::Horizontal {
                    resize_columns(workspace, sizing).push(update)
                } else {
                    seq![update]
                }
            } else {
                match axis {
                    Axis::Horizontal => seq![left, right, update],
                    Axis::Vertical => seq![up, down, update],
                    Axis::HorizontalAndVertical => seq![left, right, up, down, update],
                }
            },
        ),
    }
}

/// The operation that moves the focus on in the layer of the focused workspace. Where a
/// workspace in the tiling layer is empty, the focus goes through the pinned windows.
pub open spec fn cycle_focus(manager: ManagerView, content: CycleFocusWindowContent) -> Result<
    Seq<ManagerOp>,
    Error,
> {
    let (direction, across) = match content {
        CycleFocusWindowContent::DirectionOnly(direction) => (direction, None),
        CycleFocusWindowContent::DirectionWithOverride(direction, across) => (direction, across),
    };
    match manager.workspace() {
        Err(error) => Err(error),
        Ok(workspace) => {
            let monitor = manager.monitors.elements[manager.monitors.focused as int];
            Ok(
                seq![
                    if workspace.layer == WorkspaceLayer::Floating || (workspace.empty()
                        && monitor.pinned_floating.len() > 0) {
                        ManagerOp::FocusFloatingWindowInCycleDirection(direction)
                    } else {
                        ManagerOp::FocusContainerInCycleDirection(direction, across)
                    },
                ],
            )
        },
    }
}

/// One of two operations, by the layer of the focused workspace.
pub open spec fn by_layer(
    manager: ManagerView,
    tiling: ManagerOp,
    floating: ManagerOp,
) -> Result<Seq<ManagerOp>, Error> {
    match manager.workspace() {
        Err(error) => Err(error),
        Ok(workspace) => Ok(
            seq![
                if workspace.layer == WorkspaceLayer::Tiling {
                    tiling
                } else {
                    floating
                },
            ],
        ),
    }
}

/// The operations of a command that depend on the state.
#[verifier::opaque]
pub open spec fn state_ops(manager: ManagerView, message: SocketMessage) -> Option<
    Result<Seq<ManagerOp>, Error>,
> {
    match message {
        SocketMessage::PromoteWindow(direction) => Some(
            Ok(
                seq![
                    ManagerOp::FocusContainerInDirection(direction),
                    ManagerOp::PromoteContainerToFront,
                ],
            ),
        ),
        SocketMessage::FocusWindow(direction) => Some(
            by_layer(
                manager,
                ManagerOp::FocusContainerInDirection(direction),
                ManagerOp::FocusFloatingWindowInDirection(direction),
            ),
        ),
        SocketMessage::MoveWindow(direction) => Some(
            by_layer(
                manager,
                ManagerOp::MoveContainerInDirection(direction),
                ManagerOp::MoveFloatingWindowInDirection(direction),
            ),
        ),
        SocketMessage::CycleFocusWindow(content) => Some(cycle_focus(manager, content)),
        SocketMessage::PreselectDirection(direction) => Some(
            match manager.workspace() {
                Err(error) => Err(error),
                Ok(workspace) => Ok(
                    if workspace.preselected_container_idx is None && workspace.layer
                        == WorkspaceLayer::Tiling {
                        seq![
                            ManagerOp::PreselectContainerInDirection(direction),
                            ManagerOp::LayOutFocusedWorkspace,
                        ]
                    } else {
                        Seq::empty()
                    },
                ),
            },
        ),
        SocketMessage::CancelPreselect => Some(
            match manager.workspace() {
                Err(error) => Err(error),
                Ok(_) => Ok(seq![ManagerOp::CancelPreselect, ManagerOp::LayOutFocusedWorkspace]),
            },
        ),
        SocketMessage::LayoutRatios => Some(
            match manager.workspace() {
                Err(error) => Err(error),
                Ok(_) => Ok(seq![ManagerOp::SetLayoutRatios, update_op(false, false)]),
            },
        ),
        SocketMessage::ResizeWindowEdge(direction, sizing) => Some(
            Ok(
                seq![
                    ManagerOp::ResizeWindow {
                        direction,
                        sizing,
                        delta: manager.resize_delta,
                        update: true,
                    },
                ],
            ),
        ),
        SocketMessage::ResizeWindowAxis(axis, sizing) => Some(resize_axis(manager, axis, sizing)),
        _ => targeted(manager, message),
    }
}

/// The steps that carry operations out.
pub open spec fn op_steps(ops: Seq<ManagerOp>) -> Seq<StepView> {
    ops.map_values(|op: ManagerOp| StepView::Manage(op))
}

fn plan_resize_columns(workspace: &Workspace, sizing: Sizing, screen: &mut Screen)
    ensures
        final(screen)@ == old(screen)@.followed_by(
            op_steps(resize_columns(workspace@, sizing)),
        ),
{
    let ghost before = screen@.steps;
    let ghost rules = workspace.layout_rules@;
    if workspace.layout_rules.len() == 0 {
        screen.manage(ManagerOp::ResizePrimaryColumn { rule: None, sizing });
        assert(screen@.steps =~= before + op_steps(resize_columns(workspace@, sizing)));
        return;
    }
    let containers: usize = workspace.containers.elements.len();
    let mut i: usize = 0;
    assert(rules.take(0) =~= Seq::empty());
    assert(before + op_steps(Seq::empty()) =~= before);
    while i < workspace.layout_rules.len()
        invariant
            rules == workspace.layout_rules@,
            i <= rules.len(),
            screen@ == (ScreenView {
                steps: before + op_steps(
                    rule_columns(rules.take(i as int), containers as int, sizing),
                ),
                ..old(screen)@
            }),
        decreases rules.len() - i,
    {
        let ghost ops = rule_columns(rules.take(i as int), containers as int, sizing);
        let (from, layout) = workspace.layout_rules[i];
        assert(rules.take(i + 1).drop_last() =~= rules.take(i as int));
        if containers >= from && matches!(layout, Layout::Custom(_)) {
            let ghost op = ManagerOp::ResizePrimaryColumn { rule: Some(i), sizing };
            screen.manage(ManagerOp::ResizePrimaryColumn { rule: Some(i), sizing });
            assert(op_steps(ops.push(op)) =~= op_steps(ops).push(StepView::Manage(op)));
            assert(screen@.steps =~= before + op_steps(ops.push(op)));
        }
        i = i + 1;
    }
    assert(rules.take(i as int) =~= rules);
}

impl WindowManager {
    fn plan_by_layer(&self, tiling: ManagerOp, floating: ManagerOp, screen: &mut Screen) -> (r:
        Result<(), Error>)
        ensures
            match by_layer(self@, tiling, floating) {
                Ok(ops) => r is Ok && final(screen)@ == old(screen)@.followed_by(op_steps(ops)),
                Err(error) => r == Err::<(), Error>(error) && final(screen)@ == old(screen)@,
            },
    {
        let ghost before = screen@.steps;
        match self.focused_workspace() {
            Ok(workspace) => {
                match workspace.layer {
                    WorkspaceLayer::Tiling => {
                        screen.manage(tiling);
                    },
                    WorkspaceLayer::Floating => {
                        screen.manage(floating);
                    },
                }
                assert(screen@.steps =~= before + op_steps(by_layer(self@, tiling, floating)->Ok_0));
                Ok(())
            },
            Err(error) => Err(error),
        }
    }

    fn plan_cycle_focus(&self, content: CycleFocusWindowContent, screen: &mut Screen) -> (r: Result<
        (),
        Error,
    >)
        ensures
            match cycle_focus(self@, content) {
                Ok(ops) => r is Ok && final(screen)@ == old(screen)@.followed_by(op_steps(ops)),
                Err(error) => r == Err::<(), Error>(error) && final(screen)@ == old(screen)@,
            },
    {
        let ghost before = screen@.steps;
        let (direction, across) = match content {
            CycleFocusWindowContent::DirectionOnly(direction) => (direction, None),
            CycleFocusWindowContent::DirectionWithOverride(direction, across) => (
                direction,
                across,
            ),
        };
        let (layer, empty) = match self.focused_workspace() {
            Ok(workspace) => (workspace.layer, workspace.is_empty()),
            Err(error) => {
                return Err(error);
            },
        };
        let has_pins = match self.focused_monitor() {
            Some(monitor) => monitor.pinned_floating.len() > 0,
            None => false,
        };
        if layer == WorkspaceLayer::Floating || (empty && has_pins) {
            screen.manage(ManagerOp::FocusFloatingWindowInCycleDirection(direction));
        } else {
            screen.manage(ManagerOp::FocusContainerInCycleDirection(direction, across));
        }
        assert(screen@.steps =~= before + op_steps(cycle_focus(self@, content)->Ok_0));
        Ok(())
    }

    fn plan_resize_edge(&self, direction: OperationDirection, sizing: Sizing, screen: &mut Screen)
        ensures
            final(screen)@ == old(screen)@.managing(resize_edge(self@, direction, sizing)),
    {
        screen.manage(
            ManagerOp::ResizeWindow {
                direction,
                sizing,
                delta: self.resize_delta,
                update: false,
            },
        );
    }

    fn plan_resize_axis(&self, axis: Axis, sizing: Sizing, screen: &mut Screen) -> (r: Result<
        (),
        Error,
    >)
        ensures
            match resize_axis(self@, axis, sizing) {
                Ok(ops) => r is Ok && final(screen)@ == old(screen)@.followed_by(op_steps(ops)),
                Err(error) => r == Err::<(), Error>(error) && final(screen)@ == old(screen)@,
            },
    {
        let ghost before = screen@.steps;
        let workspace = match self.focused_workspace() {
            Ok(workspace) => workspace,
            Err(error) => {
                return Err(error);
            },
        };
        if matches!(workspace.layout, Layout::Custom(_)) {
            if axis == Axis::Horizontal {
                plan_resize_columns(workspace, sizing, screen);
            }
        } else {
            if axis != Axis::Vertical {
                self.plan_resize_edge(OperationDirection::Left, sizing, screen);
                self.plan_resize_edge(OperationDirection::Right, sizing, screen);
            }
            if axis != Axis::Horizontal {
                self.plan_resize_edge(OperationDirection::Up, sizing, screen);
                self.plan_resize_edge(OperationDirection::Down, sizing, screen);
            }
        }
        screen.update(false, false);
        assert(screen@.steps =~= before + op_steps(resize_axis(self@, axis, sizing)->Ok_0));
        Ok(())
    }

    fn plan_targeted(&self, message: &SocketMessage, screen: &mut Screen) -> (r: Option<
        Result<(), Error>,
    >)
        ensures
            match targeted(self@, *message) {
                Some(Ok(ops)) => {
                    &&& r matches Some(Ok(_))
                    &&& final(screen)@ == old(screen)@.followed_by(op_steps(ops))
                },
                Some(Err(error)) => {
                    &&& r == Some(Err::<(), Error>(error))
                    &&& final(screen)@ == old(screen)@
                },
                None => r is None && final(screen)@ == old(screen)@,
            },
    {
        let ghost before = screen@.steps;
        assert(before + op_steps(Seq::empty()) =~= before);
        let at = match target(message) {
            Some(Target::At(m, w)) => Some((m, w)),
            Some(Target::Named(name)) => self.monitor_workspace_index_by_name(name.as_str()),
            Some(Target::Focused) => match self.focused_monitor() {
                Some(monitor) => Some(
                    (self.focused_monitor_idx(), monitor.focused_workspace_idx()),
                ),
                None => {
                    return Some(Err(Error::NoMonitor));
                },
            },
            None => {
                return None;
            },
        };
        match at {
            Some((m, w)) => {
                screen.manage(operation_at(message, m, w));
                assert(screen@.steps =~= before + op_steps(seq![op_at(*message, m, w)]));
            },
            None => {},
        }
        Some(Ok(()))
    }

    /// Plan a command whose operations depend on the state.
    pub(crate) fn plan_state_ops(&self, message: &SocketMessage, screen: &mut Screen) -> (r: Option<
        Result<(), Error>,
    >)
        ensures
            match state_ops(self@, *message) {
                Some(Ok(ops)) => {
                    &&& r matches Some(Ok(_))
                    &&& final(screen)@ == old(screen)@.followed_by(op_steps(ops))
                },
                Some(Err(error)) => {
                    &&& r == Some(Err::<(), Error>(error))
                    &&& final(screen)@ == old(screen)@
                },
                None => r is None && final(screen)@ == old(screen)@,
            },
    {
        proof {
            reveal(state_ops);
        }
        let ghost before = screen@.steps;
        assert(before + op_steps(Seq::empty()) =~= before);
        match message {
            SocketMessage::PromoteWindow(direction) => {
                screen.manage(ManagerOp::FocusContainerInDirection(*direction));
                screen.manage(ManagerOp::PromoteContainerToFront);
                assert(screen@.steps =~= before + op_steps(state_ops(self@, *message)->0->Ok_0));
                Some(Ok(()))
            },
            SocketMessage::FocusWindow(direction) => Some(
                self.plan_by_layer(
                    ManagerOp::FocusContainerInDirection(*direction),
                    ManagerOp::FocusFloatingWindowInDirection(*direction),
                    screen,
                ),
            ),
            SocketMessage::MoveWindow(direction) => Some(
                self.plan_by_layer(
                    ManagerOp::MoveContainerInDirection(*direction),
                    ManagerOp::MoveFloatingWindowInDirection(*direction),
                    screen,
                ),
            ),
            SocketMessage::CycleFocusWindow(content) => Some(
                self.plan_cycle_focus(*content, screen),
            ),
            SocketMessage::PreselectDirection(direction) => {
                let selects = match self.focused_workspace() {
                    Ok(workspace) => workspace.preselected_container_idx.is_none()
                        && workspace.layer == WorkspaceLayer::Tiling,
                    Err(error) => {
                        return Some(Err(error));
                    },
                };
                if selects {
                    screen.manage(ManagerOp::PreselectContainerInDirection(*direction));
                    screen.manage(ManagerOp::LayOutFocusedWorkspace);
                    assert(screen@.steps =~= before + op_steps(
                        state_ops(self@, *message)->0->Ok_0,
                    ));
                }
                Some(Ok(()))
            },
            SocketMessage::CancelPreselect => {
                match self.focused_workspace() {
                    Ok(_) => {},
                    Err(error) => {
                        return Some(Err(error));
                    },
                }
                screen.manage(ManagerOp::CancelPreselect);
                screen.manage(ManagerOp::LayOutFocusedWorkspace);
                assert(screen@.steps =~= before + op_steps(state_ops(self@, *message)->0->Ok_0));
                Some(Ok(()))
            },
            SocketMessage::LayoutRatios => {
                match self.focused_workspace() {
                    Ok(_) => {},
                    Err(error) => {
                        return Some(Err(error));
                    },
                }
                screen.manage(ManagerOp::SetLayoutRatios);
                screen.update(false, false);
                assert(screen@.steps =~= before + op_steps(state_ops(self@, *message)->0->Ok_0));
                Some(Ok(()))
            },
            SocketMessage::ResizeWindowEdge(direction, sizing) => {
                screen.manage(
                    ManagerOp::ResizeWindow {
                        direction: *direction,
                        sizing: *sizing,
                        delta: self.resize_delta,
                        update: true,
                    },
                );
                assert(screen@.steps =~= before + op_steps(state_ops(self@, *message)->0->Ok_0));
                Some(Ok(()))
            },
            SocketMessage::ResizeWindowAxis(axis, sizing) => Some(
                self.plan_resize_axis(*axis, *sizing, screen),
            ),
            _ => self.plan_targeted(message, screen),
        }
    }
}

/// Plan a command that is one operation.
pub(crate) fn plan_plain_op(message: &SocketMessage, screen: &mut Screen) -> (r: bool)
    ensures
        match plain_op(*message) {
            Some(op) => r && final(screen)@ == old(screen)@.managing(op),
            None => !r && final(screen)@ == old(screen)@,
        },
{
    match plain_operation(message) {
        Some(op) => {
            screen.manage(op);
            true
        },
        None => false,
    }
}

proof fn columns_of_rules(
    rules: Seq<(usize, Layout)>,
    containers: int,
    sizing: Sizing,
    rule: usize,
)
    requires
        rules.len() <= usize::MAX,
    ensures
        rule_columns(rules, containers, sizing).contains(
            ManagerOp::ResizePrimaryColumn { rule: Some(rule), sizing },
        ) == (rule < rules.len() && containers >= rules[rule as int].0
            && rules[rule as int].1 is Custom),
    decreases rules.len(),
{
    if rules.len() > 0 {
        columns_of_rules(rules.drop_last(), containers, sizing, rule);
        let before = rule_columns(rules.drop_last(), containers, sizing);
        let all = rule_columns(rules, containers, sizing);
        let op = ManagerOp::ResizePrimaryColumn { rule: Some(rule), sizing };
        if before.contains(op) {
            let i = choose|i: int| 0 <= i < before.len() && before[i] == op;
            assert(all[i] == op);
        }
        if all.len() > before.len() {
            assert(all[before.len() as int] == all.last());
        }
        if all.contains(op) && !before.contains(op) {
            let i = choose|i: int| 0 <= i < all.len() && all[i] == op;
            if i < before.len() {
                assert(before[i] == op);
            }
        }
    }
}

/// Where a workspace has layout rules, the primary column of a rule is resized exactly
/// where the workspace has as many containers as the rule asks for and its layout is a
/// custom one. Without layout rules it is the own layout of the workspace, and nothing
/// else.
pub proof fn only_layouts_that_apply_are_resized(
    workspace: WorkspaceView,
    sizing: Sizing,
    rule: usize,
)
    requires
        workspace.layout_rules.len() <= usize::MAX,
    ensures
        workspace.layout_rules.len() == 0 ==> resize_columns(workspace, sizing) == seq![
            ManagerOp::ResizePrimaryColumn { rule: None, sizing },
        ],
        workspace.layout_rules.len() > 0 ==> resize_columns(workspace, sizing).contains(
            ManagerOp::ResizePrimaryColumn { rule: Some(rule), sizing },
        ) == (rule < workspace.layout_rules.len() && workspace.containers.elements.len()
            >= workspace.layout_rules[rule as int].0
            && workspace.layout_rules[rule as int].1 is Custom),
{
    columns_of_rules(
        workspace.layout_rules,
        workspace.containers.elements.len() as int,
        sizing,
        rule,
    );
}

} // verus!
