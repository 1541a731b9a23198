//! Where the focus is, and what stays as it is while a workspace changes.

use vstd::prelude::*;

use crate::plan::EventStage;
use crate::plan::Resume;
use crate::process_event;
use crate::turn::ContextView;
use crate::turn::Turn;
use crate::window::ScreenView;
use crate::window_manager::ManagerView;
use crate::window_manager_event::WindowManagerEvent;
use crate::workspace::WorkspaceView;

verus! {

/// Whether there is a focused workspace on a focused monitor.
pub open spec fn has_focus(manager: ManagerView) -> bool {
    let m = manager.monitors.focused as int;
    m < manager.monitors.elements.len() && manager.monitors.elements[m].workspaces.focused
        < manager.monitors.elements[m].workspaces.elements.len()
}

/// The focused workspace of the focused monitor.
pub open spec fn focused_workspace(manager: ManagerView) -> WorkspaceView {
    let monitor = manager.monitors.elements[manager.monitors.focused as int];
    monitor.workspaces.elements[monitor.workspaces.focused as int]
}

/// Whether two states differ at most in the focused workspace: the monitors, the other
/// workspaces, the pinned windows and the focus are the same.
pub open spec fn same_but_focused_workspace(before: ManagerView, after: ManagerView) -> bool {
    let m = before.monitors.focused as int;
    let old_monitors = before.monitors.elements;
    let new_monitors = after.monitors.elements;
    &&& after.monitors.focused == before.monitors.focused
    &&& new_monitors.len() == old_monitors.len()
    &&& forall|i: int|
        0 <= i < old_monitors.len() && i != m ==> #[trigger] new_monitors[i] == old_monitors[i]
    &&& new_monitors[m].workspaces.focused == old_monitors[m].workspaces.focused
    &&& new_monitors[m].workspaces.elements.len() == old_monitors[m].workspaces.elements.len()
    &&& forall|w: int|
        0 <= w < old_monitors[m].workspaces.elements.len() && w
            != old_monitors[m].workspaces.focused
            ==> #[trigger] new_monitors[m].workspaces.elements[w]
            == old_monitors[m].workspaces.elements[w]
    &&& new_monitors[m].pinned_floating == old_monitors[m].pinned_floating
    &&& new_monitors[m].pinned_always_on_top == old_monitors[m].pinned_always_on_top
    &&& new_monitors[m].last_focused_workspace == old_monitors[m].last_focused_workspace
    &&& after == (ManagerView { monitors: after.monitors, ..before })
}

/// The turn in which the manager goes on with an event.
pub open spec fn turn_at(
    manager: ManagerView,
    screen: ScreenView,
    context: ContextView,
    event: WindowManagerEvent,
    stage: EventStage,
) -> Turn {
    process_event::resumed(manager, screen, context, Resume::Event(stage, event))
}

/// The focused monitor and its focused workspace are the ones at the positions that have
/// the focus, where there are such.
pub proof fn the_focus_is_a_position(manager: ManagerView)
    ensures
        manager.monitor() is Ok <==> manager.monitors.focused < manager.monitors.elements.len(),
        manager.monitor() is Ok ==> manager.monitor()->Ok_0
            == manager.monitors.elements[manager.monitors.focused as int],
        manager.workspace() is Ok <==> has_focus(manager),
        manager.workspace() is Ok ==> manager.workspace()->Ok_0 == focused_workspace(manager),
{
}

/// Replacing the focused workspace changes nothing else.
pub proof fn replacing_changes_nothing_else(manager: ManagerView, workspace: WorkspaceView)
    requires
        has_focus(manager),
    ensures
        focused_workspace(manager.with_workspace(workspace)) == workspace,
        has_focus(manager.with_workspace(workspace)),
        same_but_focused_workspace(manager, manager.with_workspace(workspace)),
{
}

} // verus!
