//! Moving windows from one workspace of a monitor to another.

use vstd::prelude::*;

use crate::container;
use crate::container::Container;
use crate::container::ContainerView;
use crate::error::Error;
use crate::geometry::OperationDirection;
use crate::monitor;
use crate::monitor::Monitor;
use crate::monitor::MonitorView;
use crate::window::Screen;
use crate::window::ScreenView;
use crate::window::Window;
use crate::workspace;
use crate::workspace::Workspace;
use crate::workspace::WorkspaceLayer;
use crate::workspace::WorkspaceView;

verus! {

/// What comes of a move on a monitor: the monitor, what is on the screen and what is asked
/// of the window system, and whether it failed.
pub struct Move {
    pub monitor: MonitorView,
    pub screen: ScreenView,
    pub result: Result<(), Error>,
}

impl WorkspaceView {
    /// The container that leaves when the focused one is moved: of a stack only the
    /// focused window, in a container of its own.
    pub open spec fn leaving_container(self) -> ContainerView {
        let focused = self.containers.elements[self.containers.focused as int];
        if focused.windows.elements.len() > 1 {
            container::single(focused.front()->0)
        } else {
            focused
        }
    }

    /// The workspace once its focused container has left.
    pub open spec fn left_behind(self) -> WorkspaceView {
        let idx = self.containers.focused as int;
        let focused = self.containers.elements[idx];
        if focused.windows.elements.len() > 1 {
            WorkspaceView {
                containers: self.containers.updated(idx, focused.without_front()),
                ..self
            }
        } else {
            self.without_focused_container()
        }
    }

    /// The workspace once a floating window has left.
    pub open spec fn left_by_float(self, hwnd: isize) -> WorkspaceView {
        WorkspaceView {
            floating_windows: self.floating_windows.with(
                self.floating_windows.elements.remove(
                    container::first_position(self.floating_windows.elements, hwnd),
                ),
            ),
            ..self
        }
    }

    /// The workspace once a floating window has come to it, with the floating layer on
    /// top.
    pub open spec fn joined_by_float(self, hwnd: isize) -> WorkspaceView {
        WorkspaceView {
            layer: WorkspaceLayer::Floating,
            layer_lock: false,
            ..self.floating(Window { hwnd })
        }
    }

    /// Why the focused container cannot be moved.
    pub open spec fn stuck(self) -> Option<Error> {
        match self.containers.focused_element() {
            None => Some(Error::NoContainer),
            Some(container) => if container.windows.elements.len() > 1 && container.front()
                is None {
                Some(Error::NoWindow)
            } else {
                None
            },
        }
    }

    /// Whether the workspace does not know where its monocle container belongs.
    pub open spec fn lost_monocle(self) -> bool {
        self.monocle_container is Some && self.monocle_container_restore_idx is None
    }
}

impl MonitorView {
    /// The focused workspace, where there is one.
    pub open spec fn current(self) -> WorkspaceView {
        self.workspaces.elements[self.workspaces.focused as int]
    }

    /// The monitor with another focused workspace.
    pub open spec fn with_current(self, workspace: WorkspaceView) -> MonitorView {
        self.with_workspace(self.workspaces.focused as int, workspace)
    }

    /// The monitor once a floating window has moved to the workspace at an index.
    pub open spec fn moving_float(self, target: usize, hwnd: isize) -> MonitorView {
        let ready = self.with_current(self.current().left_by_float(hwnd)).extending(target + 1);
        ready.with_workspace(
            target as int,
            ready.workspaces.elements[target as int].joined_by_float(hwnd),
        )
    }

    /// The monitor once the focused container has left for the workspace at an index.
    pub open spec fn container_underway(self, target: usize) -> MonitorView {
        self.with_current(self.current().left_behind()).extending(target + 1)
    }

    /// The monitor once the focused container has moved to the workspace at an index.
    pub open spec fn moving_container(
        self,
        target: usize,
        direction: Option<OperationDirection>,
    ) -> MonitorView {
        let ready = self.container_underway(target);
        ready.with_workspace(
            target as int,
            ready.workspaces.elements[target as int].receiving(
                self.current().leaving_container(),
                direction,
            ),
        )
    }

    /// The workspace to which a container is underway, before it arrives.
    pub open spec fn destination(self, target: usize) -> WorkspaceView {
        self.container_underway(target).workspaces.elements[target as int]
    }

    /// The monitor once the foreground window, where it floats on the focused workspace,
    /// or else the focused container has moved to the workspace at an index.
    pub open spec fn moving(
        self,
        target: usize,
        follow: bool,
        direction: Option<OperationDirection>,
        foreground: isize,
    ) -> MonitorView {
        let there = if self.current().floats(foreground) {
            self.moving_float(target, foreground)
        } else {
            self.moving_container(target, direction)
        };
        if follow {
            there.focusing(target)
        } else {
            there
        }
    }

    /// What comes of moving the foreground window, where it floats on the focused workspace,
    /// and else the focused container to the workspace at an index.
    pub open spec fn sending(
        self,
        screen: ScreenView,
        target: usize,
        follow: bool,
        direction: Option<OperationDirection>,
    ) -> Move {
        let foreground = screen.desktop.foreground;
        if foreground matches Some(hwnd) && self.pinned_floating.contains(hwnd) {
            Move { monitor: self, screen, result: Ok(()) }
        } else {
            match self.immovable(foreground) {
                Some(error) => Move { monitor: self, screen, result: Err(error) },
                None => {
                    let floats = self.current().floats(foreground->0);
                    let destination = self.destination(target);
                    let lost = !floats && destination.lost_monocle();
                    Move {
                        monitor: if lost {
                            self.container_underway(target)
                        } else {
                            self.moving(target, follow, direction, foreground->0)
                        },
                        screen: if !floats && destination.monocle_container is Some {
                            workspace::shown_again(screen, destination)
                        } else {
                            screen
                        },
                        result: if lost {
                            Err(Error::NoMonocleRestoreIndex)
                        } else {
                            Ok(())
                        },
                    }
                },
            }
        }
    }

    /// Why a move fails before anything is moved.
    pub open spec fn immovable(self, foreground: Option<isize>) -> Option<Error> {
        match foreground {
            None => Some(Error::WindowSystem),
            Some(hwnd) => match self.workspaces.focused_element() {
                None => Some(Error::NoWorkspace),
                Some(workspace) => if workspace.maximized_window is Some {
                    Some(Error::MaximizedWindow)
                } else if workspace.floats(hwnd) {
                    None
                } else {
                    workspace.stuck()
                },
            },
        }
    }
}

impl Workspace {
    /// Take the focused container out, or of a stack only the focused window.
    pub fn take_container_to_move(&mut self) -> (r: Result<Container, Error>)
        ensures
            match r {
                Ok(container) => old(self)@.stuck() is None && container@ == old(
                    self)@.leaving_container() && final(self)@ == old(self)@.left_behind(),
                Err(error) => old(self)@.stuck() == Some(error) && final(self)@ == old(self)@,
            },
    {
        let focused: usize = self.containers.focused;
        if focused >= self.containers.elements.len() {
            return Err(Error::NoContainer);
        }
        let is_stack = self.containers.elements[focused].windows.elements.len() > 1;
        if is_stack {
            match self.new_container_for_focused_window() {
                Ok(()) => {},
                Err(error) => {
                    return Err(error);
                },
            }
        }
        let ghost ready = self@.containers;
        match self.remove_focused_container() {
            Some(container) => {
                if is_stack {
                    assert(ready.elements[focused + 1] == container@);
                    assert(self@.containers.elements
                        =~= old(self)@.left_behind().containers.elements);
                }
                Ok(container)
            },
            None => Err(Error::NoContainer),
        }
    }
}

impl Monitor {
    /// Move the foreground window, where it floats on the focused workspace, and else the
    /// focused container to the workspace at an index, which is created where there is
    /// none. A pinned window is on every workspace already.
    ///
    /// Where the target does not know to which index its monocle container belongs, the
    /// container that was on its way is lost.
    pub fn move_container_to_workspace(
        &mut self,
        target_workspace_idx: usize,
        follow: bool,
        direction: Option<OperationDirection>,
        screen: &mut Screen,
    ) -> (r: Result<(), Error>)
        requires
            target_workspace_idx < usize::MAX,
        ensures
            (Move { monitor: final(self)@, screen: final(screen)@, result: r }) == old(
                self)@.sending(old(screen)@, target_workspace_idx, follow, direction),
    {
        let foreground_hwnd: isize = match screen.desktop.foreground {
            Some(hwnd) => hwnd,
            None => {
                return Err(Error::WindowSystem);
            },
        };
        if self.is_pinned(foreground_hwnd) {
            return Ok(());
        }
        let focused: usize = self.workspaces.focused;
        if focused >= self.workspaces.elements.len() {
            return Err(Error::NoWorkspace);
        }
        if self.workspaces.elements[focused].maximized_window.is_some() {
            return Err(Error::MaximizedWindow);
        }
        if self.workspaces.elements[focused].contains_float(foreground_hwnd) {
            self.move_float(target_workspace_idx, foreground_hwnd);
        } else {
            match self.move_focused_container(target_workspace_idx, direction, screen) {
                Ok(()) => {},
                Err(error) => {
                    return Err(error);
                },
            }
        }
        if follow {
            let _ = self.focus_workspace(target_workspace_idx);
        }
        Ok(())
    }

    fn move_float(&mut self, target: usize, hwnd: isize)
        requires
            target < usize::MAX,
            old(self)@.workspaces.focused_element() is Some,
            old(self)@.current().floats(hwnd),
        ensures
            final(self)@ == old(self)@.moving_float(target, hwnd),
    {
        let focused: usize = self.workspaces.focused;
        let ghost before = self@;
        match container::position_in(
            &self.workspaces.elements[focused].floating_windows.elements,
            hwnd,
        ) {
            Some(idx) => {
                proof {
                    container::first_is_first(
                        before.current().floating_windows.elements,
                        idx as int,
                        hwnd,
                    );
                }
                let window = self.workspaces.elements[focused].floating_windows.elements.remove(
                    idx,
                );
                assert(self@ =~= before.with_current(before.current().left_by_float(hwnd)));
                self.ensure_workspace_count(target + 1);
                let ghost ready = self@;
                self.workspaces.elements[target].floating_windows.elements.push(window);
                self.workspaces.elements[target].layer = WorkspaceLayer::Floating;
                self.workspaces.elements[target].layer_lock = false;
                assert(self@ =~= ready.with_workspace(
                    target as int,
                    ready.workspaces.elements[target as int].joined_by_float(hwnd),
                ));
            },
            None => {},
        }
    }

    fn move_focused_container(
        &mut self,
        target: usize,
        direction: Option<OperationDirection>,
        screen: &mut Screen,
    ) -> (r: Result<(), Error>)
        requires
            target < usize::MAX,
            old(self)@.workspaces.focused_element() is Some,
        ensures
            match old(self)@.current().stuck() {
                Some(error) => r == Err::<(), Error>(error) && final(self)@ == old(self)@
                    && final(screen)@ == old(screen)@,
                None => {
                    let destination = old(self)@.destination(target);
                    &&& final(screen)@ == (if destination.monocle_container is Some {
                        workspace::shown_again(old(screen)@, destination)
                    } else {
                        old(screen)@
                    })
                    &&& if destination.lost_monocle() {
                        r == Err::<(), Error>(Error::NoMonocleRestoreIndex) && final(self)@
                            == old(self)@.container_underway(target)
                    } else {
                        r is Ok && final(self)@ == old(self)@.moving_container(target, direction)
                    }
                },
            },
    {
        let focused: usize = self.workspaces.focused;
        let ghost before = self@;
        let taken = self.workspaces.elements[focused].take_container_to_move();
        let container = match taken {
            Ok(container) => container,
            Err(error) => {
                assert(self@ =~= before);
                return Err(error);
            },
        };
        assert(self@ =~= before.with_current(before.current().left_behind()));
        self.ensure_workspace_count(target + 1);
        let ghost ready = self@;
        match self.workspaces.elements[target].receive_container(container, direction, screen) {
            Ok(()) => {
                assert(self@ =~= before.moving_container(target, direction));
                Ok(())
            },
            Err(error) => {
                assert(self@ =~= ready);
                Err(error)
            },
        }
    }
}

/// Whether a workspace other than the one at an index holds a window.
spec fn others_have(workspaces: Seq<WorkspaceView>, idx: int, hwnd: isize) -> bool {
    exists|i: int|
        0 <= i < workspaces.len() && i != idx && (#[trigger] workspaces[i]).has(hwnd)
}

proof fn one_changes(workspaces: Seq<WorkspaceView>, idx: int, workspace: WorkspaceView, hwnd: isize)
    requires
        0 <= idx < workspaces.len(),
    ensures
        monitor::any_has(workspaces, hwnd) == (workspaces[idx].has(hwnd) || others_have(
            workspaces,
            idx,
            hwnd,
        )),
        monitor::any_has(workspaces.update(idx, workspace), hwnd) == (workspace.has(hwnd)
            || others_have(workspaces, idx, hwnd)),
{
    let after = workspaces.update(idx, workspace);
    if monitor::any_has(workspaces, hwnd) {
        let i = choose|i: int| 0 <= i < workspaces.len() && (#[trigger] workspaces[i]).has(hwnd);
        assert(workspaces[i].has(hwnd));
    }
    if others_have(workspaces, idx, hwnd) {
        let i = choose|i: int|
            0 <= i < workspaces.len() && i != idx && (#[trigger] workspaces[i]).has(hwnd);
        assert(after[i].has(hwnd));
    }
    if monitor::any_has(after, hwnd) {
        let i = choose|i: int| 0 <= i < after.len() && (#[trigger] after[i]).has(hwnd);
        if i != idx {
            assert(workspaces[i].has(hwnd));
        }
    }
    if workspace.has(hwnd) {
        assert(after[idx].has(hwnd));
    }
}

proof fn extending_keeps_windows(workspaces: Seq<WorkspaceView>, len: int, hwnd: isize)
    ensures
        monitor::any_has(monitor::extended(workspaces, len), hwnd) == monitor::any_has(
            workspaces,
            hwnd,
        ),
{
    let after = monitor::extended(workspaces, len);
    if monitor::any_has(workspaces, hwnd) {
        let i = choose|i: int| 0 <= i < workspaces.len() && (#[trigger] workspaces[i]).has(hwnd);
        assert(after[i].has(hwnd));
    }
    if monitor::any_has(after, hwnd) {
        let i = choose|i: int| 0 <= i < after.len() && (#[trigger] after[i]).has(hwnd);
        if i < workspaces.len() {
            assert(workspaces[i].has(hwnd));
        } else {
            assert(after[i] == workspace::fresh());
        }
    }
}

proof fn windows_after_removal(windows: Seq<Window>, at: int, hwnd: isize)
    requires
        0 <= at < windows.len(),
    ensures
        container::holds(windows, hwnd) == (container::holds(windows.remove(at), hwnd)
            || windows[at].hwnd == hwnd),
{
    let left = windows.remove(at);
    if container::holds(windows, hwnd) {
        let i = choose|i: int| 0 <= i < windows.len() && (#[trigger] windows[i]).hwnd == hwnd;
        if i < at {
            assert(left[i].hwnd == hwnd);
        } else if i > at {
            assert(left[i - 1].hwnd == hwnd);
        }
    }
    if container::holds(left, hwnd) {
        let i = choose|i: int| 0 <= i < left.len() && (#[trigger] left[i]).hwnd == hwnd;
        if i < at {
            assert(windows[i].hwnd == hwnd);
        } else {
            assert(windows[i + 1].hwnd == hwnd);
        }
    }
}

proof fn containers_after_insertion(
    containers: Seq<ContainerView>,
    at: int,
    container: ContainerView,
    hwnd: isize,
)
    requires
        0 <= at <= containers.len(),
    ensures
        workspace::tiled(containers.insert(at, container), hwnd) == (workspace::tiled(
            containers,
            hwnd,
        ) || container.has(hwnd)),
{
    let all = containers.insert(at, container);
    if workspace::tiled(containers, hwnd) {
        let i = choose|i: int|
            0 <= i < containers.len() && (#[trigger] containers[i]).has(hwnd);
        if i < at {
            assert(all[i].has(hwnd));
        } else {
            assert(all[i + 1].has(hwnd));
        }
    }
    if container.has(hwnd) {
        assert(all[at].has(hwnd));
    }
    if workspace::tiled(all, hwnd) {
        let i = choose|i: int| 0 <= i < all.len() && (#[trigger] all[i]).has(hwnd);
        if i < at {
            assert(containers[i].has(hwnd));
        } else if i > at {
            assert(containers[i - 1].has(hwnd));
        }
    }
}

proof fn container_leaves(workspace: WorkspaceView, hwnd: isize)
    requires
        workspace.stuck() is None,
    ensures
        workspace.has(hwnd) == (workspace.left_behind().has(hwnd)
            || workspace.leaving_container().has(hwnd)),
{
    let focused = workspace.containers.focused as int;
    let all = workspace.containers.elements;
    let rest = all.remove(focused);
    assert(all =~= rest.insert(focused, all[focused]));
    containers_after_insertion(rest, focused, all[focused], hwnd);
    if all[focused].windows.elements.len() > 1 {
        let stack = all[focused];
        let window = stack.front()->0;
        let thinner = stack.without_front();
        let after = workspace.left_behind().containers.elements;
        assert(after =~= rest.insert(focused, thinner));
        containers_after_insertion(rest, focused, thinner, hwnd);
        windows_after_removal(stack.windows.elements, stack.windows.focused as int, hwnd);
        assert(container::single(window).windows.elements =~= Seq::<Window>::empty().push(window));
        container::pushed(Seq::<Window>::empty(), window, hwnd);
    }
}

proof fn container_arrives(
    workspace: WorkspaceView,
    container: ContainerView,
    direction: Option<OperationDirection>,
    hwnd: isize,
)
    requires
        !workspace.lost_monocle(),
    ensures
        workspace.receiving(container, direction).has(hwnd) == (workspace.has(hwnd)
            || container.has(hwnd)),
{
    let ready = if workspace.monocle_container is Some {
        workspace.returning_monocle()
    } else {
        workspace
    };
    if workspace.monocle_container is Some {
        containers_after_insertion(
            workspace.containers.elements,
            workspace.containers.clamped(workspace.monocle_container_restore_idx->0 as int),
            workspace.monocle_container->0,
            hwnd,
        );
    }
    containers_after_insertion(
        ready.containers.elements,
        ready.entry(direction),
        container,
        hwnd,
    );
}

/// Focusing a workspace leaves every window of the monitor where it is, and there is a
/// workspace at the index that is focused.
pub proof fn focusing_keeps_windows(monitor: MonitorView, idx: usize, hwnd: isize)
    requires
        idx < usize::MAX,
    ensures
        monitor::any_has(monitor.focusing(idx).workspaces.elements, hwnd) == monitor::any_has(
            monitor.workspaces.elements,
            hwnd,
        ),
        monitor.focusing(idx).workspaces.focused_element() is Some,
{
    let ready = monitor::extended(monitor.workspaces.elements, idx + 1);
    let name = monitor.configured_name(idx);
    extending_keeps_windows(monitor.workspaces.elements, idx + 1, hwnd);
    one_changes(ready, idx as int, monitor::named(ready[idx as int], name), hwnd);
}

/// A move within a monitor loses no window and brings none: what was on one of the
/// workspaces before is on one of them afterwards.
pub proof fn moving_keeps_windows(
    monitor: MonitorView,
    target: usize,
    follow: bool,
    direction: Option<OperationDirection>,
    foreground: isize,
    hwnd: isize,
)
    requires
        target < usize::MAX,
        monitor.immovable(Some(foreground)) is None,
        !monitor.current().floats(foreground) ==> !monitor.destination(target).lost_monocle(),
    ensures
        monitor::any_has(
            monitor.moving(target, follow, direction, foreground).workspaces.elements,
            hwnd,
        ) == monitor::any_has(monitor.workspaces.elements, hwnd),
{
    let before = monitor.workspaces.elements;
    let focused = monitor.workspaces.focused as int;
    let current = monitor.current();
    let at = target as int;
    if current.floats(foreground) {
        let left = current.left_by_float(foreground);
        let floats = current.floating_windows.elements;
        let i = choose|i: int| 0 <= i < floats.len() && (#[trigger] floats[i]).hwnd == foreground;
        let first = first_of(floats, foreground, i);
        container::first_is_first(floats, first, foreground);
        windows_after_removal(floats, first, hwnd);
        one_changes(before, focused, left, hwnd);
        let without = before.update(focused, left);
        extending_keeps_windows(without, target + 1, hwnd);
        let ready = monitor::extended(without, target + 1);
        one_changes(ready, at, ready[at].joined_by_float(foreground), hwnd);
        container::pushed(ready[at].floating_windows.elements, Window { hwnd: foreground }, hwnd);
    } else {
        let left = current.left_behind();
        container_leaves(current, hwnd);
        one_changes(before, focused, left, hwnd);
        let without = before.update(focused, left);
        extending_keeps_windows(without, target + 1, hwnd);
        let ready = monitor::extended(without, target + 1);
        container_arrives(ready[at], current.leaving_container(), direction, hwnd);
        one_changes(
            ready,
            at,
            ready[at].receiving(current.leaving_container(), direction),
            hwnd,
        );
    }
    if follow {
        let there = monitor.moving(target, false, direction, foreground);
        focusing_keeps_windows(there, target, hwnd);
    }
}

/// The first position of a window that is at some position.
proof fn first_of(windows: Seq<Window>, hwnd: isize, at: int) -> (first: int)
    requires
        0 <= at < windows.len(),
        windows[at].hwnd == hwnd,
    ensures
        container::is_first(windows, first, hwnd),
    decreases at,
{
    if exists|k: int| 0 <= k < at && (#[trigger] windows[k]).hwnd == hwnd {
        let k = choose|k: int| 0 <= k < at && (#[trigger] windows[k]).hwnd == hwnd;
        first_of(windows, hwnd, k)
    } else {
        at
    }
}

/// A floating window in the foreground that is sent to another workspace leaves the focused
/// one and floats behind the floating windows of the other, with the floating layer on top
/// there. Nothing else of either workspace changes, nor any other workspace, and the focus
/// goes with the window exactly where it is to follow.
pub proof fn floats_arrive_where_they_are_sent(
    monitor: MonitorView,
    screen: ScreenView,
    target: usize,
    follow: bool,
    direction: Option<OperationDirection>,
    at: int,
    idx: int,
)
    requires
        target < usize::MAX,
        monitor.workspaces.focused < monitor.workspaces.elements.len(),
        target != monitor.workspaces.focused,
        screen.desktop.foreground is Some,
        !monitor.pinned_floating.contains(screen.desktop.foreground->0),
        ({
            let from = monitor.workspaces.elements[monitor.workspaces.focused as int];
            let floats = from.floating_windows.elements;
            &&& from.maximized_window is None
            &&& 0 <= at < floats.len()
            &&& floats[at].hwnd == screen.desktop.foreground->0
            &&& forall|k: int|
                0 <= k < at ==> (#[trigger] floats[k]).hwnd != screen.desktop.foreground->0
        }),
    ensures
        ({
            let hwnd = screen.desktop.foreground->0;
            let focused = monitor.workspaces.focused as int;
            let before = monitor.workspaces.elements;
            let moved = monitor.sending(screen, target, follow, direction);
            let after = moved.monitor.workspaces.elements;
            let to = if target < before.len() {
                before[target as int]
            } else {
                workspace::fresh()
            };
            &&& moved.result is Ok
            &&& moved.screen == screen
            &&& after[target as int].floating_windows.elements
                == to.floating_windows.elements.push(Window { hwnd })
            &&& after[target as int].layer == WorkspaceLayer::Floating
            &&& !after[target as int].layer_lock
            &&& after[target as int].containers == to.containers
            &&& after[target as int].monocle_container == to.monocle_container
            &&& after[target as int].maximized_window == to.maximized_window
            &&& after[focused].floating_windows.elements
                == before[focused].floating_windows.elements.remove(at)
            &&& after[focused].containers == before[focused].containers
            &&& after[focused].monocle_container == before[focused].monocle_container
            &&& after[focused].layer == before[focused].layer
            &&& 0 <= idx < before.len() && idx != focused && idx != target ==> after[idx]
                == before[idx]
            &&& after.len() == (if target < before.len() {
                before.len() as int
            } else {
                target + 1
            })
            &&& moved.monitor.workspaces.focused == (if follow {
                target
            } else {
                monitor.workspaces.focused
            })
            &&& moved.monitor.pinned_floating == monitor.pinned_floating
        }),
{
    let hwnd = screen.desktop.foreground->0;
    let floats = monitor.current().floating_windows.elements;
    assert(monitor.current().floats(hwnd));
    assert(container::is_first(floats, at, hwnd));
    container::first_is_first(floats, at, hwnd);
}

/// A floating window that is sent to another workspace and was on the focused one once is
/// on the other one and not on the focused one any more.
pub proof fn sent_floats_are_not_left_behind(
    monitor: MonitorView,
    screen: ScreenView,
    target: usize,
    follow: bool,
    direction: Option<OperationDirection>,
    at: int,
)
    requires
        target < usize::MAX,
        monitor.workspaces.focused < monitor.workspaces.elements.len(),
        target != monitor.workspaces.focused,
        screen.desktop.foreground is Some,
        !monitor.pinned_floating.contains(screen.desktop.foreground->0),
        ({
            let from = monitor.workspaces.elements[monitor.workspaces.focused as int];
            let floats = from.floating_windows.elements;
            &&& from.maximized_window is None
            &&& 0 <= at < floats.len()
            &&& floats[at].hwnd == screen.desktop.foreground->0
            &&& forall|k: int|
                0 <= k < floats.len() && k != at ==> (#[trigger] floats[k]).hwnd
                    != screen.desktop.foreground->0
            &&& from.holds_once(screen.desktop.foreground->0)
        }),
    ensures
        ({
            let hwnd = screen.desktop.foreground->0;
            let focused = monitor.workspaces.focused as int;
            let moved = monitor.sending(screen, target, follow, direction);
            let after = moved.monitor.workspaces.elements;
            &&& moved.result is Ok
            &&& after[target as int].floats(hwnd)
            &&& !after[focused].has(hwnd)
        }),
{
    let hwnd = screen.desktop.foreground->0;
    let focused = monitor.workspaces.focused as int;
    floats_arrive_where_they_are_sent(monitor, screen, target, follow, direction, at, 0);
    let moved = monitor.sending(screen, target, follow, direction);
    let after = moved.monitor.workspaces.elements;
    let floats = monitor.current().floating_windows.elements;
    assert(monitor.current().floats(hwnd));
    assert(after[target as int].floating_windows.elements.last().hwnd == hwnd);
    let left = floats.remove(at);
    assert(!container::holds(left, hwnd)) by {
        if container::holds(left, hwnd) {
            let i = choose|i: int| 0 <= i < left.len() && (#[trigger] left[i]).hwnd == hwnd;
            assert(floats[if i < at { i } else { i + 1 }].hwnd == hwnd);
        }
    }
    assert(after[focused].maximized_window == monitor.current().maximized_window);
}

/// Where the foreground does not float on the focused workspace, the focused container is
/// sent: the window that it shows comes to the other workspace in a container of its own,
/// which has the focus there, with the tiling layer on top. A stack only loses that window,
/// any other container goes as a whole. No other workspace changes, and the focus goes with
/// the window exactly where it is to follow.
pub proof fn tiles_arrive_where_they_are_sent(
    monitor: MonitorView,
    screen: ScreenView,
    target: usize,
    follow: bool,
    direction: Option<OperationDirection>,
    idx: int,
)
    requires
        target < usize::MAX,
        monitor.workspaces.focused < monitor.workspaces.elements.len(),
        target != monitor.workspaces.focused,
        screen.desktop.foreground is Some,
        !monitor.pinned_floating.contains(screen.desktop.foreground->0),
        ({
            let from = monitor.workspaces.elements[monitor.workspaces.focused as int];
            let tiles = from.containers;
            &&& from.maximized_window is None
            &&& forall|k: int|
                0 <= k < from.floating_windows.elements.len() ==> (
                #[trigger] from.floating_windows.elements[k]).hwnd != screen.desktop.foreground->0
            &&& tiles.focused < tiles.elements.len()
            &&& tiles.elements[tiles.focused as int].windows.focused
                < tiles.elements[tiles.focused as int].windows.elements.len()
        }),
        target < monitor.workspaces.elements.len()
            && monitor.workspaces.elements[target as int].monocle_container is Some
            ==> monitor.workspaces.elements[target as int].monocle_container_restore_idx is Some,
        target < monitor.workspaces.elements.len()
            ==> monitor.workspaces.elements[target as int].containers.elements.len() + 1
            <= usize::MAX,
    ensures
        ({
            let focused = monitor.workspaces.focused as int;
            let before = monitor.workspaces.elements;
            let tiles = before[focused].containers;
            let container = tiles.elements[tiles.focused as int];
            let window = container.windows.elements[container.windows.focused as int];
            let moved = monitor.sending(screen, target, follow, direction);
            let after = moved.monitor.workspaces.elements;
            let to = if target < before.len() {
                before[target as int]
            } else {
                workspace::fresh()
            };
            let arrived = after[target as int].containers;
            let rest = after[focused].containers.elements;
            &&& moved.result is Ok
            &&& arrived.focused < arrived.elements.len()
            &&& arrived.elements[arrived.focused as int].windows.focused_element() == Some(window)
            &&& arrived.elements.len() == to.containers.elements.len() + 1 + (
            if to.monocle_container is Some {
                1int
            } else {
                0int
            })
            &&& to.monocle_container is None ==> arrived.elements.remove(arrived.focused as int)
                == to.containers.elements
            &&& after[target as int].monocle_container is None
            &&& after[target as int].layer == WorkspaceLayer::Tiling
            &&& after[target as int].floating_windows == to.floating_windows
            &&& if container.windows.elements.len() > 1 {
                &&& rest.len() == tiles.elements.len()
                &&& rest[tiles.focused as int].windows.elements
                    == container.windows.elements.remove(container.windows.focused as int)
                &&& arrived.elements[arrived.focused as int].windows.elements == seq![window]
                &&& forall|k: int|
                    0 <= k < rest.len() && k != tiles.focused ==> #[trigger] rest[k]
                        == tiles.elements[k]
            } else {
                &&& rest == tiles.elements.remove(tiles.focused as int)
                &&& arrived.elements[arrived.focused as int] == container
            }
            &&& after[focused].floating_windows == before[focused].floating_windows
            &&& after[focused].monocle_container == before[focused].monocle_container
            &&& 0 <= idx < before.len() && idx != focused && idx != target ==> after[idx]
                == before[idx]
            &&& moved.monitor.workspaces.focused == (if follow {
                target
            } else {
                monitor.workspaces.focused
            })
            &&& moved.monitor.pinned_floating == monitor.pinned_floating
        }),
{
    let hwnd = screen.desktop.foreground->0;
    let current = monitor.current();
    assert(!current.floats(hwnd));
    let destination = monitor.destination(target);
    let to = if target < monitor.workspaces.elements.len() {
        monitor.workspaces.elements[target as int]
    } else {
        workspace::fresh()
    };
    assert(destination == to);
    let ready = if to.monocle_container is Some {
        to.returning_monocle()
    } else {
        to
    };
    let entry = ready.entry(direction);
    assert(0 <= entry <= ready.containers.elements.len());
    assert(ready.containers.elements.insert(entry, current.leaving_container()).remove(entry)
        =~= ready.containers.elements);
}

/// A pinned window in the foreground is on every workspace already, so that nothing moves.
/// A maximized window keeps its workspace from being moved from, and so does the lack of a
/// container.
pub proof fn nothing_moves_that_cannot(
    monitor: MonitorView,
    screen: ScreenView,
    target: usize,
    follow: bool,
    direction: Option<OperationDirection>,
)
    requires
        monitor.workspaces.focused < monitor.workspaces.elements.len(),
        screen.desktop.foreground is Some,
    ensures
        ({
            let hwnd = screen.desktop.foreground->0;
            let from = monitor.workspaces.elements[monitor.workspaces.focused as int];
            let moved = monitor.sending(screen, target, follow, direction);
            let is_pinned = monitor.pinned_floating.contains(hwnd);
            let is_maximized = from.maximized_window is Some;
            let has_nothing = from.containers.elements.len() == 0
                && from.floating_windows.elements.len() == 0;
            &&& is_pinned ==> moved.result is Ok
            &&& !is_pinned && is_maximized ==> moved.result == Err::<(), Error>(
                Error::MaximizedWindow,
            )
            &&& !is_pinned && !is_maximized && has_nothing ==> moved.result == Err::<(), Error>(
                Error::NoContainer,
            )
            &&& is_pinned || is_maximized || has_nothing ==> moved.monitor == monitor
                && moved.screen == screen
        }),
{
}

} // verus!
