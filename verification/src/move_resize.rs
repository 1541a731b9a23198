//! What the window manager does when a window is moved or resized with the mouse.

use vstd::prelude::*;

use crate::error::Error;
use crate::event_end;
use crate::geometry;
use crate::geometry::OperationDirection;
use crate::geometry::Rect;
use crate::geometry::Sizing;
use crate::manager_op::ManagerOp;
use crate::plan::EventStage;
use crate::plan::Place;
use crate::plan::Resume;
use crate::plan::Signal;
use crate::plan::StepView;
use crate::settings::BorderSettings;
use crate::turn;
use crate::turn::Context;
use crate::turn::ContextView;
use crate::turn::Turn;
use crate::window;
use crate::window::Screen;
use crate::window::ScreenView;
use crate::window_manager;
use crate::window_manager::ManagerView;
use crate::window_manager::WindowManager;
use crate::window_manager_event::WindowManagerEvent;
use crate::workspace::WindowContainerBehaviour;
use crate::workspace::WorkspaceView;

verus! {

/// Whether the end of a drag is a move of a container rather than a resize or a plain
/// click: it goes to another monitor, or it changes the position and keeps the size.
pub open spec fn is_translation(resize: Rect, moved_across_monitors: bool) -> bool {
    moved_across_monitors || (resize != geometry::zero_rect() && resize.right == 0
        && resize.bottom == 0)
}

/// Whether the end of a drag is a move of a container rather than a resize or a plain
/// click. The right and the bottom of a rectangle are its width and its height.
pub fn is_container_translation_move(resize: Rect, moved_across_monitors: bool) -> (r: bool)
    ensures
        r == is_translation(resize, moved_across_monitors),
{
    if moved_across_monitors {
        return true;
    }
    let nothing_changed = resize.left == 0 && resize.top == 0 && resize.right == 0
        && resize.bottom == 0;
    !nothing_changed && resize.right == 0 && resize.bottom == 0
}

/// A plain click is never a move.
pub proof fn clicks_are_not_moves()
    ensures
        !is_translation(geometry::zero_rect(), false),
{
}

/// A drag that changes the size is never a move on the same monitor.
pub proof fn resizes_are_not_moves(resize: Rect)
    requires
        resize.right != 0 || resize.bottom != 0,
    ensures
        !is_translation(resize, false),
{
}

/// A drag to another monitor is always a move.
pub proof fn crossings_are_moves(resize: Rect)
    ensures
        is_translation(resize, true),
{
}

/// By how much a rectangle differs from another one.
pub open spec fn difference(new: Rect, old_rect: Rect) -> Option<Rect> {
    window::rect_of(
        new.left - old_rect.left,
        new.top - old_rect.top,
        new.right - old_rect.right,
        new.bottom - old_rect.bottom,
    )
}

fn fits(value: i64) -> (r: bool)
    ensures
        r == (i32::MIN <= value <= i32::MAX),
{
    -0x8000_0000 <= value && value <= 0x7fff_ffff
}

fn subtract(new: Rect, old_rect: Rect) -> (r: Option<Rect>)
    ensures
        r == difference(new, old_rect),
{
    let left: i64 = new.left as i64 - old_rect.left as i64;
    let top: i64 = new.top as i64 - old_rect.top as i64;
    let right: i64 = new.right as i64 - old_rect.right as i64;
    let bottom: i64 = new.bottom as i64 - old_rect.bottom as i64;
    if fits(left) && fits(top) && fits(right) && fits(bottom) {
        Some(
            Rect {
                left: left as i32,
                top: top as i32,
                right: right as i32,
                bottom: bottom as i32,
            },
        )
    } else {
        None
    }
}

/// An edge that was dragged, and how far.
pub struct Edge {
    pub direction: OperationDirection,
    pub distance: i32,
}

/// The edges that were dragged. The right and the bottom one count only where the
/// opposite one stayed, or moved by just the width and the offset of the border.
pub open spec fn edges(resize: Rect, border: BorderSettings) -> Seq<Edge> {
    let slack = border.width + border.offset;
    let left = Edge { direction: OperationDirection::Left, distance: resize.left };
    let top = Edge { direction: OperationDirection::Up, distance: resize.top };
    let right = Edge { direction: OperationDirection::Right, distance: resize.right };
    let bottom = Edge { direction: OperationDirection::Down, distance: resize.bottom };
    edge_if(left, resize.left != 0) + edge_if(top, resize.top != 0) + edge_if(
        right,
        resize.right != 0 && (resize.left == slack || resize.left == 0),
    ) + edge_if(bottom, resize.bottom != 0 && (resize.top == slack || resize.top == 0))
}

/// The edge, where it counts.
pub open spec fn edge_if(edge: Edge, counts: bool) -> Seq<Edge> {
    if counts {
        seq![edge]
    } else {
        Seq::empty()
    }
}

/// Whether a drag of an edge makes the window smaller: the left and the upper edge were
/// dragged to the right or down, or the right and the lower edge the other way.
pub open spec fn shrinks(edge: Edge) -> bool {
    match edge.direction {
        OperationDirection::Left | OperationDirection::Up => edge.distance > 0,
        OperationDirection::Right | OperationDirection::Down => edge.distance < 0,
    }
}

/// Twice the distance by which an edge was dragged, without its sign.
pub open spec fn delta(edge: Edge) -> int {
    if edge.distance < 0 {
        -2 * edge.distance
    } else {
        2 * edge.distance
    }
}

/// Resize the window by what an edge was dragged.
pub open spec fn edge_op(edge: Edge) -> ManagerOp {
    ManagerOp::ResizeWindow {
        direction: edge.direction,
        sizing: if shrinks(edge) {
            Sizing::Decrease
        } else {
            Sizing::Increase
        },
        delta: delta(edge) as i32,
        update: true,
    }
}

/// Whether all distances can be doubled.
pub open spec fn edges_fit(edges: Seq<Edge>) -> bool {
    forall|i: int| 0 <= i < edges.len() ==> delta(#[trigger] edges[i]) <= i32::MAX
}

/// Resize the window edge by edge.
pub open spec fn resizing(screen: ScreenView, edges: Seq<Edge>) -> ScreenView
    decreases edges.len(),
{
    if edges.len() == 0 {
        screen
    } else {
        resizing(screen, edges.drop_last()).managing(edge_op(edges.last()))
    }
}

/// The place from which a window is moved, where the move that has begun is its own.
pub open spec fn origin_of(pending: Option<(usize, usize, isize)>, hwnd: isize) -> Option<Place> {
    match pending {
        Some((monitor, workspace, moved)) => if moved == hwnd {
            Some(Place { monitor, workspace })
        } else {
            None
        },
        None => None,
    }
}

/// Whether a window was moved to another monitor: from the one on which it is known to
/// be, or from the one on which the move began, where it was managed there.
pub open spec fn crossing(
    manager: ManagerView,
    hwnd: isize,
    origin: Option<Place>,
    target: usize,
) -> Result<bool, Error> {
    if manager.owner(hwnd) matches Some(at) && at.0 != target {
        Ok(true)
    } else {
        match origin {
            Some(place) => if place.monitor == target {
                Ok(false)
            } else if place.monitor >= manager.monitors.elements.len() {
                Err(Error::NoMonitorAt(place.monitor))
            } else {
                let workspaces =
                    manager.monitors.elements[place.monitor as int].workspaces.elements;
                if place.workspace >= workspaces.len() {
                    Err(Error::NoWorkspaceAt(place.workspace))
                } else {
                    Ok(workspaces[place.workspace as int].has(hwnd))
                }
            },
            None => Ok(false),
        }
    }
}

/// The rectangle in which the focused container was laid out last.
pub open spec fn laid_out(workspace: WorkspaceView) -> Rect {
    let focused = workspace.containers.focused as int;
    if focused < workspace.latest_layout.len() {
        workspace.latest_layout[focused]
    } else {
        geometry::zero_rect()
    }
}

/// A drag has ended, and the window was not maximized by it.
#[verifier::opaque]
pub open spec fn drag_ended(
    manager: ManagerView,
    screen: ScreenView,
    context: ContextView,
    event: WindowManagerEvent,
) -> Turn {
    let hwnd = event.window_of().hwnd;
    let cleared = ManagerView { pending_move_op: None, ..manager };
    let origin = origin_of(manager.pending_move_op, hwnd);
    match (context.seen.cursor_monitor, manager.workspace(), screen.desktop.at(hwnd).rect) {
        (None, _, _) => turn::failed(cleared, screen, Error::NoMonitorAtCursor),
        (_, Err(error), _) => turn::failed(cleared, screen, error),
        (_, _, None) => turn::failed(cleared, screen, Error::WindowSystem),
        (Some(target), Ok(workspace), Some(rect)) => match crossing(
            manager,
            hwnd,
            origin,
            target,
        ) {
            Err(error) => turn::failed(cleared, screen, error),
            Ok(crossed) => if (workspace.tile && workspace.manages(hwnd)) || crossed {
                match difference(rect, laid_out(workspace)) {
                    None => turn::failed(cleared, screen, Error::OutOfRange),
                    Some(resize) => if crossed {
                        moved_across(cleared, screen, context, event, origin, target)
                    } else if is_translation(resize, false) {
                        moved_within(cleared, screen, context, event, workspace)
                    } else {
                        resized(cleared, screen, context, event, resize)
                    },
                }
            } else {
                event_end::settle(cleared, screen, context, event)
            },
        },
    }
}

/// A window was moved to another monitor.
#[verifier::opaque]
pub open spec fn moved_across(
    manager: ManagerView,
    screen: ScreenView,
    context: ContextView,
    event: WindowManagerEvent,
    origin: Option<Place>,
    target: usize,
) -> Turn {
    let hwnd = event.window_of().hwnd;
    match origin {
        None => event_end::settle(manager, screen, context, event),
        Some(place) => if target >= manager.monitors.elements.len() {
            turn::failed(manager, screen, Error::NoMonitorAt(target))
        } else {
            let workspaces = manager.monitors.elements[target as int].workspaces;
            let container = match context.seen.cursor_container(target as int) {
                Some(container) => container,
                None => 0,
            };
            if workspaces.focused_element() is None {
                turn::failed(manager, screen, Error::NoWorkspace)
            } else {
                turn::done(
                    manager,
                    event_end::next(
                        screen.managing(
                            ManagerOp::TransferWindow {
                                origin: (place.monitor, place.workspace, hwnd),
                                target: (target, workspaces.focused, container),
                            },
                        ),
                        EventStage::Transferred {
                            origin: place,
                            target: Place { monitor: target, workspace: workspaces.focused },
                        },
                        event,
                    ),
                )
            }
        },
    }
}

/// A window was moved on its own workspace: it floats where new windows do, or its
/// container goes where the cursor is.
#[verifier::opaque]
pub open spec fn moved_within(
    manager: ManagerView,
    screen: ScreenView,
    context: ContextView,
    event: WindowManagerEvent,
    workspace: WorkspaceView,
) -> Turn {
    let behaviour = context.seen.behaviour;
    let container = context.seen.cursor_container(manager.monitors.focused as int);
    if behaviour.float_override {
        turn::done(
            manager.with_workspace(workspace.floating(event.window_of())),
            event_end::next(screen.updating(false, false), EventStage::Settled, event),
        )
    } else {
        match (behaviour.current_behaviour, container) {
            (WindowContainerBehaviour::Create, Some(idx)) => turn::done(
                manager.with_workspace(
                    workspace.swapping(workspace.containers.focused as int, idx as int),
                ),
                event_end::next(screen.updating(false, false), EventStage::Settled, event),
            ),
            (WindowContainerBehaviour::Create, None) => turn::done(
                manager,
                event_end::next(
                    screen.updating(manager.mouse_follows_focus, false),
                    EventStage::Settled,
                    event,
                ),
            ),
            (WindowContainerBehaviour::Append, Some(idx)) => turn::done(
                manager,
                event_end::next(
                    screen.managing(ManagerOp::MoveWindowToContainer(idx)).updating(
                        false,
                        false,
                    ).taking(StepView::Send(Signal::UpdateStackbars)),
                    EventStage::Settled,
                    event,
                ),
            ),
            (WindowContainerBehaviour::Append, None) => turn::done(
                manager,
                event_end::next(
                    screen.updating(manager.mouse_follows_focus, false).taking(
                        StepView::Send(Signal::UpdateStackbars),
                    ),
                    EventStage::Settled,
                    event,
                ),
            ),
        }
    }
}

/// A window was resized.
#[verifier::opaque]
pub open spec fn resized(
    manager: ManagerView,
    screen: ScreenView,
    context: ContextView,
    event: WindowManagerEvent,
    resize: Rect,
) -> Turn {
    let edges = edges(resize, context.settings.border);
    if edges_fit(edges) {
        turn::done(
            manager,
            event_end::next(
                resizing(screen, edges).updating(false, false),
                EventStage::Settled,
                event,
            ),
        )
    } else {
        turn::failed(manager, screen, Error::OutOfRange)
    }
}

/// Focus a monitor and a workspace on it, lay it out, and go on.
#[verifier::opaque]
pub open spec fn visit(
    manager: ManagerView,
    screen: ScreenView,
    event: WindowManagerEvent,
    place: Place,
    stage: EventStage,
) -> Turn {
    if place.monitor >= manager.monitors.elements.len() {
        turn::failed(manager, screen, Error::NoMonitorAt(place.monitor))
    } else {
        let there = manager.focusing_monitor(place.monitor as int);
        let monitor = manager.monitors.elements[place.monitor as int];
        if place.workspace == usize::MAX {
            turn::failed(there, screen, Error::NoWorkspaceAt(place.workspace))
        } else {
            turn::done(
                there.with_current_monitor(monitor.focusing(place.workspace)),
                event_end::next(screen.updating(false, false), stage, event),
            )
        }
    }
}

fn dragged_edges(resize: Rect, border: &BorderSettings) -> (r: Vec<Edge>)
    ensures
        r@ == edges(resize, *border),
{
    let slack: i64 = border.width as i64 + border.offset as i64;
    let mut dragged: Vec<Edge> = Vec::new();
    if resize.left != 0 {
        dragged.push(Edge { direction: OperationDirection::Left, distance: resize.left });
    }
    if resize.top != 0 {
        dragged.push(Edge { direction: OperationDirection::Up, distance: resize.top });
    }
    if resize.right != 0 && (resize.left as i64 == slack || resize.left == 0) {
        dragged.push(Edge { direction: OperationDirection::Right, distance: resize.right });
    }
    if resize.bottom != 0 && (resize.top as i64 == slack || resize.top == 0) {
        dragged.push(Edge { direction: OperationDirection::Down, distance: resize.bottom });
    }
    assert(dragged@ =~= edges(resize, *border));
    dragged
}

fn doubled(edge: &Edge) -> (r: i64)
    ensures
        r == delta(*edge),
{
    let distance: i64 = edge.distance as i64;
    if distance < 0 {
        0 - distance - distance
    } else {
        distance + distance
    }
}

fn plan_resize(dragged: &Vec<Edge>, screen: &mut Screen) -> (r: Result<(), Error>)
    ensures
        r == (if edges_fit(dragged@) {
            Ok::<(), Error>(())
        } else {
            Err(Error::OutOfRange)
        }),
        final(screen)@ == (if edges_fit(dragged@) {
            resizing(old(screen)@, dragged@)
        } else {
            old(screen)@
        }),
{
    let mut i: usize = 0;
    while i < dragged.len()
        invariant
            i <= dragged@.len(),
            forall|k: int| 0 <= k < i ==> delta(#[trigger] dragged@[k]) <= i32::MAX,
        decreases dragged@.len() - i,
    {
        if doubled(&dragged[i]) > 0x7fff_ffff {
            assert(delta(dragged@[i as int]) > i32::MAX);
            return Err(Error::OutOfRange);
        }
        i = i + 1;
    }
    let ghost before = screen@;
    let mut j: usize = 0;
    while j < dragged.len()
        invariant
            j <= dragged@.len(),
            edges_fit(dragged@),
            screen@ == resizing(before, dragged@.take(j as int)),
        decreases dragged@.len() - j,
    {
        assert(dragged@.take(j + 1).drop_last() =~= dragged@.take(j as int));
        let edge = &dragged[j];
        assert(delta(dragged@[j as int]) <= i32::MAX);
        let shrinks = match edge.direction {
            OperationDirection::Left | OperationDirection::Up => edge.distance > 0,
            OperationDirection::Right | OperationDirection::Down => edge.distance < 0,
        };
        let sizing = if shrinks {
            Sizing::Decrease
        } else {
            Sizing::Increase
        };
        let delta: i32 = doubled(edge) as i32;
        screen.manage(
            ManagerOp::ResizeWindow { direction: edge.direction, sizing, delta, update: true },
        );
        j = j + 1;
    }
    assert(dragged@.take(j as int) =~= dragged@);
    Ok(())
}

impl WindowManager {
    fn has_crossed(&self, hwnd: isize, origin: Option<Place>, target: usize) -> (r: Result<
        bool,
        Error,
    >)
        ensures
            r == crossing(self@, hwnd, origin, target),
    {
        match self.known(hwnd) {
            Some((monitor_idx, _)) => {
                if monitor_idx != target {
                    return Ok(true);
                }
            },
            None => {},
        }
        match origin {
            Some(place) => {
                if place.monitor == target {
                    return Ok(false);
                }
                if place.monitor >= self.monitors.elements.len() {
                    return Err(Error::NoMonitorAt(place.monitor));
                }
                let monitor = &self.monitors.elements[place.monitor];
                assert(monitor@ == self@.monitors.elements[place.monitor as int]);
                if place.workspace >= monitor.workspaces.elements.len() {
                    return Err(Error::NoWorkspaceAt(place.workspace));
                }
                let workspace = &monitor.workspaces.elements[place.workspace];
                assert(workspace@ == monitor@.workspaces.elements[place.workspace as int]);
                Ok(workspace.contains_window(hwnd))
            },
            None => Ok(false),
        }
    }

    pub(crate) fn handle_drag_end(
        &mut self,
        event: WindowManagerEvent,
        context: &Context,
        screen: &mut Screen,
    ) -> (r: Result<(), Error>)
        requires
            context@.wf(),
        ensures
            (Turn { manager: final(self)@, screen: final(screen)@, result: r }) == drag_ended(
                old(self)@,
                old(screen)@,
                context@,
                event,
            ),
    {
        proof {
            reveal(drag_ended);
        }
        let hwnd: isize = event.hwnd();
        let origin = self.take_origin(hwnd);
        let target: usize = match context.seen.cursor_monitor {
            Some(target) => target,
            None => {
                return Err(Error::NoMonitorAtCursor);
            },
        };
        let (old_position, tiles) = match self.laid_out_position(hwnd) {
            Ok(position) => position,
            Err(error) => {
                return Err(error);
            },
        };
        let new_position = match screen.desktop.rect(hwnd) {
            Some(rect) => rect,
            None => {
                return Err(Error::WindowSystem);
            },
        };
        let crossed = match self.has_crossed(hwnd, origin, target) {
            Ok(crossed) => crossed,
            Err(error) => {
                return Err(error);
            },
        };
        if !tiles && !crossed {
            return self.settle_event(event, context, screen);
        }
        let resize = match subtract(new_position, old_position) {
            Some(resize) => resize,
            None => {
                return Err(Error::OutOfRange);
            },
        };
        if is_container_translation_move(resize, crossed) {
            if crossed {
                self.move_across(event, origin, target, context, screen)
            } else {
                self.move_within(event, context, screen)
            }
        } else {
            self.resize_dragged(event, resize, context, screen)
        }
    }

    /// Forget the move that has begun, and tell where it began if it is the window's own.
    fn take_origin(&mut self, hwnd: isize) -> (r: Option<Place>)
        ensures
            r == origin_of(old(self)@.pending_move_op, hwnd),
            final(self)@ == (ManagerView { pending_move_op: None, ..old(self)@ }),
    {
        let pending = self.pending_move_op;
        self.pending_move_op = None;
        match pending {
            Some((monitor, workspace, moved)) => if moved == hwnd {
                Some(Place { monitor, workspace })
            } else {
                None
            },
            None => None,
        }
    }

    /// Where the focused container was laid out last, and whether the window is tiled on
    /// the focused workspace.
    fn laid_out_position(&self, hwnd: isize) -> (r: Result<(Rect, bool), Error>)
        ensures
            r == (match self@.workspace() {
                Ok(workspace) => Ok::<(Rect, bool), Error>(
                    (laid_out(workspace), workspace.tile && workspace.manages(hwnd)),
                ),
                Err(error) => Err(error),
            }),
    {
        match self.focused_workspace() {
            Ok(workspace) => {
                let focused: usize = workspace.focused_container_idx();
                let position = if focused < workspace.latest_layout.len() {
                    workspace.latest_layout[focused]
                } else {
                    Rect::default()
                };
                Ok((position, workspace.tile && workspace.contains_managed_window(hwnd)))
            },
            Err(error) => Err(error),
        }
    }

    fn resize_dragged(
        &mut self,
        event: WindowManagerEvent,
        resize: Rect,
        context: &Context,
        screen: &mut Screen,
    ) -> (r: Result<(), Error>)
        ensures
            (Turn { manager: final(self)@, screen: final(screen)@, result: r }) == resized(
                old(self)@,
                old(screen)@,
                context@,
                event,
                resize,
            ),
    {
        proof {
            reveal(resized);
        }
        let dragged = dragged_edges(resize, &context.settings.border);
        match plan_resize(&dragged, screen) {
            Ok(()) => {},
            Err(error) => {
                return Err(error);
            },
        }
        screen.update(false, false);
        screen.ask(Resume::Event(EventStage::Settled, event));
        Ok(())
    }

    fn move_across(
        &mut self,
        event: WindowManagerEvent,
        origin: Option<Place>,
        target: usize,
        context: &Context,
        screen: &mut Screen,
    ) -> (r: Result<(), Error>)
        requires
            context@.wf(),
        ensures
            (Turn { manager: final(self)@, screen: final(screen)@, result: r }) == moved_across(
                old(self)@,
                old(screen)@,
                context@,
                event,
                origin,
                target,
            ),
    {
        proof {
            reveal(moved_across);
        }
        let place = match origin {
            Some(place) => place,
            None => {
                return self.settle_event(event, context, screen);
            },
        };
        if target >= self.monitors.elements.len() {
            return Err(Error::NoMonitorAt(target));
        }
        let monitor = &self.monitors.elements[target];
        assert(monitor@ == self@.monitors.elements[target as int]);
        if monitor.focused_workspace().is_none() {
            return Err(Error::NoWorkspace);
        }
        let target_workspace_idx: usize = monitor.focused_workspace_idx();
        let target_container_idx: usize = match context.seen.cursor_container(target) {
            Some(container) => container,
            None => 0,
        };
        screen.manage(
            ManagerOp::TransferWindow {
                origin: (place.monitor, place.workspace, event.hwnd()),
                target: (target, target_workspace_idx, target_container_idx),
            },
        );
        screen.ask(
            Resume::Event(
                EventStage::Transferred {
                    origin: place,
                    target: Place { monitor: target, workspace: target_workspace_idx },
                },
                event,
            ),
        );
        Ok(())
    }

    fn move_within(
        &mut self,
        event: WindowManagerEvent,
        context: &Context,
        screen: &mut Screen,
    ) -> (r: Result<(), Error>)
        requires
            old(self)@.workspace() is Ok,
        ensures
            (Turn { manager: final(self)@, screen: final(screen)@, result: r }) == moved_within(
                old(self)@,
                old(screen)@,
                context@,
                event,
                old(self)@.workspace()->Ok_0,
            ),
    {
        proof {
            reveal(moved_within);
        }
        proof {
            window_manager::same_workspace(self@);
        }
        let behaviour = context.seen.behaviour;
        let mouse_follows_focus = self.mouse_follows_focus;
        let container = context.seen.cursor_container(self.focused_monitor_idx());
        let workspace = match self.focused_workspace_mut() {
            Ok(workspace) => workspace,
            Err(error) => {
                return Err(error);
            },
        };
        if behaviour.float_override {
            workspace.floating_windows.elements.push(event.window());
            screen.update(false, false);
        } else {
            match behaviour.current_behaviour {
                WindowContainerBehaviour::Create => match container {
                    Some(idx) => {
                        let focused: usize = workspace.focused_container_idx();
                        workspace.swap_containers(focused, idx);
                        screen.update(false, false);
                    },
                    None => {
                        screen.update(mouse_follows_focus, false);
                    },
                },
                WindowContainerBehaviour::Append => {
                    match container {
                        Some(idx) => {
                            screen.manage(ManagerOp::MoveWindowToContainer(idx));
                            screen.update(false, false);
                        },
                        None => {
                            screen.update(mouse_follows_focus, false);
                        },
                    }
                    screen.plan.send(Signal::UpdateStackbars);
                },
            }
        }
        screen.ask(Resume::Event(EventStage::Settled, event));
        Ok(())
    }

    /// Focus a monitor and a workspace on it, and have it laid out.
    pub(crate) fn visit_place(
        &mut self,
        event: WindowManagerEvent,
        place: Place,
        stage: EventStage,
        screen: &mut Screen,
    ) -> (r: Result<(), Error>)
        ensures
            (Turn { manager: final(self)@, screen: final(screen)@, result: r }) == visit(
                old(self)@,
                old(screen)@,
                event,
                place,
                stage,
            ),
    {
        proof {
            reveal(visit);
        }
        match self.focus_monitor(place.monitor) {
            Ok(()) => {},
            Err(error) => {
                return Err(error);
            },
        }
        let ghost there = self@;
        let visited = self.monitors.elements[place.monitor].focus_workspace(place.workspace);
        assert(self@.monitors.elements =~= there.monitors.elements.update(
            place.monitor as int,
            self@.monitors.elements[place.monitor as int],
        ));
        match visited {
            Ok(()) => {},
            Err(error) => {
                assert(self@.monitors.elements =~= there.monitors.elements);
                return Err(error);
            },
        }
        screen.update(false, false);
        screen.ask(Resume::Event(stage, event));
        Ok(())
    }
}

} // verus!
