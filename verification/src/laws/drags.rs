//! What comes of dragging windows with the mouse.

use vstd::prelude::*;

use crate::error::Error;
use crate::event_end;
use crate::geometry::OperationDirection;
use crate::geometry::Rect;
use crate::geometry::Sizing;
use crate::laws::places;
use crate::manager_op::ManagerOp;
use crate::move_resize;
use crate::move_resize::Edge;
use crate::plan::Call;
use crate::plan::EventStage;
use crate::plan::Place;
use crate::plan::Resume;
use crate::plan::Signal;
use crate::plan::StepView;
use crate::process_event;
use crate::settings::BorderSettings;
use crate::turn::ContextView;
use crate::window::ScreenView;
use crate::window_manager::ManagerView;
use crate::window_manager_event::WindowManagerEvent;
use crate::workspace::WindowContainerBehaviour;
use crate::workspace::WorkspaceView;

verus! {

/// Whether the end of a drag is one of a tile on the focused workspace that has stayed on
/// its monitor.
pub open spec fn drags_tile(
    manager: ManagerView,
    screen: ScreenView,
    context: ContextView,
    event: WindowManagerEvent,
) -> bool {
    let hwnd = event.window_of().hwnd;
    let under_cursor = context.seen.cursor_monitor;
    &&& event is MoveResizeEnd
    &&& !context.seen.answer
    &&& places::has_focus(manager)
    &&& under_cursor is Some
    &&& places::focused_workspace(manager).tile
    &&& places::focused_workspace(manager).manages(hwnd)
    &&& screen.desktop.at(hwnd).rect is Some
    &&& manager.known_hwnds.contains_key(hwnd) ==> manager.known_hwnds[hwnd].0 == under_cursor->0
    &&& manager.pending_move_op matches Some((monitor, _, moved)) ==> moved == hwnd ==> monitor
        == under_cursor->0
}

/// Where the focused container was laid out last; nowhere before it ever was.
pub open spec fn last_rect(manager: ManagerView) -> Rect {
    let workspace = places::focused_workspace(manager);
    let focused = workspace.containers.focused as int;
    if focused < workspace.latest_layout.len() {
        workspace.latest_layout[focused]
    } else {
        Rect { left: 0, top: 0, right: 0, bottom: 0 }
    }
}

/// One request to make a tile larger or smaller at an edge, by twice a distance; none
/// where the distance is zero.
pub open spec fn resize_at(direction: OperationDirection, grows: bool, distance: int) -> Seq<
    StepView,
> {
    if distance == 0 {
        Seq::empty()
    } else {
        seq![
            StepView::Manage(
                ManagerOp::ResizeWindow {
                    direction,
                    sizing: if grows {
                        Sizing::Increase
                    } else {
                        Sizing::Decrease
                    },
                    delta: (if distance < 0 {
                        -distance - distance
                    } else {
                        distance + distance
                    }) as i32,
                    update: true,
                },
            ),
        ]
    }
}

/// A drag of an edge that enlarges a tile asks for an increase at that edge, and one that
/// makes it smaller for a decrease, by twice the distance. An edge that has not moved is not
/// resized; nor is the right one where the left one moved by anything but the border, nor
/// the lower one where the upper one did. The workspace is laid out afterwards.
pub proof fn dragged_edges_follow_the_mouse(
    manager: ManagerView,
    screen: ScreenView,
    context: ContextView,
    event: WindowManagerEvent,
    left: int,
    top: int,
    width: int,
    height: int,
)
    requires
        drags_tile(manager, screen, context, event),
        ({
            let rect = screen.desktop.at(event.window_of().hwnd).rect->0;
            let last = last_rect(manager);
            &&& left == rect.left - last.left
            &&& top == rect.top - last.top
            &&& width == rect.right - last.right
            &&& height == rect.bottom - last.bottom
        }),
        -0x3fff_ffff <= left <= 0x3fff_ffff,
        -0x3fff_ffff <= top <= 0x3fff_ffff,
        -0x3fff_ffff <= width <= 0x3fff_ffff,
        -0x3fff_ffff <= height <= 0x3fff_ffff,
        width != 0 || height != 0,
    ensures
        ({
            let turn = places::turn_at(manager, screen, context, event, EventStage::MoveCaptured);
            let border = context.settings.border.width + context.settings.border.offset;
            let from_right = if left == 0 || left == border {
                width
            } else {
                0
            };
            let from_bottom = if top == 0 || top == border {
                height
            } else {
                0
            };
            &&& turn.result is Ok
            &&& turn.manager == (ManagerView { pending_move_op: None, ..manager })
            &&& turn.screen.steps == screen.steps + resize_at(
                OperationDirection::Left,
                left < 0,
                left,
            ) + resize_at(OperationDirection::Up, top < 0, top) + resize_at(
                OperationDirection::Right,
                width > 0,
                from_right,
            ) + resize_at(OperationDirection::Down, height > 0, from_bottom) + seq![
                StepView::Manage(
                    ManagerOp::UpdateFocusedWorkspace {
                        follow_focus: false,
                        trigger_focus: false,
                    },
                ),
                StepView::Continue(Resume::Event(EventStage::Settled, event)),
            ]
        }),
{
    let resize = Rect {
        left: left as i32,
        top: top as i32,
        right: width as i32,
        bottom: height as i32,
    };
    let edges = move_resize::edges(resize, context.settings.border);
    let hwnd = event.window_of().hwnd;
    let cleared = ManagerView { pending_move_op: None, ..manager };
    let turn = places::turn_at(manager, screen, context, event, EventStage::MoveCaptured);
    assert(turn == move_resize::resized(cleared, screen, context, event, resize)) by {
        reveal(process_event::resumed);
        reveal(process_event::go_on);
        reveal(move_resize::drag_ended);
        let rect = screen.desktop.at(hwnd).rect->0;
        assert(move_resize::laid_out(places::focused_workspace(manager)) == last_rect(manager));
        assert(move_resize::difference(rect, last_rect(manager)) == Some(resize));
        let origin = move_resize::origin_of(manager.pending_move_op, hwnd);
        assert(move_resize::crossing(manager, hwnd, origin, context.seen.cursor_monitor->0) == Ok::<
            bool,
            Error,
        >(false));
    }
    edges_are_requests(resize, context.settings.border);
    resizing_is_a_list(screen, edges);
    let resized = move_resize::resizing(screen, edges);
    assert(turn == crate::turn::done(
        cleared,
        event_end::next(resized.updating(false, false), EventStage::Settled, event),
    )) by {
        reveal(move_resize::resized);
    }
    let ends = seq![
        StepView::Manage(
            ManagerOp::UpdateFocusedWorkspace { follow_focus: false, trigger_focus: false },
        ),
        StepView::Continue(Resume::Event(EventStage::Settled, event)),
    ];
    assert(turn.screen.steps =~= resized.steps + ends);
    let border = context.settings.border.width + context.settings.border.offset;
    joined(
        screen.steps,
        resize_at(OperationDirection::Left, left < 0, left),
        resize_at(OperationDirection::Up, top < 0, top),
        resize_at(
            OperationDirection::Right,
            width > 0,
            if left == 0 || left == border {
                width
            } else {
                0
            },
        ),
        resize_at(
            OperationDirection::Down,
            height > 0,
            if top == 0 || top == border {
                height
            } else {
                0
            },
        ),
        ends,
    );
}

proof fn joined(
    s: Seq<StepView>,
    a: Seq<StepView>,
    b: Seq<StepView>,
    c: Seq<StepView>,
    d: Seq<StepView>,
    e: Seq<StepView>,
)
    ensures
        s + (a + b + c + d) + e == s + a + b + c + d + e,
{
    assert(s + (a + b + c + d) + e =~= s + a + b + c + d + e);
}

/// The requests for edges.
spec fn requests(edges: Seq<Edge>) -> Seq<StepView> {
    edges.map_values(|edge: Edge| StepView::Manage(move_resize::edge_op(edge)))
}

proof fn resizing_is_a_list(screen: ScreenView, edges: Seq<Edge>)
    ensures
        move_resize::resizing(screen, edges).steps == screen.steps + requests(edges),
        move_resize::resizing(screen, edges).desktop == screen.desktop,
    decreases edges.len(),
{
    if edges.len() > 0 {
        resizing_is_a_list(screen, edges.drop_last());
    }
    assert(move_resize::resizing(screen, edges).steps =~= screen.steps + requests(edges));
}

proof fn edges_are_requests(resize: Rect, border: BorderSettings)
    requires
        -0x3fff_ffff <= resize.left <= 0x3fff_ffff,
        -0x3fff_ffff <= resize.top <= 0x3fff_ffff,
        -0x3fff_ffff <= resize.right <= 0x3fff_ffff,
        -0x3fff_ffff <= resize.bottom <= 0x3fff_ffff,
    ensures
        move_resize::edges_fit(move_resize::edges(resize, border)),
        requests(move_resize::edges(resize, border)) == resize_at(
            OperationDirection::Left,
            resize.left < 0,
            resize.left as int,
        ) + resize_at(OperationDirection::Up, resize.top < 0, resize.top as int) + resize_at(
            OperationDirection::Right,
            resize.right > 0,
            if resize.left == 0 || resize.left == border.width + border.offset {
                resize.right as int
            } else {
                0
            },
        ) + resize_at(
            OperationDirection::Down,
            resize.bottom > 0,
            if resize.top == 0 || resize.top == border.width + border.offset {
                resize.bottom as int
            } else {
                0
            },
        ),
{
    let slack = border.width + border.offset;
    let left = Edge { direction: OperationDirection::Left, distance: resize.left };
    let top = Edge { direction: OperationDirection::Up, distance: resize.top };
    let right = Edge { direction: OperationDirection::Right, distance: resize.right };
    let bottom = Edge { direction: OperationDirection::Down, distance: resize.bottom };
    let a = move_resize::edge_if(left, resize.left != 0);
    let b = move_resize::edge_if(top, resize.top != 0);
    let c = move_resize::edge_if(
        right,
        resize.right != 0 && (resize.left == slack || resize.left == 0),
    );
    let d = move_resize::edge_if(
        bottom,
        resize.bottom != 0 && (resize.top == slack || resize.top == 0),
    );
    assert(requests(a + b + c + d) =~= requests(a) + requests(b) + requests(c) + requests(d));
    assert(requests(a) =~= resize_at(
        OperationDirection::Left,
        resize.left < 0,
        resize.left as int,
    ));
    assert(requests(b) =~= resize_at(OperationDirection::Up, resize.top < 0, resize.top as int));
    assert(requests(c) =~= resize_at(
        OperationDirection::Right,
        resize.right > 0,
        if resize.left == 0 || resize.left == slack {
            resize.right as int
        } else {
            0
        },
    ));
    assert(requests(d) =~= resize_at(
        OperationDirection::Down,
        resize.bottom > 0,
        if resize.top == 0 || resize.top == slack {
            resize.bottom as int
        } else {
            0
        },
    ));
}

/// Whether the rectangle of a window differs from the one where the focused container was
/// laid out last by numbers of a rectangle.
pub open spec fn has_difference(manager: ManagerView, screen: ScreenView, hwnd: isize) -> bool {
    let rect = screen.desktop.at(hwnd).rect->0;
    let last = last_rect(manager);
    &&& i32::MIN <= rect.left - last.left <= i32::MAX
    &&& i32::MIN <= rect.top - last.top <= i32::MAX
    &&& i32::MIN <= rect.right - last.right <= i32::MAX
    &&& i32::MIN <= rect.bottom - last.bottom <= i32::MAX
}

/// A drag that changes the position of a tile and keeps its size moves it. Where new windows
/// get a container of their own, its container and the one under the cursor change places,
/// and the focus goes with it; where they join the focused one, the window is moved into the
/// container under the cursor; and where they float, it floats. Away from all containers the
/// workspace is only laid out again.
pub proof fn dragged_tiles_go_where_the_cursor_is(
    manager: ManagerView,
    screen: ScreenView,
    context: ContextView,
    event: WindowManagerEvent,
    idx: usize,
    other: int,
)
    requires
        drags_tile(manager, screen, context, event),
        ({
            let rect = screen.desktop.at(event.window_of().hwnd).rect->0;
            let last = last_rect(manager);
            &&& i32::MIN <= rect.left - last.left <= i32::MAX
            &&& i32::MIN <= rect.top - last.top <= i32::MAX
            &&& rect.left != last.left || rect.top != last.top
            &&& rect.right == last.right
            &&& rect.bottom == last.bottom
        }),
    ensures
        ({
            let turn = places::turn_at(manager, screen, context, event, EventStage::MoveCaptured);
            let m = manager.monitors.focused as int;
            let under_cursor = if m < context.seen.cursor_containers.len() {
                context.seen.cursor_containers[m]
            } else {
                None
            };
            let before = places::focused_workspace(manager);
            let after = places::focused_workspace(turn.manager);
            let tiles = before.containers.elements;
            let focused = before.containers.focused as int;
            let behaviour = context.seen.behaviour;
            let floats = behaviour.float_override;
            let creates = !floats && behaviour.current_behaviour
                == WindowContainerBehaviour::Create;
            let appends = !floats && behaviour.current_behaviour
                == WindowContainerBehaviour::Append;
            let update = StepView::Manage(
                ManagerOp::UpdateFocusedWorkspace { follow_focus: false, trigger_focus: false },
            );
            let goes_on = StepView::Continue(Resume::Event(EventStage::Settled, event));
            &&& turn.result is Ok
            &&& turn.manager.pending_move_op is None
            &&& places::same_but_focused_workspace(
                ManagerView { pending_move_op: None, ..manager },
                turn.manager,
            )
            &&& floats ==> after == (WorkspaceView {
                floating_windows: after.floating_windows,
                ..before
            }) && after.floating_windows.elements == before.floating_windows.elements.push(
                event.window_of(),
            ) && turn.screen.steps == screen.steps + seq![update, goes_on]
            &&& !floats && !(creates && under_cursor is Some) ==> after == before
            &&& creates && under_cursor == Some(idx) && idx < tiles.len() && focused
                < tiles.len() ==> {
                &&& after.containers.elements.len() == tiles.len()
                &&& after.containers.elements[idx as int] == tiles[focused]
                &&& after.containers.elements[focused] == tiles[idx as int]
                &&& 0 <= other < tiles.len() && other != idx && other != focused
                    ==> after.containers.elements[other] == tiles[other]
                &&& after.containers.focused == idx
                &&& after.floating_windows == before.floating_windows
                &&& turn.screen.steps == screen.steps + seq![update, goes_on]
            }
            &&& appends && under_cursor == Some(idx) ==> turn.screen.steps == screen.steps + seq![
                StepView::Manage(ManagerOp::MoveWindowToContainer(idx)),
                update,
                StepView::Send(Signal::UpdateStackbars),
                goes_on,
            ]
            &&& creates && under_cursor is None ==> turn.screen.steps == screen.steps + seq![
                StepView::Manage(
                    ManagerOp::UpdateFocusedWorkspace {
                        follow_focus: manager.mouse_follows_focus,
                        trigger_focus: false,
                    },
                ),
                goes_on,
            ]
            &&& appends && under_cursor is None ==> turn.screen.steps == screen.steps + seq![
                StepView::Manage(
                    ManagerOp::UpdateFocusedWorkspace {
                        follow_focus: manager.mouse_follows_focus,
                        trigger_focus: false,
                    },
                ),
                StepView::Send(Signal::UpdateStackbars),
                goes_on,
            ]
        }),
{
    let hwnd = event.window_of().hwnd;
    let cleared = ManagerView { pending_move_op: None, ..manager };
    let before = places::focused_workspace(manager);
    let turn = places::turn_at(manager, screen, context, event, EventStage::MoveCaptured);
    assert(turn == move_resize::moved_within(cleared, screen, context, event, before)) by {
        reveal(process_event::resumed);
        reveal(process_event::go_on);
        reveal(move_resize::drag_ended);
        let rect = screen.desktop.at(hwnd).rect->0;
        assert(move_resize::laid_out(before) == last_rect(manager));
        let origin = move_resize::origin_of(manager.pending_move_op, hwnd);
        assert(move_resize::crossing(manager, hwnd, origin, context.seen.cursor_monitor->0) == Ok::<
            bool,
            Error,
        >(false));
    }
    reveal(move_resize::moved_within);
    assert(cleared.with_workspace(before).monitors.elements[manager.monitors.focused as int]
        == manager.monitors.elements[manager.monitors.focused as int]) by {
        crate::window_manager::same_workspace(cleared);
    }
}

/// A drag of a window from the monitor on which it began to another one hands the window to
/// the container under the cursor there, on the workspace that the other monitor shows.
/// Both workspaces are then laid out, the one that was left first, and the window gets the
/// focus on its new monitor.
pub proof fn dragged_windows_cross_monitors(
    manager: ManagerView,
    screen: ScreenView,
    context: ContextView,
    event: WindowManagerEvent,
    origin: Place,
    target: usize,
)
    requires
        event is MoveResizeEnd,
        !context.seen.answer,
        places::has_focus(manager),
        context.seen.cursor_monitor == Some(target),
        target < manager.monitors.elements.len(),
        manager.monitors.elements[target as int].workspaces.focused
            < manager.monitors.elements[target as int].workspaces.elements.len(),
        manager.pending_move_op == Some(
            (origin.monitor, origin.workspace, event.window_of().hwnd),
        ),
        origin.monitor != target,
        origin.monitor < manager.monitors.elements.len(),
        origin.workspace
            < manager.monitors.elements[origin.monitor as int].workspaces.elements.len(),
        manager.monitors.elements[origin.monitor as int].workspaces.elements[origin.workspace
            as int].has(event.window_of().hwnd),
        screen.desktop.at(event.window_of().hwnd).rect is Some,
        has_difference(manager, screen, event.window_of().hwnd),
    ensures
        ({
            let turn = places::turn_at(manager, screen, context, event, EventStage::MoveCaptured);
            let shown = manager.monitors.elements[target as int].workspaces.focused;
            let container = if target < context.seen.cursor_containers.len()
                && context.seen.cursor_containers[target as int] is Some {
                context.seen.cursor_containers[target as int]->0
            } else {
                0
            };
            &&& turn.result is Ok
            &&& turn.manager == (ManagerView { pending_move_op: None, ..manager })
            &&& turn.screen.steps == screen.steps + seq![
                StepView::Manage(
                    ManagerOp::TransferWindow {
                        origin: (origin.monitor, origin.workspace, event.window_of().hwnd),
                        target: (target, shown, container),
                    },
                ),
                StepView::Continue(
                    Resume::Event(
                        EventStage::Transferred {
                            origin,
                            target: Place { monitor: target, workspace: shown },
                        },
                        event,
                    ),
                ),
            ]
        }),
{
    let hwnd = event.window_of().hwnd;
    let cleared = ManagerView { pending_move_op: None, ..manager };
    reveal(process_event::resumed);
    reveal(process_event::go_on);
    reveal(move_resize::drag_ended);
    reveal(move_resize::moved_across);
    assert(move_resize::laid_out(places::focused_workspace(manager)) == last_rect(manager));
    assert(move_resize::origin_of(manager.pending_move_op, hwnd) == Some(origin));
    assert(move_resize::crossing(manager, hwnd, Some(origin), target) == Ok::<bool, Error>(true));
    let turn = places::turn_at(manager, screen, context, event, EventStage::MoveCaptured);
    assert(turn == move_resize::moved_across(
        cleared,
        screen,
        context,
        event,
        Some(origin),
        target,
    ));
}

/// After a transfer the place that was left gets the focus and is laid out, and then the
/// place to which the window came, which keeps it.
pub proof fn both_places_of_a_transfer_are_laid_out(
    manager: ManagerView,
    screen: ScreenView,
    context: ContextView,
    event: WindowManagerEvent,
    origin: Place,
    target: Place,
)
    requires
        origin.monitor < manager.monitors.elements.len(),
        target.monitor < manager.monitors.elements.len(),
        origin.workspace < usize::MAX,
        target.workspace < usize::MAX,
    ensures
        ({
            let first = places::turn_at(
                manager,
                screen,
                context,
                event,
                EventStage::Transferred { origin, target },
            );
            let second = places::turn_at(
                manager,
                screen,
                context,
                event,
                EventStage::OriginUpdated { target },
            );
            let update = StepView::Manage(
                ManagerOp::UpdateFocusedWorkspace { follow_focus: false, trigger_focus: false },
            );
            &&& first.result is Ok && second.result is Ok
            &&& first.manager.monitors.focused == origin.monitor
            &&& first.manager.monitors.elements[origin.monitor as int].workspaces.focused
                == origin.workspace
            &&& second.manager.monitors.focused == target.monitor
            &&& second.manager.monitors.elements[target.monitor as int].workspaces.focused
                == target.workspace
            &&& first.screen.steps == screen.steps + seq![
                update,
                StepView::Continue(Resume::Event(EventStage::OriginUpdated { target }, event)),
            ]
            &&& second.screen.steps == screen.steps + seq![
                update,
                StepView::Continue(Resume::Event(EventStage::TargetUpdated, event)),
            ]
        }),
{
    reveal(process_event::resumed);
    reveal(process_event::go_on);
    reveal(move_resize::visit);
}

/// A drag remembers where it begins, and brings the window to the top first. It is
/// forgotten at the end of the drag, whatever comes of it.
pub proof fn drags_remember_where_they_begin(
    manager: ManagerView,
    screen: ScreenView,
    context: ContextView,
    event: WindowManagerEvent,
)
    requires
        places::has_focus(manager),
    ensures
        event is MoveResizeStart ==> places::turn_at(
            manager,
            screen,
            context,
            event,
            EventStage::Handle,
        ).screen.steps == screen.steps + seq![
            StepView::Do(Call::BringWindowToTop(event.window_of().hwnd)),
            StepView::Continue(Resume::Event(EventStage::MoveStarted, event)),
        ],
        event is MoveResizeStart ==> places::turn_at(
            manager,
            screen,
            context,
            event,
            EventStage::MoveStarted,
        ).manager == (ManagerView {
            pending_move_op: Some(
                (
                    manager.monitors.focused,
                    manager.monitors.elements[manager.monitors.focused as int].workspaces.focused,
                    event.window_of().hwnd,
                ),
            ),
            ..manager
        }),
        event is MoveResizeEnd && !context.seen.answer ==> places::turn_at(
            manager,
            screen,
            context,
            event,
            EventStage::MoveCaptured,
        ).manager.pending_move_op is None,
        event is MoveResizeEnd && context.seen.answer ==> places::turn_at(
            manager,
            screen,
            context,
            event,
            EventStage::MoveCaptured,
        ).screen == screen,
{
    reveal(process_event::resumed);
    reveal(process_event::go_on);
    reveal(process_event::handle);
    reveal(process_event::move_started);
    reveal(event_end::settle);
    reveal(move_resize::drag_ended);
    reveal(move_resize::moved_across);
    reveal(move_resize::moved_within);
    reveal(move_resize::resized);
}

} // verus!
