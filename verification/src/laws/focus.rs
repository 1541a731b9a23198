//! How the state follows the focus.

use vstd::prelude::*;

use crate::behaviour::WorkspaceLayerFocusBehaviour;
use crate::error::Error;
use crate::focus_change;
use crate::geometry::DefaultLayout;
use crate::geometry::Layout;
use crate::laws::arrivals;
use crate::laws::departures;
use crate::laws::dimming;
use crate::laws::places;
use crate::manager_op::ManagerOp;
use crate::plan::EventStage;
use crate::plan::StepView;
use crate::process_event;
use crate::turn::ContextView;
use crate::window::ScreenView;
use crate::window_manager::ManagerView;
use crate::window_manager_event::WindowManagerEvent;
use crate::workspace;
use crate::workspace::WorkspaceLayer;
use crate::workspace::WorkspaceView;

verus! {

/// Whether a workspace has a window in a container.
pub open spec fn tiles(workspace: WorkspaceView, hwnd: isize) -> bool {
    exists|c: int|
        0 <= c < workspace.containers.elements.len() && (
        #[trigger] workspace.containers.elements[c]).has(hwnd)
}

/// Whether the focused container of a workspace shows a window.
pub open spec fn focuses_tile(workspace: WorkspaceView, hwnd: isize) -> bool {
    workspace.containers.focused < workspace.containers.elements.len() && dimming::shows(
        workspace.containers.elements[workspace.containers.focused as int],
        hwnd,
    )
}

/// Whether two workspaces have the same windows in the same containers.
pub open spec fn same_tiles(before: WorkspaceView, after: WorkspaceView) -> bool {
    &&& after.containers.elements.len() == before.containers.elements.len()
    &&& forall|c: int|
        0 <= c < before.containers.elements.len() ==> (
        #[trigger] after.containers.elements[c]).windows.elements
            == before.containers.elements[c].windows.elements
}

/// Whether a workspace can be counted through by indices.
pub open spec fn is_countable(workspace: WorkspaceView) -> bool {
    &&& workspace.containers.elements.len() <= usize::MAX
    &&& forall|c: int|
        0 <= c < workspace.containers.elements.len() ==> (
        #[trigger] workspace.containers.elements[c]).windows.elements.len() <= usize::MAX
    &&& workspace.floating_windows.elements.len() <= usize::MAX
}

/// Focusing a window of a container makes its container the focused one, and the window the
/// one that it shows.
pub proof fn focused_tiles_come_to_the_front(workspace: WorkspaceView, hwnd: isize)
    requires
        tiles(workspace, hwnd),
        is_countable(workspace),
    ensures
        focuses_tile(workspace.focusing_window(hwnd), hwnd),
        same_tiles(workspace, workspace.focusing_window(hwnd)),
        workspace.focusing_window(hwnd).layer == workspace.layer,
        workspace.focusing_window(hwnd).floating_windows == workspace.floating_windows,
        workspace.focusing_window(hwnd).monocle_container == workspace.monocle_container,
{
    let containers = workspace.containers.elements;
    assert(workspace::tiled(containers, hwnd));
    arrivals::holder(containers, hwnd);
    let at = workspace::first_with(containers, hwnd);
    arrivals::holding(containers[at].windows.elements, hwnd);
}

/// A window of another workspace than the focused one that gets the focus changes nothing
/// but the focus of that workspace.
pub proof fn focus_elsewhere_is_remembered(
    manager: ManagerView,
    screen: ScreenView,
    context: ContextView,
    event: WindowManagerEvent,
    m: usize,
    w: usize,
)
    requires
        event is FocusChange,
        places::has_focus(manager),
        manager.known_hwnds.contains_key(event.window_of().hwnd),
        manager.known_hwnds[event.window_of().hwnd] == (m, w),
        m < manager.monitors.elements.len(),
        w < manager.monitors.elements[m as int].workspaces.elements.len(),
        m != manager.monitors.focused || w
            != manager.monitors.elements[m as int].workspaces.focused,
        !manager.monitors.elements[manager.monitors.focused as int].pinned_floating.contains(
            event.window_of().hwnd,
        ),
        tiles(
            manager.monitors.elements[m as int].workspaces.elements[w as int],
            event.window_of().hwnd,
        ),
        is_countable(manager.monitors.elements[m as int].workspaces.elements[w as int]),
    ensures
        ({
            let hwnd = event.window_of().hwnd;
            let turn = places::turn_at(manager, screen, context, event, EventStage::Handle);
            let before = manager.monitors.elements[m as int].workspaces.elements[w as int];
            let after = turn.manager.monitors.elements[m as int].workspaces.elements[w as int];
            &&& turn.result is Ok
            &&& turn.screen == screen
            &&& turn.manager.monitors.focused == manager.monitors.focused
            &&& turn.manager.monitors.elements[m as int].workspaces.focused
                == manager.monitors.elements[m as int].workspaces.focused
            &&& focuses_tile(after, hwnd)
            &&& same_tiles(before, after)
            &&& after.layer == before.layer
            &&& forall|i: int|
                0 <= i < manager.monitors.elements.len() && i != m
                    ==> #[trigger] turn.manager.monitors.elements[i]
                    == manager.monitors.elements[i]
        }),
{
    reveal(process_event::resumed);
    reveal(process_event::go_on);
    reveal(process_event::handle);
    reveal(focus_change::focus_changed);
    focused_tiles_come_to_the_front(
        manager.monitors.elements[m as int].workspaces.elements[w as int],
        event.window_of().hwnd,
    );
}

/// A window of the focused workspace that has got the foreground has the workspace laid out,
/// unless it scrolls or has no containers, and then the state follows.
pub proof fn focus_on_the_workspace_lays_it_out(
    manager: ManagerView,
    screen: ScreenView,
    context: ContextView,
    event: WindowManagerEvent,
)
    requires
        event is FocusChange,
        places::has_focus(manager),
        screen.desktop.foreground == Some(event.window_of().hwnd),
        manager.known_hwnds.contains_key(event.window_of().hwnd),
        manager.known_hwnds[event.window_of().hwnd] == (
            manager.monitors.focused,
            manager.monitors.elements[manager.monitors.focused as int].workspaces.focused,
        ),
        places::focused_workspace(manager).layout != Layout::Default(DefaultLayout::Scrolling),
        places::focused_workspace(manager).containers.elements.len() > 0,
    ensures
        ({
            let hwnd = event.window_of().hwnd;
            let turn = places::turn_at(manager, screen, context, event, EventStage::Handle);
            let is_pinned = manager.monitors.elements[manager.monitors.focused as int]
                .pinned_floating.contains(hwnd);
            &&& turn.result is Ok
            &&& turn.manager == manager
            &&& turn.screen.steps == screen.steps + seq![
                departures::update(manager.mouse_follows_focus, false),
                arrivals::go_on(EventStage::FocusUpdated { is_pinned }, event),
            ]
        }),
{
    reveal(process_event::resumed);
    reveal(process_event::go_on);
    reveal(process_event::handle);
    reveal(focus_change::focus_changed);
    let is_pinned = manager.monitors.elements[manager.monitors.focused as int]
        .pinned_floating.contains(event.window_of().hwnd);
    let turn = places::turn_at(manager, screen, context, event, EventStage::Handle);
    assert(turn.screen.steps =~= screen.steps + seq![
        departures::update(manager.mouse_follows_focus, false),
        arrivals::go_on(EventStage::FocusUpdated { is_pinned }, event),
    ]);
}

/// A tiled window that got the focus is the one that the focused container shows. The tiling
/// layer comes on top, unless the window manager itself moved the focus, or a command has
/// chosen the layer and that is to be respected. No window changes its place.
pub proof fn focused_tiles_bring_their_layer_up(
    manager: ManagerView,
    screen: ScreenView,
    context: ContextView,
    event: WindowManagerEvent,
)
    requires
        event is FocusChange,
        places::has_focus(manager),
        !places::focused_workspace(manager).floats(event.window_of().hwnd),
        places::focused_workspace(manager).maximized_window is None,
        places::focused_workspace(manager).monocle_container is None,
        tiles(places::focused_workspace(manager), event.window_of().hwnd),
        is_countable(places::focused_workspace(manager)),
    ensures
        ({
            let hwnd = event.window_of().hwnd;
            let stage = EventStage::FocusUpdated { is_pinned: false };
            let turn = places::turn_at(manager, screen, context, event, stage);
            let before = places::focused_workspace(manager);
            let after = places::focused_workspace(turn.manager);
            let respects = manager.workspace_layer_focus_behaviour
                == WorkspaceLayerFocusBehaviour::RespectLock;
            let flips = !context.seen.flips_suppressed && !(respects && before.layer_lock);
            &&& turn.result is Ok
            &&& places::same_but_focused_workspace(manager, turn.manager)
            &&& focuses_tile(after, hwnd)
            &&& same_tiles(before, after)
            &&& after.floating_windows == before.floating_windows
            &&& flips ==> after.layer == WorkspaceLayer::Tiling
            &&& !flips ==> after.layer == before.layer
        }),
{
    reveal(process_event::resumed);
    reveal(process_event::go_on);
    reveal(focus_change::focus_updated);
    reveal(focus_change::focus_layer);
    let hwnd = event.window_of().hwnd;
    let before = places::focused_workspace(manager);
    let fronted = before.focusing_window(hwnd);
    focused_tiles_come_to_the_front(before, hwnd);
    assert(workspace::tiled(before.containers.elements, hwnd));
    places::replacing_changes_nothing_else(manager, fronted);
    places::replacing_changes_nothing_else(
        manager.with_workspace(fronted),
        fronted.using_tile(
            manager.workspace_layer_focus_behaviour,
            context.seen.flips_suppressed,
        ),
    );
}

/// A floating window that got the focus is the focused one of the floating windows, and the
/// floating layer comes on top. So it does for a pinned window, unless the window manager
/// itself moved the focus.
pub proof fn focused_floats_bring_their_layer_up(
    manager: ManagerView,
    screen: ScreenView,
    context: ContextView,
    event: WindowManagerEvent,
    is_pinned: bool,
)
    requires
        event is FocusChange,
        places::has_focus(manager),
        places::focused_workspace(manager).floats(event.window_of().hwnd) || (is_pinned
            && places::focused_workspace(manager).maximized_window is None),
        is_countable(places::focused_workspace(manager)),
    ensures
        ({
            let hwnd = event.window_of().hwnd;
            let stage = EventStage::FocusUpdated { is_pinned };
            let turn = places::turn_at(manager, screen, context, event, stage);
            let before = places::focused_workspace(manager);
            let after = places::focused_workspace(turn.manager);
            let floats = after.floating_windows;
            let overlay = EventStage::FocusOverlay {
                previous: before.layer,
                own_float: before.floats(hwnd),
                is_pinned,
                keep_overlay: false,
                flips_suppressed: context.seen.flips_suppressed,
            };
            &&& turn.result is Ok
            &&& turn.screen.steps == screen.steps.push(arrivals::go_on(overlay, event))
            &&& before.floats(hwnd) ==> {
                &&& places::same_but_focused_workspace(manager, turn.manager)
                &&& floats.elements == before.floating_windows.elements
                &&& floats.focused < floats.elements.len()
                &&& floats.elements[floats.focused as int].hwnd == hwnd
                &&& after.layer == WorkspaceLayer::Floating
                &&& after.last_focused_floating_hwnd == Some(hwnd)
                &&& after.containers == before.containers
            }
            &&& !before.floats(hwnd) && context.seen.flips_suppressed ==> turn.manager == manager
            &&& !before.floats(hwnd) && !context.seen.flips_suppressed ==> {
                &&& places::same_but_focused_workspace(manager, turn.manager)
                &&& floats == before.floating_windows
                &&& after.layer == WorkspaceLayer::Floating
                &&& after.last_focused_floating_hwnd == Some(hwnd)
                &&& after.containers == before.containers
            }
        }),
{
    reveal(process_event::resumed);
    reveal(process_event::go_on);
    reveal(focus_change::focus_updated);
    let hwnd = event.window_of().hwnd;
    let before = places::focused_workspace(manager);
    if before.floats(hwnd) {
        arrivals::holding(before.floating_windows.elements, hwnd);
        places::replacing_changes_nothing_else(manager, before.using_float(hwnd));
    } else {
        places::replacing_changes_nothing_else(manager, before.using_pin(hwnd));
    }
}

/// A window that is neither floating, maximized, pinned nor in a container cannot be focused
/// on a workspace without a monocle container.
pub proof fn strangers_are_not_focused(
    manager: ManagerView,
    screen: ScreenView,
    context: ContextView,
    event: WindowManagerEvent,
)
    requires
        event is FocusChange,
        places::has_focus(manager),
        !places::focused_workspace(manager).has(event.window_of().hwnd),
        places::focused_workspace(manager).monocle_container is None,
    ensures
        ({
            let stage = EventStage::FocusUpdated { is_pinned: false };
            let turn = places::turn_at(manager, screen, context, event, stage);
            &&& turn.result == Err::<(), Error>(Error::NoWindow)
            &&& turn.manager == manager
        }),
{
    reveal(process_event::resumed);
    reveal(process_event::go_on);
    reveal(focus_change::focus_updated);
    workspace::windows_of_a_workspace(
        places::focused_workspace(manager),
        event.window_of().hwnd,
    );
}

/// Once the layers have followed the focus, it is found out whether the window is maximized.
/// The state stays as it is.
pub proof fn focused_windows_may_be_maximized(
    manager: ManagerView,
    screen: ScreenView,
    context: ContextView,
    event: WindowManagerEvent,
    previous: WorkspaceLayer,
    own_float: bool,
    is_pinned: bool,
    keep_overlay: bool,
    flips_suppressed: bool,
)
    requires
        places::has_focus(manager),
    ensures
        ({
            let stage = EventStage::FocusOverlay {
                previous,
                own_float,
                is_pinned,
                keep_overlay,
                flips_suppressed,
            };
            let turn = places::turn_at(manager, screen, context, event, stage);
            let steps = turn.screen.steps;
            let capture = ManagerOp::CaptureNativeMaximize(event.window_of().hwnd);
            let rest = flips_suppressed || context.seen.overlay_suppressed
                || places::focused_workspace(manager).layer != WorkspaceLayer::Floating;
            &&& turn.result is Ok
            &&& turn.manager == manager
            &&& steps.len() >= 2
            &&& steps[steps.len() - 2] == StepView::Manage(capture)
            &&& steps[steps.len() - 1] == arrivals::go_on(EventStage::Captured, event)
            &&& rest && previous == places::focused_workspace(manager).layer ==> steps
                == screen.steps + seq![
                StepView::Manage(capture),
                arrivals::go_on(EventStage::Captured, event),
            ]
        }),
{
    reveal(process_event::resumed);
    reveal(process_event::go_on);
    reveal(focus_change::focus_overlay);
}

} // verus!
