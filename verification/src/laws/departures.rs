//! What comes of windows that are minimized, hidden, closed or not managed any more.

use vstd::prelude::*;

use crate::error::Error;
use crate::event_end;
use crate::laws::places;
use crate::manager_op::ManagerOp;
use crate::new_window;
use crate::pins;
use crate::plan::Call;
use crate::plan::EventStage;
use crate::plan::Resume;
use crate::plan::StepView;
use crate::process_event;
use crate::turn::ContextView;
use crate::turn::Turn;
use crate::window::ScreenView;
use crate::window_gone;
use crate::window_manager::ManagerView;
use crate::window_manager_event::WindowManagerEvent;
use crate::workspace;

verus! {

/// Whether a turn takes a window out of the focused workspace, and nothing else: the window
/// is not on it any more, every other window is, and the rest of the state is the same.
pub open spec fn takes_out(manager: ManagerView, turn: Turn, hwnd: isize) -> bool {
    let before = places::focused_workspace(manager);
    let after = places::focused_workspace(turn.manager);
    &&& places::same_but_focused_workspace(manager, turn.manager)
    &&& !after.has(hwnd)
    &&& forall|other: isize|
        other != hwnd ==> #[trigger] after.has(other) == before.has(other) && after.floats(other)
            == before.floats(other)
    &&& after.layer == before.layer
}

/// The request to lay the focused workspace out.
pub open spec fn update(follow_focus: bool, trigger_focus: bool) -> StepView {
    StepView::Manage(ManagerOp::UpdateFocusedWorkspace { follow_focus, trigger_focus })
}

proof fn taking_out(manager: ManagerView, turn: Turn, hwnd: isize)
    requires
        places::has_focus(manager),
        places::focused_workspace(manager).holds_once(hwnd),
        turn.manager == manager.with_workspace(
            places::focused_workspace(manager).without_window(hwnd),
        ),
    ensures
        takes_out(manager, turn, hwnd),
{
    let before = places::focused_workspace(manager);
    places::replacing_changes_nothing_else(manager, before.without_window(hwnd));
    workspace::windows_that_are_taken_out_are_gone(before, hwnd, 0);
    assert forall|other: isize| other != hwnd implies #[trigger] before.without_window(hwnd).has(
        other,
    ) == before.has(other) && before.without_window(hwnd).floats(other) == before.floats(
        other,
    ) by {
        workspace::windows_that_are_taken_out_are_gone(before, hwnd, other);
    }
}

/// A window that the user minimizes leaves the focused workspace, which keeps all its other
/// windows and is laid out without it. A window that the focused workspace does not hold
/// cannot leave it.
pub proof fn minimized_windows_leave(
    manager: ManagerView,
    screen: ScreenView,
    context: ContextView,
    event: WindowManagerEvent,
)
    requires
        event is Minimize,
        places::has_focus(manager),
        !context.seen.display_changing,
        !screen.hiding.hidden.contains(event.window_of().hwnd),
    ensures
        ({
            let hwnd = event.window_of().hwnd;
            let turn = places::turn_at(manager, screen, context, event, EventStage::Handle);
            let before = places::focused_workspace(manager);
            &&& before.has(hwnd) && before.holds_once(hwnd) ==> takes_out(manager, turn, hwnd)
            &&& before.has(hwnd) ==> turn.result is Ok && turn.screen.hiding == screen.hiding
                && turn.screen.steps == screen.steps + seq![
                update(false, false),
                StepView::Continue(Resume::Event(EventStage::Settled, event)),
            ]
            &&& !before.has(hwnd) ==> turn.result == Err::<(), Error>(Error::NoWindow)
                && turn.manager == manager
        }),
{
    reveal(process_event::resumed);
    reveal(process_event::go_on);
    reveal(process_event::handle);
    reveal(window_gone::minimized);
    reveal(window_gone::take_out);
    let hwnd = event.window_of().hwnd;
    let turn = places::turn_at(manager, screen, context, event, EventStage::Handle);
    let before = places::focused_workspace(manager);
    if turn.manager == manager.with_workspace(before.without_window(hwnd)) && before.holds_once(
        hwnd,
    ) {
        taking_out(manager, turn, hwnd);
    }
}

/// A window that is minimized while a display is connected or disconnected, or because the
/// window manager itself hid it, stays where it is, and nothing is laid out.
pub proof fn windows_that_were_minimized_for_the_user_stay(
    manager: ManagerView,
    screen: ScreenView,
    context: ContextView,
    event: WindowManagerEvent,
)
    requires
        event is Minimize,
        context.seen.display_changing || screen.hiding.hidden.contains(event.window_of().hwnd),
    ensures
        ({
            let turn = places::turn_at(manager, screen, context, event, EventStage::Handle);
            &&& turn.manager == manager
            &&& turn.result is Ok
            &&& turn.screen.steps == screen.steps + seq![
                StepView::Manage(ManagerOp::UpdateKnownHwnds),
                StepView::Continue(Resume::Event(EventStage::Report, event)),
            ]
        }),
{
    reveal(process_event::resumed);
    reveal(process_event::go_on);
    reveal(process_event::handle);
    reveal(window_gone::minimized);
    reveal(event_end::settle);
    assert(screen.steps + Seq::<StepView>::empty() =~= screen.steps);
}

/// A window that is hidden leaves the focused workspace where it does not exist any more, or
/// where a rule says that it closes to the tray and the window manager did not hide it
/// itself. Otherwise it stays, and rules may move it again.
pub proof fn hidden_windows_leave_where_they_are_gone(
    manager: ManagerView,
    screen: ScreenView,
    context: ContextView,
    event: WindowManagerEvent,
)
    requires
        event is Hide,
        places::has_focus(manager),
        ({
            let facts = screen.desktop.at(event.window_of().hwnd);
            facts.title is Some && facts.exe is Some && facts.class is Some && facts.path is Some
        }),
    ensures
        ({
            let hwnd = event.window_of().hwnd;
            let turn = places::turn_at(manager, screen, context, event, EventStage::Handle);
            let later = places::turn_at(manager, screen, context, event, EventStage::Gone);
            let before = places::focused_workspace(manager);
            let to_tray = new_window::is_matched(
                context.rules.tray_and_multi_window_identifiers@,
                hwnd,
                context.rules,
                screen.desktop,
            );
            let goes = !screen.desktop.at(hwnd).is_window || (to_tray
                && !screen.hiding.hidden.contains(hwnd));
            &&& goes && before.has(hwnd) && before.holds_once(hwnd) ==> takes_out(
                manager,
                turn,
                hwnd,
            )
            &&& goes && before.has(hwnd) ==> turn.result is Ok && turn.screen.steps
                == screen.steps + seq![
                update(false, false),
                StepView::Continue(Resume::Event(EventStage::Gone, event)),
            ]
            &&& goes && !before.has(hwnd) ==> turn.result == Err::<(), Error>(Error::NoWindow)
            &&& !goes ==> turn.result is Ok && turn.manager.monitors == manager.monitors
                && !turn.manager.already_moved_window_handles.contains(hwnd)
            &&& !later.manager.already_moved_window_handles.contains(hwnd)
            &&& later.manager.monitors == manager.monitors
        }),
{
    reveal(process_event::resumed);
    reveal(process_event::go_on);
    reveal(process_event::handle);
    reveal(window_gone::hidden);
    reveal(window_gone::take_out);
    reveal(event_end::settle);
    let hwnd = event.window_of().hwnd;
    let turn = places::turn_at(manager, screen, context, event, EventStage::Handle);
    let before = places::focused_workspace(manager);
    if turn.manager == manager.with_workspace(before.without_window(hwnd)) && before.holds_once(
        hwnd,
    ) {
        taking_out(manager, turn, hwnd);
    }
}

/// A window that is closed, or not managed any more, is forgotten by the window system's
/// cache and leaves the focused workspace, which is laid out without it. The focus follows
/// where a monocle container is kept.
pub proof fn closed_windows_leave(
    manager: ManagerView,
    screen: ScreenView,
    context: ContextView,
    event: WindowManagerEvent,
)
    requires
        event is Destroy || event is Unmanage,
        places::has_focus(manager),
        places::focused_workspace(manager).has(event.window_of().hwnd),
    ensures
        ({
            let hwnd = event.window_of().hwnd;
            let turn = places::turn_at(manager, screen, context, event, EventStage::Handle);
            let before = places::focused_workspace(manager);
            let after = places::focused_workspace(turn.manager);
            let keeps_monocle = manager.keep_monocle_on_window_close
                && after.monocle_container is Some
                && after.monocle_container->0.windows.elements.len() > 0;
            let steps = turn.screen.steps;
            &&& turn.result is Ok
            &&& before.holds_once(hwnd) ==> takes_out(manager, turn, hwnd)
            &&& screen.steps.push(
                StepView::Do(Call::InvalidateWindowMetadata(hwnd)),
            ).is_prefix_of(steps)
            &&& steps.len() >= screen.steps.len() + 3
            &&& steps[steps.len() - 2] == update(keeps_monocle, keeps_monocle)
            &&& steps.last() == StepView::Continue(Resume::Event(EventStage::Removed, event))
            &&& after.monocle_container is None ==> steps.len() == screen.steps.len() + 3
        }),
{
    reveal(process_event::resumed);
    reveal(process_event::go_on);
    reveal(process_event::handle);
    reveal(window_gone::destroyed);
    let hwnd = event.window_of().hwnd;
    let before = places::focused_workspace(manager);
    let turn = places::turn_at(manager, screen, context, event, EventStage::Handle);
    if before.holds_once(hwnd) {
        taking_out(manager, turn, hwnd);
    }
    let left = before.without_window(hwnd);
    places::replacing_changes_nothing_else(manager, left);
    let forgotten = screen.taking(StepView::Do(Call::InvalidateWindowMetadata(hwnd)));
    showing_adds_steps(forgotten, workspace::fronts(left.containers.elements));
    let shown = forgotten.showing_all(workspace::fronts(left.containers.elements)).steps;
    let first = screen.steps.push(StepView::Do(Call::InvalidateWindowMetadata(hwnd)));
    assert(first.is_prefix_of(shown));
    assert(first =~= turn.screen.steps.subrange(0, first.len() as int));
}

proof fn showing_adds_steps(screen: ScreenView, windows: Seq<crate::window::Window>)
    ensures
        screen.steps.is_prefix_of(screen.showing_all(windows).steps),
    decreases windows.len(),
{
    if windows.len() > 0 {
        showing_adds_steps(screen, windows.drop_last());
        let before = screen.showing_all(windows.drop_last()).steps;
        let after = screen.showing_all(windows).steps;
        assert(screen.steps =~= after.subrange(0, screen.steps.len() as int));
    } else {
        assert(screen.steps =~= screen.steps.subrange(0, screen.steps.len() as int));
    }
}

/// A window that is closed, or not managed any more, is pinned nowhere afterwards, and the
/// pins of all other windows stay. Where it was on the focused workspace, that holds once
/// this one is laid out, and rules may move the window again from then on.
pub proof fn closed_windows_are_not_pinned(
    manager: ManagerView,
    screen: ScreenView,
    context: ContextView,
    event: WindowManagerEvent,
    m: int,
    other: isize,
)
    requires
        event is Destroy || event is Unmanage,
        places::has_focus(manager),
        0 <= m < manager.monitors.elements.len(),
    ensures
        ({
            let hwnd = event.window_of().hwnd;
            let held = places::focused_workspace(manager).has(hwnd);
            let turn = places::turn_at(
                manager,
                screen,
                context,
                event,
                if held {
                    EventStage::Removed
                } else {
                    EventStage::Handle
                },
            );
            let before = manager.monitors.elements[m];
            let after = turn.manager.monitors.elements[m];
            &&& turn.manager.monitors.elements.len() == manager.monitors.elements.len()
            &&& !after.pinned_floating.contains(hwnd)
            &&& !after.pinned_always_on_top.contains(hwnd)
            &&& other != hwnd ==> after.pinned_floating.contains(other)
                == before.pinned_floating.contains(other) && after.pinned_always_on_top.contains(
                other,
            ) == before.pinned_always_on_top.contains(other)
            &&& after.workspaces == before.workspaces
            &&& held ==> !turn.manager.already_moved_window_handles.contains(hwnd)
        }),
{
    reveal(process_event::resumed);
    reveal(process_event::go_on);
    reveal(process_event::handle);
    reveal(window_gone::destroyed);
    reveal(window_gone::forget_pins);
    reveal(event_end::settle);
    let hwnd = event.window_of().hwnd;
    pins::dropped(manager.monitors.elements[m].pinned_floating, hwnd);
    pins::dropped(manager.monitors.elements[m].pinned_always_on_top, hwnd);
}

} // verus!
