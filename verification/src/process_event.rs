//! How the window manager answers to what happens to windows.
//!
//! An event is handled in stages. Each stage changes the state and plans what is asked of
//! the window system; where what comes next depends on how that went, the plan ends with
//! the stage at which the manager is to be asked again.

use vstd::prelude::*;

use crate::container;
use crate::eligibility;
use crate::error::Error;
use crate::event_end;
use crate::focus_change;
use crate::layers;
use crate::manager_op::ManagerOp;
use crate::monitor;
use crate::monitor::MonitorView;
use crate::move_resize;
use crate::new_window;
use crate::pins;
use crate::plan::Call;
use crate::plan::EventStage;
use crate::plan::Resume;
use crate::plan::StepView;
use crate::turn;
use crate::turn::Context;
use crate::turn::ContextView;
use crate::turn::Turn;
use crate::window;
use crate::window::Screen;
use crate::window::ScreenView;
use crate::window_gone;
use crate::window_manager::ManagerView;
use crate::window_manager::WindowManager;
use crate::window_manager_event::WindowManagerEvent;
use crate::workspace::WorkspaceLayer;

verus! {

/// Find out whether the window is maximized, and go on.
pub open spec fn capture(
    manager: ManagerView,
    screen: ScreenView,
    event: WindowManagerEvent,
    stage: EventStage,
) -> Turn {
    turn::done(
        manager,
        event_end::next(
            screen.managing(ManagerOp::CaptureNativeMaximize(event.window_of().hwnd)),
            stage,
            event,
        ),
    )
}

/// Handle an event, once the workspace rules have been enforced.
#[verifier::opaque]
pub open spec fn handle(
    manager: ManagerView,
    screen: ScreenView,
    context: ContextView,
    event: WindowManagerEvent,
) -> Turn {
    let hwnd = event.window_of().hwnd;
    match event {
        WindowManagerEvent::MouseCapture(..) => turn::done(manager, screen),
        WindowManagerEvent::Raise(_) => turn::done(
            manager,
            event_end::next(
                screen.followed_by(window::focus_steps(hwnd, false, screen.desktop)),
                EventStage::Raised,
                event,
            ),
        ),
        WindowManagerEvent::DragDrop(..) => window_gone::dropped_on(
            manager,
            screen,
            context,
            event,
        ),
        WindowManagerEvent::Destroy(..) | WindowManagerEvent::Unmanage(_) =>
            window_gone::destroyed(manager, screen, context, event),
        WindowManagerEvent::Minimize(..) => window_gone::minimized(
            manager,
            screen,
            context,
            event,
        ),
        WindowManagerEvent::Hide(..) => window_gone::hidden(manager, screen, context, event),
        WindowManagerEvent::FocusChange(..) => focus_change::focus_changed(
            manager,
            screen,
            context,
            event,
        ),
        WindowManagerEvent::Show(..)
        | WindowManagerEvent::Manage(_)
        | WindowManagerEvent::Uncloak(..) => new_window::shown(manager, screen, context, event),
        WindowManagerEvent::MoveResizeStart(..) => match manager.monitor() {
            Err(error) => turn::failed(manager, screen, error),
            Ok(_) => turn::done(
                manager,
                event_end::next(
                    screen.taking(StepView::Do(Call::BringWindowToTop(hwnd))),
                    EventStage::MoveStarted,
                    event,
                ),
            ),
        },
        WindowManagerEvent::MoveResizeEnd(..) => capture(
            manager,
            screen,
            event,
            EventStage::MoveCaptured,
        ),
        WindowManagerEvent::LocationChange(..) => capture(
            manager,
            screen,
            event,
            EventStage::Captured,
        ),
        WindowManagerEvent::Cloak(..) | WindowManagerEvent::TitleUpdate(..) => event_end::settle(
            manager,
            screen,
            context,
            event,
        ),
    }
}

/// Remember where a window is whose move has begun.
#[verifier::opaque]
pub open spec fn move_started(
    manager: ManagerView,
    screen: ScreenView,
    context: ContextView,
    event: WindowManagerEvent,
) -> Turn {
    match manager.monitor() {
        Err(error) => turn::failed(manager, screen, error),
        Ok(monitor) => event_end::settle(
            ManagerView {
                pending_move_op: Some(
                    (manager.monitors.focused, monitor.workspaces.focused, event.window_of().hwnd),
                ),
                ..manager
            },
            screen,
            context,
            event,
        ),
    }
}

/// Go on with an event at a stage.
#[verifier::opaque]
pub open spec fn go_on(
    manager: ManagerView,
    screen: ScreenView,
    context: ContextView,
    event: WindowManagerEvent,
    stage: EventStage,
) -> Turn {
    let hwnd = event.window_of().hwnd;
    match stage {
        EventStage::Arrive => event_end::arrive(manager, screen, context, event),
        EventStage::Enter => event_end::enter(manager, screen, context, event),
        EventStage::Handle => handle(manager, screen, context, event),
        EventStage::Dropped => window_gone::focus_dropped(manager, screen, context, event),
        EventStage::Raised => event_end::settle(
            ManagerView { has_pending_raise_op: false, ..manager },
            screen,
            context,
            event,
        ),
        EventStage::Removed => window_gone::forget_pins(
            manager.movable(hwnd),
            screen,
            context,
            event,
        ),
        EventStage::Gone => event_end::settle(manager.movable(hwnd), screen, context, event),
        EventStage::FocusUpdated { is_pinned } => focus_change::focus_updated(
            manager,
            screen,
            context,
            event,
            is_pinned,
        ),
        EventStage::FocusLayer { previous, flips_suppressed } => focus_change::focus_layer(
            manager,
            screen,
            event,
            previous,
            flips_suppressed,
        ),
        EventStage::FocusOverlay {
            previous,
            own_float,
            is_pinned,
            keep_overlay,
            flips_suppressed,
        } => focus_change::focus_overlay(
            manager,
            screen,
            context,
            event,
            previous,
            own_float,
            is_pinned,
            keep_overlay,
            flips_suppressed,
        ),
        EventStage::Captured => if context.seen.answer {
            turn::done(manager, screen)
        } else {
            event_end::settle(manager, screen, context, event)
        },
        EventStage::MoveCaptured => if context.seen.answer {
            turn::done(manager, screen)
        } else {
            move_resize::drag_ended(manager, screen, context, event)
        },
        EventStage::MoveStarted => move_started(manager, screen, context, event),
        EventStage::Transferred { origin, target } => move_resize::visit(
            manager,
            screen,
            event,
            origin,
            EventStage::OriginUpdated { target },
        ),
        EventStage::OriginUpdated { target } => move_resize::visit(
            manager,
            screen,
            event,
            target,
            EventStage::TargetUpdated,
        ),
        EventStage::TargetUpdated => event_end::settle(
            manager,
            screen.followed_by(
                window::focus_steps(hwnd, manager.mouse_follows_focus, screen.desktop),
            ),
            context,
            event,
        ),
        EventStage::Reconciled => new_window::add_shown(manager, screen, context, event, false),
        EventStage::ShowFloated { pin, previous, had_monocle } => new_window::floated(
            manager,
            screen,
            context,
            event,
            pin,
            previous,
            had_monocle,
        ),
        EventStage::ShowAdded { previous, had_monocle } => new_window::added(
            manager,
            screen,
            event,
            previous,
            had_monocle,
        ),
        EventStage::ShowFocused { previous } => new_window::show_focused(
            manager,
            screen,
            context,
            event,
            previous,
        ),
        EventStage::Settled => event_end::settle(manager, screen, context, event),
        EventStage::Report => event_end::report(manager, screen, context, event),
    }
}

/// The first monitor with a handle, from an index on.
pub open spec fn monitor_with(monitors: Seq<MonitorView>, id: isize, from: int) -> Option<int>
    decreases monitors.len() - from,
{
    if from < 0 || from >= monitors.len() {
        None
    } else if monitors[from].id == id {
        Some(from)
    } else {
        monitor_with(monitors, id, from + 1)
    }
}

/// Go on where the manager was to be asked again. A monitor that is gone by then is left
/// out.
#[verifier::opaque]
pub open spec fn resumed(
    manager: ManagerView,
    screen: ScreenView,
    context: ContextView,
    resume: Resume,
) -> Turn {
    match resume {
        Resume::RestackAfterSwitch(id) => match monitor_with(manager.monitors.elements, id, 0) {
            Some(at) => {
                let monitor = manager.monitors.elements[at];
                let climb_active = !(screen.desktop.foreground matches Some(foreground)
                    && monitor::any_has(monitor.workspaces.elements, foreground));
                turn::done(
                    manager,
                    monitor.stacked(screen, climb_active, true, context.settings),
                )
            },
            None => turn::done(manager, screen),
        },
        Resume::UpdateMonitor(id) => match monitor_with(manager.monitors.elements, id, 0) {
            Some(at) => {
                let monitor = manager.monitors.elements[at];
                if monitor.workspaces.focused_element() is Some {
                    turn::done(
                        manager.with_monitor(
                            at,
                            monitor.with_globals_at(
                                monitor.workspaces.focused as int,
                                manager.work_area_offset,
                                context.settings,
                            ),
                        ),
                        monitor.updated_screen(screen, context.settings),
                    )
                } else {
                    turn::failed(manager, screen, Error::NoWorkspace)
                }
            },
            None => turn::done(manager, screen),
        },
        Resume::SettlePins(id) => match monitor_with(manager.monitors.elements, id, 0) {
            Some(at) => turn::done(
                manager,
                manager.monitors.elements[at].with_pins(screen, context.settings),
            ),
            None => turn::done(manager, screen),
        },
        Resume::Event(stage, event) => go_on(manager, screen, context, event, stage),
    }
}

impl WindowManager {
    /// Answer to an event. Nothing happens while the manager is paused, for windows that
    /// are not managed, and on another virtual desktop than the own one.
    pub fn process_event(
        &mut self,
        event: WindowManagerEvent,
        context: &Context,
        screen: &mut Screen,
    ) -> (r: Result<(), Error>)
        requires
            context@.wf(),
        ensures
            (Turn { manager: final(self)@, screen: final(screen)@, result: r })
                == event_end::begin(old(self)@, old(screen)@, context@, event),
    {
        proof {
            reveal(event_end::begin);
        }
        self.begin_event(event, context, screen)
    }

    /// Go on where the manager was to be asked again.
    pub fn resume(&mut self, resume: Resume, context: &Context, screen: &mut Screen) -> (r: Result<
        (),
        Error,
    >)
        requires
            context@.wf(),
        ensures
            (Turn { manager: final(self)@, screen: final(screen)@, result: r }) == resumed(
                old(self)@,
                old(screen)@,
                context@,
                resume,
            ),
    {
        proof {
            reveal(resumed);
        }
        match resume {
            Resume::RestackAfterSwitch(id) => match self.monitor_idx_with(id) {
                Some(idx) => {
                    let monitor = &self.monitors.elements[idx];
                    assert(monitor@ == self@.monitors.elements[idx as int]);
                    let _ = monitor.restack_after_switch(context.settings, screen);
                    Ok(())
                },
                None => Ok(()),
            },
            Resume::UpdateMonitor(id) => self.update_monitor(id, context, screen),
            Resume::SettlePins(id) => match self.monitor_idx_with(id) {
                Some(idx) => {
                    let monitor = &self.monitors.elements[idx];
                    assert(monitor@ == self@.monitors.elements[idx as int]);
                    let _ = monitor.apply_pin_visibility(context.settings, screen);
                    Ok(())
                },
                None => Ok(()),
            },
            Resume::Event(stage, event) => self.go_on_with_event(stage, event, context, screen),
        }
    }

    fn monitor_idx_with(&self, id: isize) -> (r: Option<usize>)
        ensures
            match r {
                Some(idx) => monitor_with(self@.monitors.elements, id, 0) == Some(idx as int)
                    && idx < self.monitors.elements@.len(),
                None => monitor_with(self@.monitors.elements, id, 0) is None,
            },
    {
        let mut i: usize = 0;
        while i < self.monitors.elements.len()
            invariant
                i <= self.monitors.elements@.len(),
                monitor_with(self@.monitors.elements, id, 0) == monitor_with(
                    self@.monitors.elements,
                    id,
                    i as int,
                ),
            decreases self.monitors.elements@.len() - i,
        {
            assert(self@.monitors.elements[i as int] == self.monitors.elements@[i as int]@);
            if self.monitors.elements[i].id == id {
                return Some(i);
            }
            i = i + 1;
        }
        None
    }

    fn update_monitor(&mut self, id: isize, context: &Context, screen: &mut Screen) -> (r: Result<
        (),
        Error,
    >)
        ensures
            (Turn { manager: final(self)@, screen: final(screen)@, result: r }) == resumed(
                old(self)@,
                old(screen)@,
                context@,
                Resume::UpdateMonitor(id),
            ),
    {
        proof {
            reveal(resumed);
        }
        match self.monitor_idx_with(id) {
            Some(idx) => {
                let offset = self.work_area_offset;
                let ghost before = self@.monitors.elements;
                let r = self.monitors.elements[idx].update_focused_workspace(
                    offset,
                    context.settings,
                    screen,
                );
                assert(self@.monitors.elements =~= before.update(
                    idx as int,
                    self@.monitors.elements[idx as int],
                ));
                assert(before.update(idx as int, before[idx as int]) =~= before);
                match r {
                    Ok(()) => Ok(()),
                    Err(error) => Err(error),
                }
            },
            None => Ok(()),
        }
    }

    fn handle_event(
        &mut self,
        event: WindowManagerEvent,
        context: &Context,
        screen: &mut Screen,
    ) -> (r: Result<(), Error>)
        requires
            context@.wf(),
        ensures
            (Turn { manager: final(self)@, screen: final(screen)@, result: r }) == handle(
                old(self)@,
                old(screen)@,
                context@,
                event,
            ),
    {
        proof {
            reveal(handle);
        }
        match event {
            WindowManagerEvent::MouseCapture(..) => Ok(()),
            WindowManagerEvent::Raise(window) => {
                window.focus(false, &screen.desktop, &mut screen.plan);
                screen.ask(Resume::Event(EventStage::Raised, event));
                Ok(())
            },
            WindowManagerEvent::DragDrop(..) => self.handle_drop(event, context, screen),
            WindowManagerEvent::Destroy(..) | WindowManagerEvent::Unmanage(_) =>
                self.handle_destroyed(event, context, screen),
            WindowManagerEvent::Minimize(..) => self.handle_minimized(event, context, screen),
            WindowManagerEvent::Hide(..) => self.handle_hidden(event, context, screen),
            WindowManagerEvent::FocusChange(..) => self.handle_focus_change(
                event,
                context,
                screen,
            ),
            WindowManagerEvent::Show(..)
            | WindowManagerEvent::Manage(_)
            | WindowManagerEvent::Uncloak(..) => self.handle_shown(event, context, screen),
            WindowManagerEvent::MoveResizeStart(_, window) => {
                if self.focused_monitor().is_none() {
                    return Err(Error::NoMonitor);
                }
                screen.plan.call(Call::BringWindowToTop(window.hwnd));
                screen.ask(Resume::Event(EventStage::MoveStarted, event));
                Ok(())
            },
            WindowManagerEvent::MoveResizeEnd(_, window) => {
                screen.manage(ManagerOp::CaptureNativeMaximize(window.hwnd));
                screen.ask(Resume::Event(EventStage::MoveCaptured, event));
                Ok(())
            },
            WindowManagerEvent::LocationChange(_, window) => {
                screen.manage(ManagerOp::CaptureNativeMaximize(window.hwnd));
                screen.ask(Resume::Event(EventStage::Captured, event));
                Ok(())
            },
            WindowManagerEvent::Cloak(..) | WindowManagerEvent::TitleUpdate(..) =>
                self.settle_event(event, context, screen),
        }
    }

    fn note_move(
        &mut self,
        event: WindowManagerEvent,
        context: &Context,
        screen: &mut Screen,
    ) -> (r: Result<(), Error>)
        requires
            context@.wf(),
        ensures
            (Turn { manager: final(self)@, screen: final(screen)@, result: r }) == move_started(
                old(self)@,
                old(screen)@,
                context@,
                event,
            ),
    {
        proof {
            reveal(move_started);
        }
        let monitor_idx: usize = self.focused_monitor_idx();
        let workspace_idx: usize = match self.focused_monitor() {
            Some(monitor) => monitor.focused_workspace_idx(),
            None => {
                return Err(Error::NoMonitor);
            },
        };
        self.pending_move_op = Some((monitor_idx, workspace_idx, event.hwnd()));
        self.settle_event(event, context, screen)
    }

    fn go_on_with_event(
        &mut self,
        stage: EventStage,
        event: WindowManagerEvent,
        context: &Context,
        screen: &mut Screen,
    ) -> (r: Result<(), Error>)
        requires
            context@.wf(),
        ensures
            (Turn { manager: final(self)@, screen: final(screen)@, result: r }) == go_on(
                old(self)@,
                old(screen)@,
                context@,
                event,
                stage,
            ),
    {
        proof {
            reveal(go_on);
        }
        match stage {
            EventStage::Arrive => self.arrive_on_desktop(event, context, screen),
            EventStage::Enter => self.enter_event(event, context, screen),
            EventStage::Handle => self.handle_event(event, context, screen),
            EventStage::Dropped => self.focus_drop_target(event, context, screen),
            EventStage::Raised => {
                self.has_pending_raise_op = false;
                self.settle_event(event, context, screen)
            },
            EventStage::Removed => self.forget_window(event, context, screen),
            EventStage::Gone => self.handle_gone(event, context, screen),
            EventStage::FocusUpdated { is_pinned } => self.handle_focus_updated(
                event,
                is_pinned,
                context,
                screen,
            ),
            EventStage::FocusLayer { previous, flips_suppressed } => self.handle_focus_layer(
                event,
                previous,
                flips_suppressed,
                screen,
            ),
            EventStage::FocusOverlay {
                previous,
                own_float,
                is_pinned,
                keep_overlay,
                flips_suppressed,
            } => self.handle_focus_overlay(
                event,
                previous,
                own_float,
                is_pinned,
                keep_overlay,
                flips_suppressed,
                context,
                screen,
            ),
            EventStage::Captured => if context.seen.answer {
                Ok(())
            } else {
                self.settle_event(event, context, screen)
            },
            EventStage::MoveCaptured => if context.seen.answer {
                Ok(())
            } else {
                self.handle_drag_end(event, context, screen)
            },
            EventStage::MoveStarted => self.note_move(event, context, screen),
            EventStage::Transferred { origin, target } => self.visit_place(
                event,
                origin,
                EventStage::OriginUpdated { target },
                screen,
            ),
            EventStage::OriginUpdated { target } => self.visit_place(
                event,
                target,
                EventStage::TargetUpdated,
                screen,
            ),
            EventStage::TargetUpdated => {
                let follows = self.mouse_follows_focus;
                event.window().focus(follows, &screen.desktop, &mut screen.plan);
                self.settle_event(event, context, screen)
            },
            EventStage::Reconciled => self.add_shown_window(event, false, context, screen),
            EventStage::ShowFloated { pin, previous, had_monocle } => self.handle_floated(
                event,
                pin,
                previous,
                had_monocle,
                context,
                screen,
            ),
            EventStage::ShowAdded { previous, had_monocle } => self.focus_added_window(
                event,
                previous,
                had_monocle,
                screen,
            ),
            EventStage::ShowFocused { previous } => self.handle_show_focused(
                event,
                previous,
                context,
                screen,
            ),
            EventStage::Settled => self.settle_event(event, context, screen),
            EventStage::Report => self.report_event(event, context, screen),
        }
    }
}

/// A paused manager neither changes nor asks anything of the window system.
pub proof fn a_paused_manager_ignores_events(
    manager: ManagerView,
    screen: ScreenView,
    context: ContextView,
    event: WindowManagerEvent,
)
    requires
        manager.is_paused,
    ensures
        event_end::begin(manager, screen, context, event) == turn::done(manager, screen),
{
    reveal(event_end::begin);
}

/// A pinned window that is shown stays with its monitor: no workspace changes, and nothing
/// is asked of the window system.
pub proof fn pinned_windows_are_not_added(
    manager: ManagerView,
    screen: ScreenView,
    context: ContextView,
    event: WindowManagerEvent,
)
    requires
        event is Show || event is Manage || event is Uncloak,
        manager.pins(event.window_of().hwnd),
    ensures
        handle(manager, screen, context, event) == turn::done(manager, screen),
{
    reveal(handle);
    reveal(new_window::shown);
}

/// An event on another virtual desktop leaves all monitors as they are.
pub proof fn other_desktops_are_left_alone(
    manager: ManagerView,
    screen: ScreenView,
    context: ContextView,
    event: WindowManagerEvent,
)
    requires
        manager.virtual_desktop_id is Some,
        context.seen.virtual_desktop is Some,
        manager.virtual_desktop_id != context.seen.virtual_desktop,
    ensures
        event_end::begin(manager, screen, context, event).manager.monitors == manager.monitors,
        event_end::begin(manager, screen, context, event).result is Ok,
{
    reveal(event_end::begin);
    reveal(event_end::arrive);
}

/// A window that was hidden by the window manager itself stays on its workspace when it
/// is minimized.
pub proof fn hidden_windows_are_kept(
    manager: ManagerView,
    screen: ScreenView,
    context: ContextView,
    event: WindowManagerEvent,
)
    requires
        event is Minimize,
        screen.hiding.hidden.contains(event.window_of().hwnd),
    ensures
        handle(manager, screen, context, event).manager == manager,
{
    reveal(handle);
    reveal(window_gone::minimized);
    reveal(event_end::settle);
}

/// While a display is being connected or disconnected, no minimized window leaves its
/// workspace.
pub proof fn display_changes_keep_windows(
    manager: ManagerView,
    screen: ScreenView,
    context: ContextView,
    event: WindowManagerEvent,
)
    requires
        event is Minimize,
        context.seen.display_changing,
    ensures
        handle(manager, screen, context, event).manager == manager,
{
    reveal(handle);
    reveal(window_gone::minimized);
    reveal(event_end::settle);
}

/// A focus change of a window that has lost the foreground again, or that belongs to
/// another workspace, leaves the focused workspace as it is.
pub proof fn stale_focus_changes_are_ignored(
    manager: ManagerView,
    screen: ScreenView,
    context: ContextView,
    event: WindowManagerEvent,
)
    requires
        event is FocusChange,
        manager.monitor() is Ok,
        !focus_change::focused(event.window_of().hwnd, screen),
        manager.owner(event.window_of().hwnd) matches Some(at) ==> at == (
            manager.monitors.focused,
            manager.monitor()->Ok_0.workspaces.focused,
        ),
    ensures
        handle(manager, screen, context, event) == turn::done(manager, screen),
{
    reveal(handle);
    reveal(focus_change::focus_changed);
}

/// Whether no workspace holds a window but as a floating one, and only on the focused
/// monitor.
pub open spec fn floats_at_most_here(manager: ManagerView, hwnd: isize) -> bool {
    forall|m: int, w: int|
        0 <= m < manager.monitors.elements.len() && 0 <= w
            < manager.monitors.elements[m].workspaces.elements.len() ==> {
            let workspace = #[trigger] manager.monitors.elements[m].workspaces.elements[w];
            !workspace.manages(hwnd) && (workspace.floats(hwnd) ==> m == manager.monitors.focused)
        }
}

/// A new window that a rule pins comes to float on the focused workspace, and is asked for
/// again once that is laid out.
pub proof fn windows_to_pin_float_first(
    manager: ManagerView,
    screen: ScreenView,
    context: ContextView,
    event: WindowManagerEvent,
)
    requires
        event is Show || event is Manage || event is Uncloak,
        !manager.pins(event.window_of().hwnd),
        !(event is Uncloak && manager.expected_uncloaks.contains(event.window_of().hwnd)),
        manager.owner(event.window_of().hwnd) is None,
        !manager.manages(event.window_of().hwnd),
        new_window::floats_new(
            context.seen.behaviour,
            new_window::is_matched(
                context.rules.floating_applications@,
                event.window_of().hwnd,
                context.rules,
                screen.desktop,
            ),
            event,
        ),
        new_window::is_matched(
            context.rules.pinned_floating_applications@,
            event.window_of().hwnd,
            context.rules,
            screen.desktop,
        ),
        handle(manager, screen, context, event).result is Ok,
    ensures
        ({
            let turn = handle(manager, screen, context, event);
            let workspace = manager.workspace()->Ok_0;
            &&& manager.workspace() is Ok
            &&& turn.screen.steps.last() == StepView::Continue(
                Resume::Event(
                    EventStage::ShowFloated {
                        pin: true,
                        previous: workspace.layer,
                        had_monocle: workspace.monocle_container is Some,
                    },
                    event,
                ),
            )
            &&& turn.manager.workspace() matches Ok(after) && after.floats(event.window_of().hwnd)
            &&& floats_at_most_here(turn.manager, event.window_of().hwnd)
        }),
{
    reveal(handle);
    reveal(new_window::shown);
    reveal(new_window::add_shown);
    reveal(new_window::add_new);
    reveal(new_window::add_float);
    let hwnd = event.window_of().hwnd;
    let turn = handle(manager, screen, context, event);
    let workspace = manager.workspace()->Ok_0;
    assert forall|m: int, w: int|
        0 <= m < manager.monitors.elements.len() && 0 <= w
            < manager.monitors.elements[m].workspaces.elements.len() implies !(
    #[trigger] manager.monitors.elements[m].workspaces.elements[w]).has(hwnd) by {
        if manager.monitors.elements[m].workspaces.elements[w].has(hwnd) {
            assert(monitor::any_has(manager.monitors.elements[m].workspaces.elements, hwnd));
            assert(manager.manages(hwnd));
        }
    }
    let floats = workspace.floating(event.window_of()).floating_windows.elements;
    assert(floats.last() == event.window_of());
    assert(container::holds(floats, hwnd));
}

/// Once the focused workspace is laid out with a new window that a rule pins, the window
/// is pinned on the focused monitor and in no list of any workspace, and stays so for the
/// rest of the event.
pub proof fn windows_of_pinning_rules_end_pinned(
    manager: ManagerView,
    screen: ScreenView,
    context: ContextView,
    event: WindowManagerEvent,
    previous: WorkspaceLayer,
    had_monocle: bool,
    last_screen: ScreenView,
    last_context: ContextView,
)
    requires
        manager.monitors.focused_element() is Some,
        floats_at_most_here(manager, event.window_of().hwnd),
    ensures
        ({
            let hwnd = event.window_of().hwnd;
            let turn = go_on(
                manager,
                screen,
                context,
                event,
                EventStage::ShowFloated { pin: true, previous, had_monocle },
            );
            &&& turn.manager.pins_here(hwnd)
            &&& !turn.manager.manages(hwnd)
            &&& go_on(
                turn.manager,
                last_screen,
                last_context,
                event,
                EventStage::ShowFocused { previous },
            ).manager == turn.manager
        }),
{
    reveal(go_on);
    reveal(new_window::floated);
    reveal(new_window::added);
    reveal(new_window::show_focused);
    reveal(event_end::settle);
    let hwnd = event.window_of().hwnd;
    let at = manager.monitors.focused as int;
    let monitor = manager.monitors.elements[at];
    let pinned = manager.with_current_monitor(monitor.pinning(hwnd));
    pins::added(monitor.pinned_floating, hwnd, hwnd);
    assert(pinned.pins_here(hwnd));
    assert forall|m: int| 0 <= m < pinned.monitors.elements.len() implies !monitor::any_has(
        (#[trigger] pinned.monitors.elements[m]).workspaces.elements,
        hwnd,
    ) by {
        assert forall|w: int|
            0 <= w < pinned.monitors.elements[m].workspaces.elements.len() implies !(
        #[trigger] pinned.monitors.elements[m].workspaces.elements[w]).has(hwnd) by {
            let before = manager.monitors.elements[m].workspaces.elements[w];
            assert(!before.manages(hwnd));
            if m == at {
                pins::pinned_windows_belong_to_the_monitor(monitor, hwnd, w);
            }
        }
    }
}

/// Where pinned windows are to be hidden on empty workspaces, stacking the layers and laying
/// the focused workspace out both end with another look at the pinned windows of the
/// monitor. Whatever the raises have shown or hidden by then, each of them ends as it is
/// configured: hidden where the focused workspace is empty, and shown where it is not.
pub proof fn pins_end_as_configured(
    manager: ManagerView,
    at: int,
    screen: ScreenView,
    climb_active: bool,
    climb_tiled: bool,
    observed: ScreenView,
    context: ContextView,
    pin: isize,
)
    requires
        context.settings.hide_pinned_on_empty_workspaces,
        0 <= at < manager.monitors.elements.len(),
        monitor_with(
            manager.monitors.elements,
            manager.monitors.elements[at].id,
            0,
        ) == Some(at),
        manager.monitors.elements[at].workspaces.focused_element() is Some,
        manager.monitors.elements[at].pinned_floating.contains(pin),
    ensures
        ({
            let monitor = manager.monitors.elements[at];
            let resume = Resume::SettlePins(monitor.id);
            let turn = resumed(manager, observed, context, resume);
            let stacked = monitor.stacked(screen, climb_active, climb_tiled, context.settings);
            let updated = monitor.updated_screen(screen, context.settings);
            &&& stacked.steps.last() == StepView::Continue(resume)
            &&& updated.steps.last() == StepView::Continue(resume)
            &&& turn.manager == manager
            &&& turn.result is Ok
            &&& turn.screen.desktop.at(pin).is_window ==> turn.screen.desktop.at(pin).is_shown
                == !monitor.workspaces.focused_element()->0.empty()
        }),
{
    reveal(resumed);
    layers::pins_follow_the_focused_workspace(
        manager.monitors.elements[at],
        observed,
        context.settings,
        pin,
    );
}

/// Where the application of a managed window is slow, nothing but the wait is planned when
/// its event begins. Which virtual desktop is shown and which monitor gets the focus is
/// decided by what is observed after it.
pub proof fn slow_applications_are_waited_for(
    manager: ManagerView,
    screen: ScreenView,
    context: ContextView,
    event: WindowManagerEvent,
    later_screen: ScreenView,
    later_context: ContextView,
)
    requires
        !manager.is_paused,
        ({
            let judgement = event_end::judged(screen, context, event);
            judgement.manage && judgement.steps.len() > 0
        }),
    ensures
        event_end::begin(manager, screen, context, event) == turn::done(
            manager,
            screen.taking(
                StepView::Do(Call::Sleep(context.rules.slow_application_compensation_time)),
            ).asking(Resume::Event(EventStage::Arrive, event)),
        ),
        resumed(
            manager,
            later_screen,
            later_context,
            Resume::Event(EventStage::Arrive, event),
        ) == event_end::arrive(manager, later_screen, later_context, event),
{
    reveal(event_end::begin);
    reveal(resumed);
    reveal(go_on);
    reveal(eligibility::judge);
    let wait = StepView::Do(Call::Sleep(context.rules.slow_application_compensation_time));
    assert(screen.steps + seq![wait] =~= screen.steps.push(wait));
}

} // verus!
