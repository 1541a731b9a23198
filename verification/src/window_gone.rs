//! What the window manager does when a window is destroyed, minimized or hidden, and
//! when it is raised or dropped on.

use vstd::prelude::*;

use crate::container;
use crate::eligibility;
use crate::eligibility::RuleDebug;
use crate::error::Error;
use crate::event_end;
use crate::monitor::MonitorView;
use crate::new_window;
use crate::plan::Call;
use crate::plan::EventStage;
use crate::plan::Resume;
use crate::plan::StepView;
use crate::rules;
use crate::turn;
use crate::turn::Context;
use crate::turn::ContextView;
use crate::turn::Turn;
use crate::window;
use crate::window::Screen;
use crate::window::ScreenView;
use crate::window_manager;
use crate::window_manager::ManagerView;
use crate::window_manager::WindowManager;
use crate::window_manager_event::WindowManagerEvent;
use crate::workspace;

verus! {

/// The monitors without a pinned window.
pub open spec fn unpinned(monitors: Seq<MonitorView>, hwnd: isize) -> Seq<MonitorView> {
    monitors.map_values(|monitor: MonitorView| monitor.unpinning(hwnd))
}

/// What unpinning a window on all monitors asks of the window system.
pub open spec fn unpin_all_steps(
    screen: ScreenView,
    monitors: Seq<MonitorView>,
    hwnd: isize,
) -> ScreenView
    decreases monitors.len(),
{
    if monitors.len() == 0 {
        screen
    } else {
        let before = unpin_all_steps(screen, monitors.drop_last(), hwnd);
        before.followed_by(monitors.last().unpin_steps(hwnd, screen.desktop))
    }
}

impl ManagerView {
    /// The manager with a window pinned nowhere.
    pub open spec fn unpinning(self, hwnd: isize) -> ManagerView {
        ManagerView {
            monitors: crate::ring::RingView {
                elements: unpinned(self.monitors.elements, hwnd),
                ..self.monitors
            },
            ..self
        }
    }

    /// The manager with a window free to be moved by a workspace rule again.
    pub open spec fn movable(self, hwnd: isize) -> ManagerView {
        ManagerView {
            already_moved_window_handles: self.already_moved_window_handles.remove(hwnd),
            ..self
        }
    }
}

/// Forget the pins of a window that is gone.
#[verifier::opaque]
pub open spec fn forget_pins(
    manager: ManagerView,
    screen: ScreenView,
    context: ContextView,
    event: WindowManagerEvent,
) -> Turn {
    let hwnd = event.window_of().hwnd;
    event_end::settle(
        manager.unpinning(hwnd),
        unpin_all_steps(screen, manager.monitors.elements, hwnd),
        context,
        event,
    )
}

/// A window was destroyed, or is not to be managed any more. Where the focused workspace
/// had it, the workspace is laid out without it.
#[verifier::opaque]
pub open spec fn destroyed(
    manager: ManagerView,
    screen: ScreenView,
    context: ContextView,
    event: WindowManagerEvent,
) -> Turn {
    let hwnd = event.window_of().hwnd;
    let forgotten = screen.taking(StepView::Do(Call::InvalidateWindowMetadata(hwnd)));
    match manager.workspace() {
        Err(error) => turn::failed(manager, forgotten, error),
        Ok(workspace) => if workspace.has(hwnd) {
            let left = workspace.without_window(hwnd);
            let has_monocle = left.monocle_container matches Some(monocle)
                && monocle.windows.elements.len() > 0;
            let updated = if has_monocle && manager.keep_monocle_on_window_close {
                forgotten.updating(true, true)
            } else if has_monocle {
                forgotten.showing_all(workspace::fronts(left.containers.elements)).updating(
                    false,
                    false,
                )
            } else {
                forgotten.updating(false, false)
            };
            turn::done(
                manager.with_workspace(left),
                event_end::next(updated, EventStage::Removed, event),
            )
        } else {
            forget_pins(manager, forgotten, context, event)
        },
    }
}

/// Take a window out of the focused workspace, and lay it out without it.
#[verifier::opaque]
pub open spec fn take_out(
    manager: ManagerView,
    screen: ScreenView,
    event: WindowManagerEvent,
    stage: EventStage,
) -> Turn {
    let hwnd = event.window_of().hwnd;
    match manager.workspace() {
        Err(error) => turn::failed(manager, screen, error),
        Ok(workspace) => if workspace.has(hwnd) {
            turn::done(
                manager.with_workspace(workspace.without_window(hwnd)),
                event_end::next(screen.updating(false, false), stage, event),
            )
        } else {
            turn::failed(manager, screen, Error::NoWindow)
        },
    }
}

/// A window was minimized. It stays where the window manager itself hid it, and while a
/// display is being connected or disconnected.
#[verifier::opaque]
pub open spec fn minimized(
    manager: ManagerView,
    screen: ScreenView,
    context: ContextView,
    event: WindowManagerEvent,
) -> Turn {
    if context.seen.display_changing || screen.hiding.hidden.contains(event.window_of().hwnd) {
        event_end::settle(manager, screen, context, event)
    } else {
        take_out(manager, screen, event, EventStage::Settled)
    }
}

/// Whether the texts of a window are known.
pub open spec fn has_texts(screen: ScreenView, hwnd: isize) -> bool {
    let facts = screen.desktop.at(hwnd);
    facts.title is Some && facts.exe is Some && facts.class is Some && facts.path is Some
}

/// A window was hidden. It leaves its workspace where it does not exist any more, or where
/// it is known to close to the tray and was not hidden by the window manager itself.
#[verifier::opaque]
pub open spec fn hidden(
    manager: ManagerView,
    screen: ScreenView,
    context: ContextView,
    event: WindowManagerEvent,
) -> Turn {
    let hwnd = event.window_of().hwnd;
    let closes = new_window::is_matched(
        context.rules.tray_and_multi_window_identifiers@,
        hwnd,
        context.rules,
        screen.desktop,
    );
    if !has_texts(screen, hwnd) {
        turn::failed(manager, screen, Error::WindowSystem)
    } else if !screen.desktop.at(hwnd).is_window || (closes && !screen.hiding.hidden.contains(
        hwnd,
    )) {
        take_out(manager, screen, event, EventStage::Gone)
    } else {
        event_end::settle(manager.movable(hwnd), screen, context, event)
    }
}

/// A managed window on which something was dropped gets the focus where it is on the
/// focused workspace.
#[verifier::opaque]
pub open spec fn focus_dropped(
    manager: ManagerView,
    screen: ScreenView,
    context: ContextView,
    event: WindowManagerEvent,
) -> Turn {
    let hwnd = event.window_of().hwnd;
    match manager.workspace() {
        Err(error) => turn::failed(manager, screen, error),
        Ok(workspace) => event_end::settle(
            manager,
            if workspace.has(hwnd) {
                screen.followed_by(window::focus_steps(hwnd, false, screen.desktop))
            } else {
                screen
            },
            context,
            event,
        ),
    }
}

/// Something was dropped on a window. It gets the focus where it is a managed window of
/// the focused workspace. Where its application is slow, it is waited for before.
#[verifier::opaque]
pub open spec fn dropped_on(
    manager: ManagerView,
    screen: ScreenView,
    context: ContextView,
    event: WindowManagerEvent,
) -> Turn {
    let hwnd = event.window_of().hwnd;
    let judgement = eligibility::judge(
        screen.desktop.at(hwnd),
        None,
        context.rules,
        context.seen.dimmed_hwnds.contains(hwnd),
        eligibility::blank_debug(),
    );
    let judged = screen.followed_by(judgement.steps);
    if !judgement.manage {
        event_end::settle(manager, judged, context, event)
    } else if judgement.steps.len() > 0 {
        turn::done(manager, event_end::next(judged, EventStage::Dropped, event))
    } else {
        focus_dropped(manager, judged, context, event)
    }
}

impl WindowManager {
    /// Unpin a window on all monitors.
    fn unpin_everywhere(&mut self, hwnd: isize, screen: &mut Screen)
        ensures
            final(self)@ == old(self)@.unpinning(hwnd),
            final(screen)@ == unpin_all_steps(
                old(screen)@,
                old(self)@.monitors.elements,
                hwnd,
            ),
    {
        let ghost before = self@;
        let ghost monitors = before.monitors.elements;
        let mut i: usize = 0;
        assert(monitors.take(0) =~= Seq::empty());
        while i < self.monitors.elements.len()
            invariant
                i <= monitors.len(),
                monitors == before.monitors.elements,
                monitors.len() == self.monitors.elements@.len(),
                self@ == (ManagerView { monitors: self@.monitors, ..before }),
                self@.monitors.focused == before.monitors.focused,
                self@.monitors.elements.len() == monitors.len(),
                forall|k: int|
                    0 <= k < i ==> #[trigger] self@.monitors.elements[k] == monitors[k].unpinning(
                        hwnd,
                    ),
                forall|k: int|
                    i <= k < monitors.len() ==> #[trigger] self@.monitors.elements[k]
                        == monitors[k],
                screen@ == unpin_all_steps(old(screen)@, monitors.take(i as int), hwnd),
            decreases monitors.len() - i,
        {
            let ghost current = self@.monitors.elements;
            assert(current[i as int] == monitors[i as int]);
            assert(monitors.take(i + 1).drop_last() =~= monitors.take(i as int));
            proof {
                same_desktop(old(screen)@, monitors.take(i as int), hwnd);
            }
            self.monitors.elements[i].unpin_floating_window(
                hwnd,
                &screen.desktop,
                &mut screen.plan,
            );
            assert(self@.monitors.elements =~= current.update(
                i as int,
                self@.monitors.elements[i as int],
            ));
            i = i + 1;
        }
        assert(monitors.take(i as int) =~= monitors);
        assert(self@.monitors.elements =~= unpinned(monitors, hwnd));
    }

    fn make_movable(&mut self, hwnd: isize)
        ensures
            final(self)@ == old(self)@.movable(hwnd),
    {
        broadcast use vstd::std_specs::hash::group_hash_axioms;

        let _ = self.already_moved_window_handles.remove(&hwnd);
    }

    pub(crate) fn forget_window(
        &mut self,
        event: WindowManagerEvent,
        context: &Context,
        screen: &mut Screen,
    ) -> (r: Result<(), Error>)
        requires
            context@.wf(),
        ensures
            (Turn { manager: final(self)@, screen: final(screen)@, result: r }) == forget_pins(
                old(self)@.movable(event.window_of().hwnd),
                old(screen)@,
                context@,
                event,
            ),
    {
        proof {
            reveal(forget_pins);
        }
        self.make_movable(event.hwnd());
        self.unpin_everywhere(event.hwnd(), screen);
        self.settle_event(event, context, screen)
    }

    pub(crate) fn handle_gone(
        &mut self,
        event: WindowManagerEvent,
        context: &Context,
        screen: &mut Screen,
    ) -> (r: Result<(), Error>)
        requires
            context@.wf(),
        ensures
            (Turn { manager: final(self)@, screen: final(screen)@, result: r })
                == event_end::settle(
                old(self)@.movable(event.window_of().hwnd),
                old(screen)@,
                context@,
                event,
            ),
    {
        self.make_movable(event.hwnd());
        self.settle_event(event, context, screen)
    }

    pub(crate) fn handle_destroyed(
        &mut self,
        event: WindowManagerEvent,
        context: &Context,
        screen: &mut Screen,
    ) -> (r: Result<(), Error>)
        requires
            context@.wf(),
        ensures
            (Turn { manager: final(self)@, screen: final(screen)@, result: r }) == destroyed(
                old(self)@,
                old(screen)@,
                context@,
                event,
            ),
    {
        proof {
            reveal(destroyed);
            reveal(forget_pins);
        }
        let hwnd: isize = event.hwnd();
        screen.plan.call(Call::InvalidateWindowMetadata(hwnd));
        let contains = match self.focused_workspace() {
            Ok(workspace) => workspace.contains_window(hwnd),
            Err(error) => {
                return Err(error);
            },
        };
        if contains {
            self.lay_out_without(event, screen);
            Ok(())
        } else {
            self.unpin_everywhere(hwnd, screen);
            self.settle_event(event, context, screen)
        }
    }

    fn lay_out_without(&mut self, event: WindowManagerEvent, screen: &mut Screen)
        requires
            old(self)@.workspace() matches Ok(workspace) && workspace.has(event.window_of().hwnd),
        ensures
            ({
                let left = old(self)@.workspace()->Ok_0.without_window(event.window_of().hwnd);
                let has_monocle = left.monocle_container matches Some(monocle)
                    && monocle.windows.elements.len() > 0;
                &&& final(self)@ == old(self)@.with_workspace(left)
                &&& final(screen)@ == event_end::next(
                    if has_monocle && old(self)@.keep_monocle_on_window_close {
                        old(screen)@.updating(true, true)
                    } else if has_monocle {
                        old(screen)@.showing_all(
                            workspace::fronts(left.containers.elements),
                        ).updating(false, false)
                    } else {
                        old(screen)@.updating(false, false)
                    },
                    EventStage::Removed,
                    event,
                )
            }),
    {
        let keeps = self.keep_monocle_on_window_close;
        match self.focused_workspace_mut() {
            Ok(workspace) => {
                let _ = workspace.remove_window(event.hwnd());
                let has_monocle = match &workspace.monocle_container {
                    Some(monocle) => monocle.windows.elements.len() > 0,
                    None => false,
                };
                if has_monocle && keeps {
                    screen.update(true, true);
                } else {
                    if has_monocle {
                        let windows = workspace::front_windows(&workspace.containers.elements);
                        container::restore_all(&windows, screen);
                    }
                    screen.update(false, false);
                }
            },
            Err(_) => {},
        }
        screen.ask(Resume::Event(EventStage::Removed, event));
    }

    fn take_out_window(
        &mut self,
        event: WindowManagerEvent,
        stage: EventStage,
        screen: &mut Screen,
    ) -> (r: Result<(), Error>)
        ensures
            (Turn { manager: final(self)@, screen: final(screen)@, result: r }) == take_out(
                old(self)@,
                old(screen)@,
                event,
                stage,
            ),
    {
        proof {
            reveal(take_out);
        }
        proof {
            if self@.workspace() is Ok {
                window_manager::same_workspace(self@);
            }
        }
        let workspace = match self.focused_workspace_mut() {
            Ok(workspace) => workspace,
            Err(error) => {
                return Err(error);
            },
        };
        if !workspace.contains_window(event.hwnd()) {
            return Err(Error::NoWindow);
        }
        match workspace.remove_window(event.hwnd()) {
            Ok(()) => {},
            Err(error) => {
                return Err(error);
            },
        }
        screen.update(false, false);
        screen.ask(Resume::Event(stage, event));
        Ok(())
    }

    pub(crate) fn handle_minimized(
        &mut self,
        event: WindowManagerEvent,
        context: &Context,
        screen: &mut Screen,
    ) -> (r: Result<(), Error>)
        requires
            context@.wf(),
        ensures
            (Turn { manager: final(self)@, screen: final(screen)@, result: r }) == minimized(
                old(self)@,
                old(screen)@,
                context@,
                event,
            ),
    {
        proof {
            reveal(minimized);
        }
        if context.seen.display_changing || screen.hiding.is_hidden(event.hwnd()) {
            self.settle_event(event, context, screen)
        } else {
            self.take_out_window(event, EventStage::Settled, screen)
        }
    }

    pub(crate) fn handle_hidden(
        &mut self,
        event: WindowManagerEvent,
        context: &Context,
        screen: &mut Screen,
    ) -> (r: Result<(), Error>)
        requires
            context@.wf(),
        ensures
            (Turn { manager: final(self)@, screen: final(screen)@, result: r }) == hidden(
                old(self)@,
                old(screen)@,
                context@,
                event,
            ),
    {
        proof {
            reveal(hidden);
        }
        let window = event.window();
        let closes = match (
            window.title(&screen.desktop),
            window.exe(&screen.desktop),
            window.class(&screen.desktop),
            window.path(&screen.desktop),
        ) {
            (Ok(title), Ok(exe), Ok(class), Ok(path)) => rules::should_act(
                title.as_str(),
                exe.as_str(),
                class.as_str(),
                path.as_str(),
                &context.rules.tray_and_multi_window_identifiers,
                &context.rules.regex_identifiers,
            ).is_some(),
            _ => {
                return Err(Error::WindowSystem);
            },
        };
        if !window.is_window(&screen.desktop) || (closes && !screen.hiding.is_hidden(
            window.hwnd,
        )) {
            self.take_out_window(event, EventStage::Gone, screen)
        } else {
            self.handle_gone(event, context, screen)
        }
    }

    pub(crate) fn handle_drop(
        &mut self,
        event: WindowManagerEvent,
        context: &Context,
        screen: &mut Screen,
    ) -> (r: Result<(), Error>)
        requires
            context@.wf(),
        ensures
            (Turn { manager: final(self)@, screen: final(screen)@, result: r }) == dropped_on(
                old(self)@,
                old(screen)@,
                context@,
                event,
            ),
    {
        proof {
            reveal(dropped_on);
        }
        let window = event.window();
        let mut debug = RuleDebug::default();
        let planned: usize = screen.plan.steps.len();
        let manage = match window.should_manage(
            None,
            &mut debug,
            context.rules,
            &context.seen.dimmed_hwnds,
            &screen.desktop,
            &mut screen.plan,
        ) {
            Ok(manage) => manage,
            Err(_) => false,
        };
        if !manage {
            return self.settle_event(event, context, screen);
        }
        if screen.plan.steps.len() > planned {
            screen.ask(Resume::Event(EventStage::Dropped, event));
            return Ok(());
        }
        self.focus_drop_target(event, context, screen)
    }

    pub(crate) fn focus_drop_target(
        &mut self,
        event: WindowManagerEvent,
        context: &Context,
        screen: &mut Screen,
    ) -> (r: Result<(), Error>)
        requires
            context@.wf(),
        ensures
            (Turn { manager: final(self)@, screen: final(screen)@, result: r }) == focus_dropped(
                old(self)@,
                old(screen)@,
                context@,
                event,
            ),
    {
        proof {
            reveal(focus_dropped);
        }
        let window = event.window();
        match self.focused_workspace() {
            Ok(workspace) => {
                if workspace.contains_window(window.hwnd) {
                    window.focus(false, &screen.desktop, &mut screen.plan);
                }
            },
            Err(error) => {
                return Err(error);
            },
        }
        self.settle_event(event, context, screen)
    }
}

/// Unpinning leaves what is observed of the windows as it is.
proof fn same_desktop(screen: ScreenView, monitors: Seq<MonitorView>, hwnd: isize)
    ensures
        unpin_all_steps(screen, monitors, hwnd).desktop == screen.desktop,
        unpin_all_steps(screen, monitors, hwnd).hiding == screen.hiding,
    decreases monitors.len(),
{
    if monitors.len() > 0 {
        same_desktop(screen, monitors.drop_last(), hwnd);
    }
}

/// A window that is gone is pinned nowhere.
pub proof fn gone_windows_are_not_pinned(manager: ManagerView, hwnd: isize)
    ensures
        !manager.unpinning(hwnd).pins(hwnd),
{
    assert forall|i: int| 0 <= i < manager.monitors.elements.len() implies !(
    #[trigger] manager.unpinning(hwnd).monitors.elements[i]).pinned_floating.contains(hwnd) by {
        crate::pins::dropped(manager.monitors.elements[i].pinned_floating, hwnd);
    }
}

} // verus!
