//! How the handling of an event begins and ends.

use vstd::prelude::*;

use crate::container;
use crate::eligibility;
use crate::eligibility::Judgement;
use crate::eligibility::RuleDebug;
use crate::error::Error;
use crate::manager_op::ManagerOp;
use crate::monitor::Monitor;
use crate::plan::Call;
use crate::plan::EventStage;
use crate::plan::Notice;
use crate::plan::Resume;
use crate::plan::Signal;
use crate::plan::Step;
use crate::plan::StepView;
use crate::text;
use crate::turn;
use crate::turn::Context;
use crate::turn::ContextView;
use crate::turn::Turn;
use crate::window;
use crate::window::Screen;
use crate::window::ScreenView;
use crate::window_manager::ManagerView;
use crate::window_manager::WindowManager;
use crate::window_manager_event::WindowManagerEvent;
use crate::workspace::WorkspaceView;

verus! {

/// Whether an event can change on which monitor and workspace windows are.
pub open spec fn changes_places(event: WindowManagerEvent) -> bool {
    match event {
        WindowManagerEvent::Destroy(..)
        | WindowManagerEvent::Unmanage(_)
        | WindowManagerEvent::Hide(..)
        | WindowManagerEvent::Minimize(..)
        | WindowManagerEvent::Show(..)
        | WindowManagerEvent::Manage(_)
        | WindowManagerEvent::Uncloak(..)
        | WindowManagerEvent::MoveResizeEnd(..) => true,
        _ => false,
    }
}

/// Ask the manager to go on with an event.
pub open spec fn next(screen: ScreenView, stage: EventStage, event: WindowManagerEvent) -> ScreenView {
    screen.asking(Resume::Event(stage, event))
}

/// What an event that has been handled leaves to do: a window that is not managed any
/// more comes to the middle of the screen, and the places of the windows are written
/// down anew.
#[verifier::opaque]
pub open spec fn settle(
    manager: ManagerView,
    screen: ScreenView,
    context: ContextView,
    event: WindowManagerEvent,
) -> Turn {
    let centred = match event {
        WindowManagerEvent::Unmanage(window) => match manager.monitor() {
            Ok(monitor) => window::centring(
                window.hwnd,
                monitor.work_area_size,
                true,
                context.settings.floating_window_toggle_aspect_ratio,
                context.settings.animations,
                screen.desktop,
            ),
            Err(error) => Err(error),
        },
        _ => Ok(Seq::empty()),
    };
    match centred {
        Ok(steps) => {
            let placed = screen.followed_by(steps);
            let known = if changes_places(event) {
                placed.managing(ManagerOp::UpdateKnownHwnds)
            } else {
                placed
            };
            turn::done(manager, next(known, EventStage::Report, event))
        },
        Err(error) => turn::failed(manager, screen, error),
    }
}

/// Tell the subscribers of an event, and the other parts of the window manager.
#[verifier::opaque]
pub open spec fn report(
    manager: ManagerView,
    screen: ScreenView,
    context: ContextView,
    event: WindowManagerEvent,
) -> Turn {
    let told = if context.seen.has_subscribers {
        screen.taking(StepView::Notify(Notice::Event(event), context.seen.modified))
    } else {
        screen
    };
    turn::done(
        manager,
        told.taking(StepView::Send(Signal::UpdateBorders(Some(event.window_of().hwnd)))).taking(
            StepView::Send(Signal::UpdateTransparency),
        ).taking(StepView::Send(Signal::UpdateStackbars)),
    )
}

/// Whether a workspace holds a window that it does not show.
pub open spec fn conceals(workspace: WorkspaceView, hwnd: isize) -> bool {
    workspace.manages(hwnd) && !container::holds(workspace.visible(), hwnd)
}

/// Whether an event counts for a workspace although its window looks as if it were not
/// managed: dimming changes how windows look.
pub open spec fn counts_for(workspace: WorkspaceView, event: WindowManagerEvent) -> bool {
    let hwnd = event.window_of().hwnd;
    conceals(workspace, hwnd) || (workspace.manages(hwnd) && event is Minimize)
}

/// Whether an event counts for one of the workspaces.
pub open spec fn counts_for_any(workspaces: Seq<WorkspaceView>, event: WindowManagerEvent) -> bool {
    exists|i: int| 0 <= i < workspaces.len() && counts_for(#[trigger] workspaces[i], event)
}

/// Whether an event is handled although its window looks as if it were not managed.
pub open spec fn overridden(
    manager: ManagerView,
    context: ContextView,
    event: WindowManagerEvent,
) -> bool {
    context.settings.transparency.enabled && exists|i: int|
        0 <= i < manager.monitors.elements.len() && counts_for_any(
            (#[trigger] manager.monitors.elements[i]).workspaces.elements,
            event,
        )
}

/// The virtual desktop of the last event, or no bytes where there is none.
pub open spec fn last_desktop(manager: ManagerView) -> Seq<u8> {
    match manager.last_virtual_desktop_id {
        Some(id) => id,
        None => Seq::empty(),
    }
}

/// The class of a window that explorer ties to the primary monitor, wherever the cursor
/// is.
pub open spec fn is_tied_class(class: Option<String>) -> bool {
    class matches Some(class) && class@ == "OleMainThreadWndClass"@
}

/// The monitor that an event brings into focus.
pub open spec fn monitor_to_focus(
    manager: ManagerView,
    screen: ScreenView,
    context: ContextView,
    event: WindowManagerEvent,
) -> Option<usize> {
    let class = screen.desktop.at(event.window_of().hwnd).class;
    match event {
        WindowManagerEvent::FocusChange(..)
        | WindowManagerEvent::Show(..)
        | WindowManagerEvent::MoveResizeEnd(..) => match context.seen.event_monitor {
            Some(idx) => if class is Some && !is_tied_class(class) && manager.monitors.focused
                != idx {
                Some(idx)
            } else {
                None
            },
            None => None,
        },
        _ => None,
    }
}

/// Remember the state, focus the monitor of the event, and have the workspace rules
/// enforced before the event is handled.
#[verifier::opaque]
pub open spec fn enter(
    manager: ManagerView,
    screen: ScreenView,
    context: ContextView,
    event: WindowManagerEvent,
) -> Turn {
    let remembered = screen.taking(StepView::RememberState);
    let enforced = next(
        remembered.managing(ManagerOp::EnforceWorkspaceRules),
        EventStage::Handle,
        event,
    );
    match monitor_to_focus(manager, screen, context, event) {
        Some(idx) => if idx < manager.monitors.elements.len() {
            turn::done(manager.focusing_monitor(idx as int), enforced)
        } else {
            turn::failed(manager, remembered, Error::NoMonitorAt(idx))
        },
        None => turn::done(manager, enforced),
    }
}

/// Handle an event where the virtual desktop that is shown is the own one. Where another
/// one was shown before, all windows are laid out again first.
#[verifier::opaque]
pub open spec fn arrive(
    manager: ManagerView,
    screen: ScreenView,
    context: ContextView,
    event: WindowManagerEvent,
) -> Turn {
    match (manager.virtual_desktop_id, context.seen.virtual_desktop) {
        (Some(own), Some(shown)) => {
            let noted = ManagerView { last_virtual_desktop_id: Some(shown), ..manager };
            if shown != own {
                turn::done(
                    noted,
                    screen.taking(StepView::Do(Call::DestroyAllBorders)).taking(
                        StepView::Notify(Notice::LeftAssociatedVirtualDesktop, true),
                    ),
                )
            } else if last_desktop(manager) != shown {
                turn::done(
                    noted,
                    next(
                        screen.managing(ManagerOp::RetileAll(true)).taking(
                            StepView::Notify(Notice::EnteredAssociatedVirtualDesktop, true),
                        ),
                        EventStage::Enter,
                        event,
                    ),
                )
            } else {
                enter(noted, screen, context, event)
            }
        },
        _ => enter(manager, screen, context, event),
    }
}

/// Whether the window of an event is managed, and what is noted and waited for.
pub open spec fn judged(
    screen: ScreenView,
    context: ContextView,
    event: WindowManagerEvent,
) -> Judgement {
    let hwnd = event.window_of().hwnd;
    eligibility::judge(
        screen.desktop.at(hwnd),
        Some(event),
        context.rules,
        context.seen.dimmed_hwnds.contains(hwnd),
        eligibility::blank_debug(),
    )
}

/// Decide whether an event is handled at all: not while the manager is paused, not for
/// windows that are not managed, and not on another virtual desktop. Where a slow
/// application is waited for, what is shown is looked at anew after that.
#[verifier::opaque]
pub open spec fn begin(
    manager: ManagerView,
    screen: ScreenView,
    context: ContextView,
    event: WindowManagerEvent,
) -> Turn {
    let hwnd = event.window_of().hwnd;
    let judgement = judged(screen, context, event);
    let waited = screen.followed_by(judgement.steps);
    if manager.is_paused {
        turn::done(manager, screen)
    } else if judgement.manage || overridden(manager, context, event) {
        if judgement.steps.len() > 0 {
            turn::done(manager, next(waited, EventStage::Arrive, event))
        } else {
            arrive(manager, waited, context, event)
        }
    } else if judgement.debug.matches_ignore_identifier is Some {
        turn::done(manager, waited.taking(StepView::Send(Signal::UpdateBorders(Some(hwnd)))))
    } else {
        turn::done(manager, waited)
    }
}

impl WindowManager {
    pub(crate) fn settle_event(
        &mut self,
        event: WindowManagerEvent,
        context: &Context,
        screen: &mut Screen,
    ) -> (r: Result<(), Error>)
        requires
            context@.wf(),
        ensures
            (Turn { manager: final(self)@, screen: final(screen)@, result: r }) == settle(
                old(self)@,
                old(screen)@,
                context@,
                event,
            ),
    {
        proof {
            reveal(settle);
        }
        match event {
            WindowManagerEvent::Unmanage(window) => {
                let work_area = match self.focused_monitor() {
                    Some(monitor) => monitor.work_area_size,
                    None => {
                        return Err(Error::NoMonitor);
                    },
                };
                let mut unmanaged = window;
                match unmanaged.center(
                    &work_area,
                    true,
                    context.settings.floating_window_toggle_aspect_ratio,
                    &context.settings.animations,
                    &screen.desktop,
                    &mut screen.plan,
                ) {
                    Ok(()) => {},
                    Err(error) => {
                        return Err(error);
                    },
                }
            },
            _ => {
                assert(screen@.followed_by(Seq::empty()).steps =~= screen@.steps);
            },
        }
        if matches!(
            event,
            WindowManagerEvent::Destroy(..)
                | WindowManagerEvent::Unmanage(_)
                | WindowManagerEvent::Hide(..)
                | WindowManagerEvent::Minimize(..)
                | WindowManagerEvent::Show(..)
                | WindowManagerEvent::Manage(_)
                | WindowManagerEvent::Uncloak(..)
                | WindowManagerEvent::MoveResizeEnd(..)
        ) {
            screen.manage(ManagerOp::UpdateKnownHwnds);
        }
        screen.ask(Resume::Event(EventStage::Report, event));
        Ok(())
    }

    pub(crate) fn report_event(
        &mut self,
        event: WindowManagerEvent,
        context: &Context,
        screen: &mut Screen,
    ) -> (r: Result<(), Error>)
        ensures
            (Turn { manager: final(self)@, screen: final(screen)@, result: r }) == report(
                old(self)@,
                old(screen)@,
                context@,
                event,
            ),
    {
        proof {
            reveal(report);
        }
        if context.seen.has_subscribers {
            screen.take_step(Step::Notify(Notice::Event(event), context.seen.modified));
        }
        screen.plan.send(Signal::UpdateBorders(Some(event.hwnd())));
        screen.plan.send(Signal::UpdateTransparency);
        screen.plan.send(Signal::UpdateStackbars);
        Ok(())
    }

    fn is_overridden(&self, event: WindowManagerEvent, context: &Context) -> (r: bool)
        ensures
            r == overridden(self@, context@, event),
    {
        if !context.settings.transparency.enabled {
            return false;
        }
        let mut i: usize = 0;
        while i < self.monitors.elements.len()
            invariant
                context.settings.transparency.enabled,
                i <= self.monitors.elements@.len(),
                forall|k: int|
                    0 <= k < i ==> !counts_for_any(
                        (#[trigger] self@.monitors.elements[k]).workspaces.elements,
                        event,
                    ),
            decreases self.monitors.elements@.len() - i,
        {
            if event_counts_for(&self.monitors.elements[i], event) {
                assert(counts_for_any(
                    self@.monitors.elements[i as int].workspaces.elements,
                    event,
                ));
                return true;
            }
            i = i + 1;
        }
        false
    }

    pub(crate) fn enter_event(
        &mut self,
        event: WindowManagerEvent,
        context: &Context,
        screen: &mut Screen,
    ) -> (r: Result<(), Error>)
        ensures
            (Turn { manager: final(self)@, screen: final(screen)@, result: r }) == enter(
                old(self)@,
                old(screen)@,
                context@,
                event,
            ),
    {
        proof {
            reveal(enter);
        }
        screen.take_step(Step::RememberState);
        let moves_focus = matches!(
            event,
            WindowManagerEvent::FocusChange(..)
                | WindowManagerEvent::Show(..)
                | WindowManagerEvent::MoveResizeEnd(..)
        );
        if moves_focus {
            match context.seen.event_monitor {
                Some(idx) => {
                    let is_free = match event.window().class(&screen.desktop) {
                        Ok(class) => !text::equal(class.as_str(), "OleMainThreadWndClass"),
                        Err(_) => false,
                    };
                    if is_free && self.focused_monitor_idx() != idx {
                        match self.focus_monitor(idx) {
                            Ok(()) => {},
                            Err(error) => {
                                return Err(error);
                            },
                        }
                    }
                },
                None => {},
            }
        }
        screen.manage(ManagerOp::EnforceWorkspaceRules);
        screen.ask(Resume::Event(EventStage::Handle, event));
        Ok(())
    }

    pub(crate) fn begin_event(
        &mut self,
        event: WindowManagerEvent,
        context: &Context,
        screen: &mut Screen,
    ) -> (r: Result<(), Error>)
        requires
            context@.wf(),
        ensures
            (Turn { manager: final(self)@, screen: final(screen)@, result: r }) == begin(
                old(self)@,
                old(screen)@,
                context@,
                event,
            ),
    {
        proof {
            reveal(begin);
        }
        if self.is_paused {
            return Ok(());
        }
        let mut rule_debug = RuleDebug::default();
        let planned: usize = screen.plan.steps.len();
        let should_manage = match event.window().should_manage(
            Some(event),
            &mut rule_debug,
            context.rules,
            &context.seen.dimmed_hwnds,
            &screen.desktop,
            &mut screen.plan,
        ) {
            Ok(should_manage) => should_manage,
            Err(error) => {
                return Err(error);
            },
        };
        if !should_manage && !self.is_overridden(event, context) {
            if rule_debug.matches_ignore_identifier.is_some() {
                screen.plan.send(Signal::UpdateBorders(Some(event.hwnd())));
            }
            return Ok(());
        }
        if screen.plan.steps.len() > planned {
            screen.ask(Resume::Event(EventStage::Arrive, event));
            return Ok(());
        }
        assert(screen@.steps =~= old(screen)@.steps);
        self.arrive_on_desktop(event, context, screen)
    }

    pub(crate) fn arrive_on_desktop(
        &mut self,
        event: WindowManagerEvent,
        context: &Context,
        screen: &mut Screen,
    ) -> (r: Result<(), Error>)
        ensures
            (Turn { manager: final(self)@, screen: final(screen)@, result: r }) == arrive(
                old(self)@,
                old(screen)@,
                context@,
                event,
            ),
    {
        proof {
            reveal(arrive);
        }
        match self.desktops(context) {
            Some((is_own, was_shown)) => {
                self.note_desktop(context);
                if !is_own {
                    screen.plan.call(Call::DestroyAllBorders);
                    screen.take_step(Step::Notify(Notice::LeftAssociatedVirtualDesktop, true));
                    return Ok(());
                }
                if !was_shown {
                    screen.manage(ManagerOp::RetileAll(true));
                    screen.take_step(Step::Notify(Notice::EnteredAssociatedVirtualDesktop, true));
                    screen.ask(Resume::Event(EventStage::Enter, event));
                    return Ok(());
                }
            },
            None => {},
        }
        self.enter_event(event, context, screen)
    }

    /// Whether the virtual desktop that is shown is the own one, and whether it was shown
    /// before, where both are known.
    fn desktops(&self, context: &Context) -> (r: Option<(bool, bool)>)
        ensures
            r == (match (self@.virtual_desktop_id, context@.seen.virtual_desktop) {
                (Some(own), Some(shown)) => Some((shown == own, last_desktop(self@) == shown)),
                _ => None,
            }),
    {
        match (&self.virtual_desktop_id, &context.seen.virtual_desktop) {
            (Some(own), Some(shown)) => {
                let was_shown = match &self.last_virtual_desktop_id {
                    Some(last) => turn::same_bytes(last, shown),
                    None => shown.len() == 0,
                };
                assert(was_shown == (last_desktop(self@) == shown@)) by {
                    if self@.last_virtual_desktop_id is None && shown@.len() == 0 {
                        assert(shown@ =~= Seq::<u8>::empty());
                    }
                }
                Some((turn::same_bytes(shown, own), was_shown))
            },
            _ => None,
        }
    }

    /// Remember the virtual desktop that is shown.
    fn note_desktop(&mut self, context: &Context)
        requires
            context@.seen.virtual_desktop is Some,
        ensures
            final(self)@ == (ManagerView {
                last_virtual_desktop_id: context@.seen.virtual_desktop,
                ..old(self)@
            }),
    {
        match &context.seen.virtual_desktop {
            Some(shown) => {
                self.last_virtual_desktop_id = Some(copy_bytes(shown));
            },
            None => {},
        }
    }
}

fn copy_bytes(bytes: &Vec<u8>) -> (r: Vec<u8>)
    ensures
        r@ == bytes@,
{
    let mut copy: Vec<u8> = Vec::new();
    let mut i: usize = 0;
    while i < bytes.len()
        invariant
            i <= bytes@.len(),
            copy@ == bytes@.take(i as int),
        decreases bytes@.len() - i,
    {
        copy.push(bytes[i]);
        i = i + 1;
        assert(copy@ =~= bytes@.take(i as int));
    }
    assert(bytes@.take(i as int) =~= bytes@);
    copy
}

fn event_counts_for(monitor: &Monitor, event: WindowManagerEvent) -> (r: bool)
    ensures
        r == counts_for_any(monitor@.workspaces.elements, event),
{
    let hwnd: isize = event.hwnd();
    let is_minimize = matches!(event, WindowManagerEvent::Minimize(_, _));
    let mut i: usize = 0;
    while i < monitor.workspaces.elements.len()
        invariant
            hwnd == event.window_of().hwnd,
            is_minimize == (event is Minimize),
            i <= monitor.workspaces.elements@.len(),
            forall|k: int|
                0 <= k < i ==> !counts_for(#[trigger] monitor@.workspaces.elements[k], event),
        decreases monitor.workspaces.elements@.len() - i,
    {
        let workspace = &monitor.workspaces.elements[i];
        assert(workspace@ == monitor@.workspaces.elements[i as int]);
        if workspace.contains_managed_window(hwnd) {
            let visible = workspace.visible_windows();
            if is_minimize || container::position_in(&visible, hwnd).is_none() {
                assert(counts_for(monitor@.workspaces.elements[i as int], event));
                return true;
            }
        }
        i = i + 1;
    }
    false
}

} // verus!
