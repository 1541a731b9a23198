//! How events come in and how they end.

use vstd::prelude::*;

use crate::eligibility;
use crate::eligibility::Candidate;
use crate::error::Error;
use crate::event_end;
use crate::laws::arrivals;
use crate::laws::places;
use crate::manager_op::ManagerOp;
use crate::plan::Call;
use crate::plan::EventStage;
use crate::plan::Notice;
use crate::plan::Signal;
use crate::plan::StepView;
use crate::process_event;
use crate::ring::RingView;
use crate::rule_set;
use crate::rule_set::RuleSet;
use crate::rules;
use crate::styles;
use crate::turn::ContextView;
use crate::window;
use crate::window::ScreenView;
use crate::window_gone;
use crate::window_manager::ManagerView;
use crate::window_manager_event::WindowManagerEvent;

verus! {

/// Whether the window of an event is managed, without being waited for.
pub open spec fn is_managed(
    screen: ScreenView,
    context: ContextView,
    event: WindowManagerEvent,
) -> bool {
    event_end::judged(screen, context, event).manage && event_end::judged(
        screen,
        context,
        event,
    ).steps.len() == 0
}

/// Whether an event has the monitor on which its window is focused: the focus changed, or a
/// window was shown or moved, and the window is not one that is tied to the primary monitor.
pub open spec fn leads_to_monitor(
    manager: ManagerView,
    screen: ScreenView,
    context: ContextView,
    event: WindowManagerEvent,
) -> bool {
    let class = screen.desktop.at(event.window_of().hwnd).class;
    &&& event is FocusChange || event is Show || event is MoveResizeEnd
    &&& context.seen.event_monitor is Some
    &&& context.seen.event_monitor->0 != manager.monitors.focused
    &&& class is Some
    &&& class->0@ != "OleMainThreadWndClass"@
}

/// An event about a managed window has the state remembered, the monitor of the window focused
/// where the event leads there, the workspace rules enforced and then the event handled.
pub proof fn events_about_managed_windows_are_handled(
    manager: ManagerView,
    screen: ScreenView,
    context: ContextView,
    event: WindowManagerEvent,
)
    requires
        !manager.is_paused,
        is_managed(screen, context, event),
        manager.virtual_desktop_id is None || context.seen.virtual_desktop is None,
    ensures
        ({
            let turn = event_end::begin(manager, screen, context, event);
            let idx = context.seen.event_monitor->0;
            let leads = leads_to_monitor(manager, screen, context, event);
            let steps = screen.steps + seq![
                StepView::RememberState,
                StepView::Manage(ManagerOp::EnforceWorkspaceRules),
                arrivals::go_on(EventStage::Handle, event),
            ];
            &&& !leads ==> turn.result is Ok && turn.manager == manager && turn.screen.steps
                == steps
            &&& leads && idx < manager.monitors.elements.len() ==> turn.result is Ok
                && turn.screen.steps == steps && turn.manager == (ManagerView {
                monitors: RingView { elements: manager.monitors.elements, focused: idx },
                ..manager
            })
            &&& leads && idx >= manager.monitors.elements.len() ==> turn.result == Err::<
                (),
                Error,
            >(Error::NoMonitorAt(idx)) && turn.manager == manager
        }),
{
    reveal(event_end::begin);
    reveal(event_end::arrive);
    reveal(event_end::enter);
    let none = event_end::judged(screen, context, event).steps;
    assert(screen.steps + none =~= screen.steps);
    let steps = screen.steps + seq![
        StepView::RememberState,
        StepView::Manage(ManagerOp::EnforceWorkspaceRules),
        arrivals::go_on(EventStage::Handle, event),
    ];
    assert(screen.steps.push(StepView::RememberState).push(
        StepView::Manage(ManagerOp::EnforceWorkspaceRules),
    ).push(arrivals::go_on(EventStage::Handle, event)) =~= steps);
}

/// An event about a window that is not managed changes nothing, unless dimming is on. At most
/// its border follows, where a rule ignores the window.
pub proof fn events_about_other_windows_change_nothing(
    manager: ManagerView,
    screen: ScreenView,
    context: ContextView,
    event: WindowManagerEvent,
)
    requires
        !event_end::judged(screen, context, event).manage,
        event_end::judged(screen, context, event).steps.len() == 0,
        !context.settings.transparency.enabled,
    ensures
        ({
            let turn = event_end::begin(manager, screen, context, event);
            let border = StepView::Send(Signal::UpdateBorders(Some(event.window_of().hwnd)));
            &&& turn.result is Ok
            &&& turn.manager == manager
            &&& turn.screen.steps == screen.steps || turn.screen.steps == screen.steps.push(border)
        }),
{
    reveal(event_end::begin);
    let none = event_end::judged(screen, context, event).steps;
    assert(screen.steps + none =~= screen.steps);
}

/// Where another virtual desktop is shown than the own one, nothing is done but that borders go
/// and subscribers are told. Back on the own one, all workspaces are laid out before the event
/// goes on.
pub proof fn virtual_desktops_are_left_and_entered(
    manager: ManagerView,
    screen: ScreenView,
    context: ContextView,
    event: WindowManagerEvent,
)
    requires
        !manager.is_paused,
        is_managed(screen, context, event),
        manager.virtual_desktop_id is Some,
        context.seen.virtual_desktop is Some,
    ensures
        ({
            let turn = event_end::begin(manager, screen, context, event);
            let own = manager.virtual_desktop_id->0;
            let shown = context.seen.virtual_desktop->0;
            let noted = ManagerView { last_virtual_desktop_id: Some(shown), ..manager };
            &&& turn.result is Ok || leads_to_monitor(manager, screen, context, event)
            &&& own != shown ==> turn.manager == noted && turn.screen.steps == screen.steps + seq![
                StepView::Do(Call::DestroyAllBorders),
                StepView::Notify(Notice::LeftAssociatedVirtualDesktop, true),
            ]
            &&& own == shown && manager.last_virtual_desktop_id is Some
                && manager.last_virtual_desktop_id->0 != shown ==> turn.manager == noted
                && turn.screen.steps == screen.steps + seq![
                StepView::Manage(ManagerOp::RetileAll(true)),
                StepView::Notify(Notice::EnteredAssociatedVirtualDesktop, true),
                arrivals::go_on(EventStage::Enter, event),
            ]
        }),
{
    reveal(event_end::begin);
    reveal(event_end::arrive);
    reveal(event_end::enter);
    let none = event_end::judged(screen, context, event).steps;
    assert(screen.steps + none =~= screen.steps);
    assert(screen.steps.push(StepView::Do(Call::DestroyAllBorders)).push(
        StepView::Notify(Notice::LeftAssociatedVirtualDesktop, true),
    ) =~= screen.steps + seq![
        StepView::Do(Call::DestroyAllBorders),
        StepView::Notify(Notice::LeftAssociatedVirtualDesktop, true),
    ]);
    assert(screen.steps.push(StepView::Manage(ManagerOp::RetileAll(true))).push(
        StepView::Notify(Notice::EnteredAssociatedVirtualDesktop, true),
    ).push(arrivals::go_on(EventStage::Enter, event)) =~= screen.steps + seq![
        StepView::Manage(ManagerOp::RetileAll(true)),
        StepView::Notify(Notice::EnteredAssociatedVirtualDesktop, true),
        arrivals::go_on(EventStage::Enter, event),
    ]);
}

/// Once an event is handled, the places of the windows are written down anew where it can have
/// changed them, and then it is reported. The state stays.
pub proof fn handled_events_are_settled(
    manager: ManagerView,
    screen: ScreenView,
    context: ContextView,
    event: WindowManagerEvent,
)
    requires
        event !is Unmanage,
    ensures
        ({
            let turn = places::turn_at(manager, screen, context, event, EventStage::Settled);
            let moves = event is Destroy || event is Hide || event is Minimize || event is Show
                || event is Manage || event is Uncloak || event is MoveResizeEnd;
            let known = StepView::Manage(ManagerOp::UpdateKnownHwnds);
            let report = arrivals::go_on(EventStage::Report, event);
            &&& turn.result is Ok
            &&& turn.manager == manager
            &&& moves ==> turn.screen.steps == screen.steps.push(known).push(report)
            &&& !moves ==> turn.screen.steps == screen.steps.push(report)
        }),
{
    reveal(process_event::resumed);
    reveal(process_event::go_on);
    reveal(event_end::settle);
    assert(screen.steps + Seq::<StepView>::empty() =~= screen.steps);
}

/// An event is reported to the subscribers where there are any, with whether the state has
/// changed, and borders, dimming and stackbars follow.
pub proof fn events_are_reported(
    manager: ManagerView,
    screen: ScreenView,
    context: ContextView,
    event: WindowManagerEvent,
)
    ensures
        ({
            let turn = places::turn_at(manager, screen, context, event, EventStage::Report);
            let followers = seq![
                StepView::Send(Signal::UpdateBorders(Some(event.window_of().hwnd))),
                StepView::Send(Signal::UpdateTransparency),
                StepView::Send(Signal::UpdateStackbars),
            ];
            let notice = StepView::Notify(Notice::Event(event), context.seen.modified);
            &&& turn.result is Ok
            &&& turn.manager == manager
            &&& context.seen.has_subscribers ==> turn.screen.steps == screen.steps.push(notice)
                + followers
            &&& !context.seen.has_subscribers ==> turn.screen.steps == screen.steps + followers
        }),
{
    reveal(process_event::resumed);
    reveal(process_event::go_on);
    reveal(event_end::report);
    let turn = places::turn_at(manager, screen, context, event, EventStage::Report);
    let followers = seq![
        StepView::Send(Signal::UpdateBorders(Some(event.window_of().hwnd))),
        StepView::Send(Signal::UpdateTransparency),
        StepView::Send(Signal::UpdateStackbars),
    ];
    let notice = StepView::Notify(Notice::Event(event), context.seen.modified);
    if context.seen.has_subscribers {
        assert(turn.screen.steps =~= screen.steps.push(notice) + followers);
    } else {
        assert(turn.screen.steps =~= screen.steps + followers);
    }
}

/// A window that asks to be raised gets the focus without the cursor following, and then no raise
/// is waited for any more. The state is left as it is until then.
pub proof fn raised_windows_get_the_focus(
    manager: ManagerView,
    screen: ScreenView,
    context: ContextView,
    event: WindowManagerEvent,
)
    requires
        event is Raise,
    ensures
        ({
            let turn = places::turn_at(manager, screen, context, event, EventStage::Handle);
            let raised = places::turn_at(manager, screen, context, event, EventStage::Raised);
            let focus = window::focus_steps(event.window_of().hwnd, false, screen.desktop);
            &&& turn.result is Ok
            &&& turn.manager == manager
            &&& turn.screen.steps == (screen.steps + focus).push(
                arrivals::go_on(EventStage::Raised, event),
            )
            &&& raised.result is Ok
            &&& raised.manager == (ManagerView { has_pending_raise_op: false, ..manager })
        }),
{
    reveal(process_event::resumed);
    reveal(process_event::go_on);
    reveal(process_event::handle);
    reveal(event_end::settle);
}

/// A window of the focused workspace on which something was dropped gets the focus, and any other
/// one does not. The state stays.
pub proof fn windows_that_are_dropped_on_get_the_focus(
    manager: ManagerView,
    screen: ScreenView,
    context: ContextView,
    event: WindowManagerEvent,
)
    requires
        event is DragDrop,
        places::has_focus(manager),
    ensures
        ({
            let turn = places::turn_at(manager, screen, context, event, EventStage::Dropped);
            let hwnd = event.window_of().hwnd;
            let focus = window::focus_steps(hwnd, false, screen.desktop);
            let last = arrivals::go_on(EventStage::Report, event);
            &&& turn.result is Ok
            &&& turn.manager == manager
            &&& places::focused_workspace(manager).has(hwnd) ==> turn.screen.steps == (screen.steps
                + focus).push(last)
            &&& !places::focused_workspace(manager).has(hwnd) ==> turn.screen.steps
                == screen.steps.push(last)
        }),
{
    reveal(process_event::resumed);
    reveal(process_event::go_on);
    reveal(window_gone::focus_dropped);
    reveal(event_end::settle);
    let focus = window::focus_steps(event.window_of().hwnd, false, screen.desktop);
    assert(screen.steps + Seq::<StepView>::empty() =~= screen.steps);
    assert(screen.steps + focus + Seq::<StepView>::empty() =~= screen.steps + focus);
}

/// Whether a rule of a list matches a candidate.
pub open spec fn is_named_by(
    list: Seq<rules::MatchingRule>,
    candidate: Candidate,
    rules: RuleSet,
) -> bool {
    exists|i: int|
        0 <= i < list.len() && rules::rule_matches(
            #[trigger] list[i]@,
            candidate.texts,
            rules.regex_identifiers@,
        )
}

proof fn effect(list: Seq<rules::MatchingRule>, candidate: Candidate, rules: RuleSet)
    ensures
        (eligibility::effective(list, candidate, rules) is Some) == is_named_by(
            list,
            candidate,
            rules,
        ),
{
    if list.len() > 0 {
        rules::later_rules_win(list, list[0], candidate.texts, rules.regex_identifiers@);
    } else {
        reveal(rules::last_match);
    }
}

/// A window is managed by its looks and by the rules: never where its class is one that is never
/// managed, always where a rule manages it, never where a rule ignores it and none manages it.
/// Else it needs a caption and a window edge, or a rule or a program that excuses that, and must
/// be no dialog and not layered, unless a rule allows that, it is dimmed or it was hidden.
pub proof fn windows_are_managed_by_looks_and_rules(candidate: Candidate, rules: RuleSet)
    ensures
        ({
            let never = exists|i: int|
                0 <= i < rules.permaignore_classes@.len() && (
                #[trigger] rules.permaignore_classes@[i])@ == candidate.texts.class;
            let is_wsl = exists|i: int|
                0 <= i < rules.wsl2_ui_processes@.len() && (
                #[trigger] rules.wsl2_ui_processes@[i])@ == candidate.texts.exe;
            let is_managed = is_named_by(rules.manage_identifiers@, candidate, rules);
            let is_ignored = is_named_by(rules.ignore_identifiers@, candidate, rules);
            let has_frame = candidate.style & styles::CAPTION == styles::CAPTION
                && candidate.ex_style & styles::WINDOWEDGE == styles::WINDOWEDGE;
            let is_dialog = candidate.ex_style & styles::DLGMODALFRAME == styles::DLGMODALFRAME;
            let is_layered = candidate.ex_style & styles::LAYERED == styles::LAYERED;
            let excused = is_named_by(rules.no_titlebar@, candidate, rules) || is_wsl;
            let may_be_layered = candidate.dimmed || candidate.hidden || is_named_by(
                rules.layered_whitelist@,
                candidate,
                rules,
            );
            let looks_right = (has_frame || excused) && !is_dialog && (!is_layered
                || may_be_layered);
            &&& never ==> !eligibility::eligible(candidate, rules)
            &&& !never && is_managed ==> eligibility::eligible(candidate, rules)
            &&& !never && !is_managed && is_ignored ==> !eligibility::eligible(candidate, rules)
            &&& !never && !is_managed && !is_ignored ==> eligibility::eligible(candidate, rules)
                == looks_right
        }),
{
    effect(rules.manage_identifiers@, candidate, rules);
    effect(rules.ignore_identifiers@, candidate, rules);
    effect(rules.no_titlebar@, candidate, rules);
    effect(rules.layered_whitelist@, candidate, rules);
    assert(rule_set::holds_text(rules.permaignore_classes@, candidate.texts.class) == exists|
        i: int,
    |
        0 <= i < rules.permaignore_classes@.len() && (#[trigger] rules.permaignore_classes@[i])@
            == candidate.texts.class);
}

} // verus!
