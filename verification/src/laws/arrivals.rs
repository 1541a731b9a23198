//! Where windows go that are shown.

use vstd::prelude::*;

use crate::container;
use crate::container::ContainerView;
use crate::desktop::DesktopView;
use crate::error::Error;
use crate::event_end;
use crate::laws::departures;
use crate::laws::dimming;
use crate::laws::places;
use crate::manager_op::ManagerOp;
use crate::monitor;
use crate::new_window;
use crate::plan::EventStage;
use crate::plan::Resume;
use crate::plan::StepView;
use crate::process_event;
use crate::rule_set::RuleSet;
use crate::rules;
use crate::rules::MatchingRule;
use crate::rules::WindowTexts;
use crate::turn::ContextView;
use crate::window;
use crate::window::ScreenView;
use crate::window::Window;
use crate::window_manager::ManagerView;
use crate::window_manager_event::WindowManagerEvent;
use crate::workspace;
use crate::workspace::WindowContainerBehaviour;
use crate::workspace::WorkspaceLayer;
use crate::workspace::WorkspaceView;

verus! {

/// Whether an event tells that a window is shown, or asks to manage it.
pub open spec fn shows_window(event: WindowManagerEvent) -> bool {
    event is Show || event is Manage || event is Uncloak
}

/// Whether a window is nowhere: on no workspace, pinned to no monitor and not known.
pub open spec fn is_nowhere(manager: ManagerView, hwnd: isize) -> bool {
    &&& !manager.known_hwnds.contains_key(hwnd)
    &&& !manager.expected_uncloaks.contains(hwnd)
    &&& forall|m: int|
        0 <= m < manager.monitors.elements.len()
            ==> !(#[trigger] manager.monitors.elements[m]).pinned_floating.contains(hwnd)
    &&& forall|m: int, w: int|
        0 <= m < manager.monitors.elements.len() && 0 <= w
            < manager.monitors.elements[m].workspaces.elements.len()
            ==> !(#[trigger] manager.monitors.elements[m].workspaces.elements[w]).has(hwnd)
}

/// Whether a new window floats: new windows do, the floating layer is on top, or a rule says
/// so, which a request to manage the window outdoes.
pub open spec fn is_to_float(
    screen: ScreenView,
    context: ContextView,
    event: WindowManagerEvent,
) -> bool {
    ||| context.seen.behaviour.float_override
    ||| context.seen.behaviour.floating_layer_override
    ||| event !is Manage && new_window::is_matched(
        context.rules.floating_applications@,
        event.window_of().hwnd,
        context.rules,
        screen.desktop,
    )
}

/// The layer that is on top once a tiled window came to a workspace.
pub open spec fn tiling_unless_locked(workspace: WorkspaceView) -> WorkspaceLayer {
    if workspace.layer_lock {
        workspace.layer
    } else {
        WorkspaceLayer::Tiling
    }
}

/// A step that asks the manager to go on with an event.
pub open spec fn go_on(stage: EventStage, event: WindowManagerEvent) -> StepView {
    StepView::Continue(Resume::Event(stage, event))
}

proof fn is_added(
    manager: ManagerView,
    screen: ScreenView,
    context: ContextView,
    event: WindowManagerEvent,
)
    requires
        shows_window(event),
        places::has_focus(manager),
        is_nowhere(manager, event.window_of().hwnd),
    ensures
        places::turn_at(manager, screen, context, event, EventStage::Handle) == new_window::add_new(
            manager,
            screen,
            context,
            event,
        ),
{
    reveal(process_event::resumed);
    reveal(process_event::go_on);
    reveal(process_event::handle);
    reveal(new_window::shown);
    reveal(new_window::add_shown);
    let hwnd = event.window_of().hwnd;
    assert(!manager.pins(hwnd));
    assert(!manager.manages(hwnd)) by {
        if manager.manages(hwnd) {
            let m = choose|m: int|
                0 <= m < manager.monitors.elements.len() && monitor::any_has(
                    (#[trigger] manager.monitors.elements[m]).workspaces.elements,
                    hwnd,
                );
            let workspaces = manager.monitors.elements[m].workspaces.elements;
            let w = choose|w: int| 0 <= w < workspaces.len() && (#[trigger] workspaces[w]).has(hwnd);
            assert(manager.monitors.elements[m].workspaces.elements[w].has(hwnd));
        }
    }
}

/// A new window that is tiled gets a container of its own right behind the focused one, or
/// joins the focused container on top, as is configured. Its container gets the focus, all
/// other windows stay where they are, and the workspace is laid out.
pub proof fn new_windows_are_tiled(
    manager: ManagerView,
    screen: ScreenView,
    context: ContextView,
    event: WindowManagerEvent,
)
    requires
        shows_window(event),
        places::has_focus(manager),
        is_nowhere(manager, event.window_of().hwnd),
        !is_to_float(screen, context, event),
        places::focused_workspace(manager).monocle_container is None,
        places::focused_workspace(manager).containers.elements.len() < usize::MAX,
    ensures
        ({
            let window = event.window_of();
            let turn = places::turn_at(manager, screen, context, event, EventStage::Handle);
            let before = places::focused_workspace(manager);
            let after = places::focused_workspace(turn.manager);
            let focused = before.containers.focused as int;
            let len = before.containers.elements.len() as int;
            let at = if focused < len {
                focused + 1
            } else {
                len
            };
            let creates = context.seen.behaviour.current_behaviour
                == WindowContainerBehaviour::Create;
            let stage = EventStage::ShowAdded { previous: before.layer, had_monocle: false };
            &&& creates ==> {
                &&& turn.result is Ok
                &&& places::same_but_focused_workspace(manager, turn.manager)
                &&& after.containers.focused == at
                &&& after.containers.elements.len() == len + 1
                &&& after.containers.elements[at].windows.elements == seq![window]
                &&& dimming::shows(after.containers.elements[at], window.hwnd)
                &&& !after.containers.elements[at].locked
                &&& forall|i: int|
                    0 <= i < at ==> #[trigger] after.containers.elements[i]
                        == before.containers.elements[i]
                &&& forall|i: int|
                    at <= i < len ==> after.containers.elements[i + 1]
                        == #[trigger] before.containers.elements[i]
                &&& after.floating_windows == before.floating_windows
                &&& after.layer == tiling_unless_locked(before)
                &&& turn.screen.steps == screen.steps + seq![
                    departures::update(false, false),
                    go_on(stage, event),
                ]
            }
            &&& !creates && focused < len ==> {
                &&& turn.result is Ok
                &&& places::same_but_focused_workspace(manager, turn.manager)
                &&& after.containers.focused == focused
                &&& after.containers.elements.len() == len
                &&& after.containers.elements[focused].windows.elements
                    == before.containers.elements[focused].windows.elements.push(window)
                &&& before.containers.elements[focused].windows.elements.len() < usize::MAX
                    ==> dimming::shows(after.containers.elements[focused], window.hwnd)
                &&& forall|i: int|
                    0 <= i < len && i != focused ==> #[trigger] after.containers.elements[i]
                        == before.containers.elements[i]
                &&& after.floating_windows == before.floating_windows
                &&& after.layer == tiling_unless_locked(before)
            }
            &&& !creates && focused >= len ==> turn.result == Err::<(), Error>(
                Error::NoContainer,
            ) && turn.manager == manager
        }),
{
    is_added(manager, screen, context, event);
    reveal(new_window::add_new);
    reveal(new_window::add_tile);
    let before = places::focused_workspace(manager);
    let window = event.window_of();
    places::replacing_changes_nothing_else(
        manager,
        before.containing(window).layered(WorkspaceLayer::Tiling),
    );
    places::replacing_changes_nothing_else(
        manager,
        before.stacking(window).layered(WorkspaceLayer::Tiling),
    );
    let turn = places::turn_at(manager, screen, context, event, EventStage::Handle);
    let stage = EventStage::ShowAdded { previous: before.layer, had_monocle: false };
    if context.seen.behaviour.current_behaviour == WindowContainerBehaviour::Create {
        assert(turn.screen.steps =~= screen.steps + seq![
            departures::update(false, false),
            go_on(stage, event),
        ]);
    }
}

/// Where a workspace has a monocle container, a new window that is tiled joins it on top.
/// Nothing else changes.
pub proof fn new_windows_join_the_monocle_container(
    manager: ManagerView,
    screen: ScreenView,
    context: ContextView,
    event: WindowManagerEvent,
)
    requires
        shows_window(event),
        places::has_focus(manager),
        is_nowhere(manager, event.window_of().hwnd),
        !is_to_float(screen, context, event),
        places::focused_workspace(manager).monocle_container is Some,
        places::focused_workspace(manager).monocle_container->0.windows.elements.len()
            < usize::MAX,
    ensures
        ({
            let window = event.window_of();
            let turn = places::turn_at(manager, screen, context, event, EventStage::Handle);
            let before = places::focused_workspace(manager);
            let after = places::focused_workspace(turn.manager);
            &&& turn.result is Ok
            &&& places::same_but_focused_workspace(manager, turn.manager)
            &&& after.monocle_container is Some
            &&& after.monocle_container->0.windows.elements
                == before.monocle_container->0.windows.elements.push(window)
            &&& dimming::shows(after.monocle_container->0, window.hwnd)
            &&& after.containers == before.containers
            &&& after.floating_windows == before.floating_windows
            &&& after.layer == tiling_unless_locked(before)
            &&& turn.screen.steps == screen.steps + seq![
                departures::update(true, true),
                go_on(EventStage::ShowFocused { previous: before.layer }, event),
            ]
        }),
{
    is_added(manager, screen, context, event);
    reveal(new_window::add_new);
    reveal(new_window::added);
    let before = places::focused_workspace(manager);
    let window = event.window_of();
    places::replacing_changes_nothing_else(
        manager,
        before.stacking_monocle(window).layered(WorkspaceLayer::Tiling),
    );
    let turn = places::turn_at(manager, screen, context, event, EventStage::Handle);
    assert(turn.screen.steps =~= screen.steps + seq![
        departures::update(true, true),
        go_on(EventStage::ShowFocused { previous: before.layer }, event),
    ]);
}

/// A new window that floats comes last of the floating windows, and the floating layer comes
/// on top. No container changes. Where it is not centred, the workspace is laid out and
/// nothing else is asked for; whether it is pinned then is up to the rules.
pub proof fn new_windows_float(
    manager: ManagerView,
    screen: ScreenView,
    context: ContextView,
    event: WindowManagerEvent,
)
    requires
        shows_window(event),
        places::has_focus(manager),
        is_nowhere(manager, event.window_of().hwnd),
        is_to_float(screen, context, event),
    ensures
        ({
            let window = event.window_of();
            let turn = places::turn_at(manager, screen, context, event, EventStage::Handle);
            let before = places::focused_workspace(manager);
            let after = places::focused_workspace(turn.manager);
            let pin = new_window::is_matched(
                context.rules.pinned_floating_applications@,
                window.hwnd,
                context.rules,
                screen.desktop,
            );
            let behaviour = context.seen.behaviour;
            let placement = if behaviour.floating_layer_override {
                behaviour.floating_layer_placement
            } else if behaviour.float_override {
                behaviour.float_override_placement
            } else {
                behaviour.float_rule_placement
            };
            let stage = EventStage::ShowFloated {
                pin,
                previous: before.layer,
                had_monocle: before.monocle_container is Some,
            };
            &&& places::same_but_focused_workspace(manager, turn.manager)
            &&& after.floating_windows.elements == before.floating_windows.elements.push(window)
            &&& after.layer == WorkspaceLayer::Floating
            &&& after.containers == before.containers
            &&& after.monocle_container == before.monocle_container
            &&& placement is Unplaced || !before.tile ==> turn.result is Ok && turn.screen.steps
                == screen.steps + seq![departures::update(false, false), go_on(stage, event)]
        }),
{
    is_added(manager, screen, context, event);
    reveal(new_window::add_new);
    reveal(new_window::add_float);
    let before = places::focused_workspace(manager);
    let window = event.window_of();
    places::replacing_changes_nothing_else(
        manager,
        WorkspaceView { layer: WorkspaceLayer::Floating, ..before.floating(window) },
    );
    let turn = places::turn_at(manager, screen, context, event, EventStage::Handle);
    let stage = EventStage::ShowFloated {
        pin: new_window::is_matched(
            context.rules.pinned_floating_applications@,
            window.hwnd,
            context.rules,
            screen.desktop,
        ),
        previous: before.layer,
        had_monocle: before.monocle_container is Some,
    };
    let ends = screen.steps + seq![departures::update(false, false), go_on(stage, event)];
    assert(screen.steps + Seq::<StepView>::empty() =~= screen.steps);
    if turn.screen.steps.len() == ends.len() {
        assert(screen.steps.push(departures::update(false, false)).push(go_on(stage, event))
            =~= ends);
    }
}

/// A new window that is on its workspace gets the focus where new windows do, and where it
/// is the only one there. Otherwise the focus stays where it is.
pub proof fn new_windows_get_the_focus(
    manager: ManagerView,
    screen: ScreenView,
    context: ContextView,
    event: WindowManagerEvent,
    previous: WorkspaceLayer,
)
    requires
        places::has_focus(manager),
    ensures
        ({
            let stage = EventStage::ShowAdded { previous, had_monocle: false };
            let turn = places::turn_at(manager, screen, context, event, stage);
            let workspace = places::focused_workspace(manager);
            let tiles = workspace.containers.elements.len();
            let floats = workspace.floating_windows.elements.len();
            let focusing = window::focus_steps(
                event.window_of().hwnd,
                manager.mouse_follows_focus,
                screen.desktop,
            );
            let last = seq![go_on(EventStage::ShowFocused { previous }, event)];
            &&& turn.manager == manager
            &&& turn.result is Ok
            &&& manager.focus_new_windows || tiles + floats == 1 ==> turn.screen.steps
                == screen.steps + focusing + last
            &&& !manager.focus_new_windows && tiles + floats != 1 ==> turn.screen.steps
                == screen.steps + last
        }),
{
    reveal(process_event::resumed);
    reveal(process_event::go_on);
    reveal(new_window::added);
}

/// A window that is shown and has its place on a workspace already stays there, and so does
/// everything else.
pub proof fn windows_with_a_place_stay_there(
    manager: ManagerView,
    screen: ScreenView,
    context: ContextView,
    event: WindowManagerEvent,
    m: int,
    w: int,
)
    requires
        shows_window(event),
        places::has_focus(manager),
        0 <= m < manager.monitors.elements.len(),
        0 <= w < manager.monitors.elements[m].workspaces.elements.len(),
        manager.monitors.elements[m].workspaces.elements[w].has(event.window_of().hwnd),
        !manager.known_hwnds.contains_key(event.window_of().hwnd),
        event !is Uncloak,
    ensures
        places::turn_at(manager, screen, context, event, EventStage::Handle).manager == manager,
        places::turn_at(manager, screen, context, event, EventStage::Handle).result is Ok,
{
    reveal(process_event::resumed);
    reveal(process_event::go_on);
    reveal(process_event::handle);
    reveal(new_window::shown);
    reveal(new_window::add_shown);
    reveal(event_end::settle);
    let hwnd = event.window_of().hwnd;
    assert(monitor::any_has(manager.monitors.elements[m].workspaces.elements, hwnd));
    assert(manager.manages(hwnd));
}

/// A window that the window manager itself uncloaked is where it belongs: that is not waited for
/// any more, and nothing else changes.
pub proof fn expected_windows_stay_where_they_are(
    manager: ManagerView,
    screen: ScreenView,
    context: ContextView,
    event: WindowManagerEvent,
)
    requires
        event is Uncloak,
        manager.expected_uncloaks.contains(event.window_of().hwnd),
        forall|i: int|
            0 <= i < manager.monitors.elements.len() ==> !(
            #[trigger] manager.monitors.elements[i]).pinned_floating.contains(
                event.window_of().hwnd,
            ),
    ensures
        ({
            let turn = places::turn_at(manager, screen, context, event, EventStage::Handle);
            &&& turn.result is Ok
            &&& turn.manager == (ManagerView {
                expected_uncloaks: manager.expected_uncloaks.remove(event.window_of().hwnd),
                ..manager
            })
            &&& turn.screen.steps == screen.steps.push(
                StepView::Manage(ManagerOp::UpdateKnownHwnds),
            ).push(go_on(EventStage::Report, event))
        }),
{
    reveal(process_event::resumed);
    reveal(process_event::go_on);
    reveal(process_event::handle);
    reveal(new_window::shown);
    reveal(event_end::settle);
    assert(!manager.pins(event.window_of().hwnd));
    assert(screen.steps + Seq::<StepView>::empty() =~= screen.steps);
}

/// A window that is to be managed and belongs to a workspace that is not shown, on a monitor that
/// is not focused, is hidden again and stays there.
pub proof fn windows_of_hidden_workspaces_are_hidden_again(
    manager: ManagerView,
    screen: ScreenView,
    context: ContextView,
    event: WindowManagerEvent,
    m: usize,
    w: usize,
)
    requires
        event is Manage,
        places::has_focus(manager),
        forall|i: int|
            0 <= i < manager.monitors.elements.len() ==> !(
            #[trigger] manager.monitors.elements[i]).pinned_floating.contains(
                event.window_of().hwnd,
            ),
        manager.known_hwnds.contains_key(event.window_of().hwnd),
        manager.known_hwnds[event.window_of().hwnd] == (m, w),
        m < manager.monitors.elements.len(),
        m != manager.monitors.focused,
        w != manager.monitors.elements[m as int].workspaces.focused,
    ensures
        ({
            let turn = places::turn_at(manager, screen, context, event, EventStage::Handle);
            let hwnd = event.window_of().hwnd;
            &&& turn.result is Ok
            &&& turn.manager == manager
            &&& turn.screen.hiding.hidden.contains(hwnd)
            &&& turn.screen.steps == screen.steps + screen.hiding.hide_steps(hwnd, true) + seq![
                StepView::Manage(ManagerOp::UpdateKnownHwnds),
                go_on(EventStage::Report, event),
            ]
        }),
{
    reveal(process_event::resumed);
    reveal(process_event::go_on);
    reveal(process_event::handle);
    reveal(new_window::shown);
    reveal(new_window::add_shown);
    reveal(event_end::settle);
    let hwnd = event.window_of().hwnd;
    assert(!manager.pins(hwnd));
    let hidden = screen.steps + screen.hiding.hide_steps(hwnd, true);
    assert(hidden + Seq::<StepView>::empty() =~= hidden);
    assert(hidden.push(StepView::Manage(ManagerOp::UpdateKnownHwnds)).push(
        go_on(EventStage::Report, event),
    ) =~= hidden + seq![
        StepView::Manage(ManagerOp::UpdateKnownHwnds),
        go_on(EventStage::Report, event),
    ]);
    if !screen.hiding.hidden.contains(hwnd) {
        assert(screen.hiding.hidden.push(hwnd)[screen.hiding.hidden.len() as int] == hwnd);
    }
}

/// A window that is known on another workspace and is shown takes the user there: its monitor
/// and its workspace get the focus, and the window comes to the front of its container.
pub proof fn shown_windows_are_gone_to(
    manager: ManagerView,
    screen: ScreenView,
    context: ContextView,
    event: WindowManagerEvent,
    m: usize,
    w: usize,
)
    requires
        event is Show || event is Uncloak,
        places::has_focus(manager),
        forall|i: int|
            0 <= i < manager.monitors.elements.len() ==> !(
            #[trigger] manager.monitors.elements[i]).pinned_floating.contains(
                event.window_of().hwnd,
            ),
        !manager.expected_uncloaks.contains(event.window_of().hwnd),
        manager.known_hwnds.contains_key(event.window_of().hwnd),
        manager.known_hwnds[event.window_of().hwnd] == (m, w),
        m < manager.monitors.elements.len(),
        w < manager.monitors.elements[m as int].workspaces.elements.len() <= usize::MAX,
        m != manager.monitors.focused || w
            != manager.monitors.elements[m as int].workspaces.focused,
        ({
            let workspace = manager.monitors.elements[m as int].workspaces.elements[w as int];
            &&& workspace.monocle_container is None
            &&& workspace.maximized_window is None
            &&& !workspace.floats(event.window_of().hwnd)
            &&& exists|c: int|
                0 <= c < workspace.containers.elements.len() && (
                #[trigger] workspace.containers.elements[c]).has(event.window_of().hwnd)
            &&& workspace.containers.elements.len() <= usize::MAX
            &&& forall|c: int|
                0 <= c < workspace.containers.elements.len() ==> (
                #[trigger] workspace.containers.elements[c]).windows.elements.len() <= usize::MAX
        }),
    ensures
        ({
            let hwnd = event.window_of().hwnd;
            let turn = places::turn_at(manager, screen, context, event, EventStage::Handle);
            let monitors = turn.manager.monitors;
            let workspace = places::focused_workspace(turn.manager);
            &&& turn.result is Ok
            &&& monitors.focused == m
            &&& monitors.elements.len() == manager.monitors.elements.len()
            &&& monitors.elements[m as int].workspaces.focused == w
            &&& workspace.containers.focused < workspace.containers.elements.len()
            &&& dimming::shows(
                workspace.containers.elements[workspace.containers.focused as int],
                hwnd,
            )
            &&& forall|i: int|
                0 <= i < monitors.elements.len() && i != m ==> #[trigger] monitors.elements[i]
                    == manager.monitors.elements[i]
        }),
{
    reveal(process_event::resumed);
    reveal(process_event::go_on);
    reveal(process_event::handle);
    reveal(new_window::shown);
    reveal(new_window::reconcile);
    let hwnd = event.window_of().hwnd;
    let monitor = manager.monitors.elements[m as int];
    let workspace = monitor.workspaces.elements[w as int];
    let containers = workspace.containers.elements;
    assert(!manager.pins(hwnd));
    assert(workspace::tiled(containers, hwnd));
    holder(containers, hwnd);
    let at = workspace::first_with(containers, hwnd);
    holding(containers[at].windows.elements, hwnd);
    let ready = if w == monitor.workspaces.focused {
        monitor
    } else {
        monitor.focusing(w)
    };
    let found = ready.workspaces.elements[w as int];
    assert(ready.workspaces.focused == w);
    assert(found.containers == workspace.containers);
    assert(found.fronting(hwnd) == found.focusing_window(hwnd).layered(WorkspaceLayer::Tiling));
    let turn = places::turn_at(manager, screen, context, event, EventStage::Handle);
    assert(turn.result is Ok);
    assert(places::focused_workspace(turn.manager) == found.fronting(hwnd));
}

/// The first position of a window in a list that holds it is one at which it stands.
pub proof fn holding(windows: Seq<Window>, hwnd: isize)
    requires
        container::holds(windows, hwnd),
    ensures
        container::is_first(windows, container::first_position(windows, hwnd), hwnd),
{
    let i = choose|i: int| 0 <= i < windows.len() && (#[trigger] windows[i]).hwnd == hwnd;
    first_window(windows, hwnd, i);
}

proof fn first_window(windows: Seq<Window>, hwnd: isize, i: int)
    requires
        0 <= i < windows.len(),
        windows[i].hwnd == hwnd,
    ensures
        exists|at: int| container::is_first(windows, at, hwnd),
    decreases i,
{
    if exists|k: int| 0 <= k < i && (#[trigger] windows[k]).hwnd == hwnd {
        let k = choose|k: int| 0 <= k < i && (#[trigger] windows[k]).hwnd == hwnd;
        first_window(windows, hwnd, k);
    } else {
        assert(container::is_first(windows, i, hwnd));
    }
}

/// The first container with a window that is in one holds it.
pub proof fn holder(containers: Seq<ContainerView>, hwnd: isize)
    requires
        workspace::tiled(containers, hwnd),
    ensures
        workspace::is_first_with(containers, workspace::first_with(containers, hwnd), hwnd),
{
    let i = choose|i: int| 0 <= i < containers.len() && (#[trigger] containers[i]).has(hwnd);
    first_holder(containers, hwnd, i);
}

proof fn first_holder(containers: Seq<ContainerView>, hwnd: isize, i: int)
    requires
        0 <= i < containers.len(),
        containers[i].has(hwnd),
    ensures
        exists|at: int| workspace::is_first_with(containers, at, hwnd),
    decreases i,
{
    if exists|k: int| 0 <= k < i && (#[trigger] containers[k]).has(hwnd) {
        let k = choose|k: int| 0 <= k < i && (#[trigger] containers[k]).has(hwnd);
        first_holder(containers, hwnd, k);
    } else {
        assert(workspace::is_first_with(containers, i, hwnd));
    }
}

/// A list of rules takes effect on a window exactly where its texts are known and one of the
/// rules matches them.
pub proof fn rules_take_effect_where_one_matches(
    list: Seq<MatchingRule>,
    hwnd: isize,
    rules: RuleSet,
    d: DesktopView,
)
    ensures
        ({
            let facts = d.at(hwnd);
            let is_known = facts.title is Some && facts.exe is Some && facts.class is Some
                && facts.path is Some;
            new_window::is_matched(list, hwnd, rules, d) == (is_known && exists|i: int|
                0 <= i < list.len() && rules::rule_matches(
                    #[trigger] list[i]@,
                    WindowTexts {
                        title: facts.title->0@,
                        exe: facts.exe->0@,
                        class: facts.class->0@,
                        path: facts.path->0@,
                    },
                    rules.regex_identifiers@,
                ))
        }),
{
    let facts = d.at(hwnd);
    let texts = WindowTexts {
        title: facts.title->0@,
        exe: facts.exe->0@,
        class: facts.class->0@,
        path: facts.path->0@,
    };
    if list.len() > 0 {
        rules::later_rules_win(list, list[0], texts, rules.regex_identifiers@);
    } else {
        reveal(rules::last_match);
    }
}

} // verus!
