//! How windows are looked up by what they run, and layers are toggled by command.

use vstd::prelude::*;

use crate::behaviour::FocusFollowsMouseImplementation;
use crate::command_files;
use crate::command_focus;
use crate::command_layers;
use crate::container::ContainerView;
use crate::desktop::DesktopView;
use crate::eager_focus;
use crate::eager_focus::WorkspaceWindowLocation;
use crate::laws::commands;
use crate::laws::commands::Situation;
use crate::laws::places;
use crate::manager_op::ManagerOp;
use crate::monitor::MonitorView;
use crate::plan::Call;
use crate::plan::CommandStage;
use crate::plan::StepView;
use crate::process_command;
use crate::session::SessionView;
use crate::socket_message::SocketMessage;
use crate::window::Window;
use crate::window_manager::ManagerView;
use crate::workspace::WorkspaceLayer;
use crate::workspace::WorkspaceView;

verus! {

/// Whether a window belongs to an executable.
pub open spec fn belongs_to(window: Window, exe: Seq<char>, d: DesktopView) -> bool {
    d.at(window.hwnd).exe is Some && d.at(window.hwnd).exe->0@ == exe
}

/// Whether one of the windows belongs to an executable.
pub open spec fn any_belongs_to(windows: Seq<Window>, exe: Seq<char>, d: DesktopView) -> bool {
    exists|i: int| 0 <= i < windows.len() && belongs_to(#[trigger] windows[i], exe, d)
}

/// Whether a workspace holds a window that belongs to an executable.
pub open spec fn has_window_of(workspace: WorkspaceView, exe: Seq<char>, d: DesktopView) -> bool {
    ||| exists|c: int|
        0 <= c < workspace.containers.elements.len() && any_belongs_to(
            (#[trigger] workspace.containers.elements[c]).windows.elements,
            exe,
            d,
        )
    ||| workspace.maximized_window is Some && belongs_to(workspace.maximized_window->0, exe, d)
    ||| workspace.monocle_container is Some && any_belongs_to(
        workspace.monocle_container->0.windows.elements,
        exe,
        d,
    )
    ||| any_belongs_to(workspace.floating_windows.elements, exe, d)
}

/// Whether a place on a workspace is one of a window that belongs to an executable.
pub open spec fn is_place_of(
    workspace: WorkspaceView,
    location: WorkspaceWindowLocation,
    exe: Seq<char>,
    d: DesktopView,
) -> bool {
    match location {
        WorkspaceWindowLocation::Container(c, i) => {
            &&& c < workspace.containers.elements.len()
            &&& i < workspace.containers.elements[c as int].windows.elements.len()
            &&& belongs_to(
                workspace.containers.elements[c as int].windows.elements[i as int],
                exe,
                d,
            )
        },
        WorkspaceWindowLocation::Maximized => workspace.maximized_window is Some && belongs_to(
            workspace.maximized_window->0,
            exe,
            d,
        ),
        WorkspaceWindowLocation::Monocle(i) => {
            &&& workspace.monocle_container is Some
            &&& i < workspace.monocle_container->0.windows.elements.len()
            &&& belongs_to(workspace.monocle_container->0.windows.elements[i as int], exe, d)
        },
        WorkspaceWindowLocation::Floating(i) => {
            &&& i < workspace.floating_windows.elements.len()
            &&& belongs_to(workspace.floating_windows.elements[i as int], exe, d)
        },
    }
}

/// Whether the positions on a workspace can be counted.
pub open spec fn is_countable(workspace: WorkspaceView) -> bool {
    &&& workspace.containers.elements.len() <= usize::MAX
    &&& forall|c: int|
        0 <= c < workspace.containers.elements.len() ==> (
        #[trigger] workspace.containers.elements[c]).windows.elements.len() <= usize::MAX
    &&& workspace.floating_windows.elements.len() <= usize::MAX
    &&& workspace.monocle_container is Some
        ==> workspace.monocle_container->0.windows.elements.len() <= usize::MAX
}

proof fn found_window(windows: Seq<Window>, exe: Seq<char>, d: DesktopView, from: int)
    requires
        0 <= from <= windows.len(),
    ensures
        match eager_focus::window_of_exe(windows, exe, d, from) {
            Some(at) => from <= at < windows.len() && belongs_to(windows[at], exe, d),
            None => forall|i: int|
                from <= i < windows.len() ==> !belongs_to(#[trigger] windows[i], exe, d),
        },
    decreases windows.len() - from,
{
    if from < windows.len() {
        found_window(windows, exe, d, from + 1);
    }
}

proof fn found_container(containers: Seq<ContainerView>, exe: Seq<char>, d: DesktopView, from: int)
    requires
        0 <= from <= containers.len(),
    ensures
        match eager_focus::container_of_exe(containers, exe, d, from) {
            Some((c, i)) => from <= c < containers.len() && 0 <= i
                < containers[c].windows.elements.len() && belongs_to(
                containers[c].windows.elements[i],
                exe,
                d,
            ),
            None => forall|c: int|
                from <= c < containers.len() ==> !any_belongs_to(
                    (#[trigger] containers[c]).windows.elements,
                    exe,
                    d,
                ),
        },
    decreases containers.len() - from,
{
    if from < containers.len() {
        found_window(containers[from].windows.elements, exe, d, 0);
        found_container(containers, exe, d, from + 1);
    }
}

proof fn found_location(workspace: WorkspaceView, exe: Seq<char>, d: DesktopView)
    requires
        is_countable(workspace),
    ensures
        (workspace.location_of(exe, d) is Some) == has_window_of(workspace, exe, d),
        workspace.location_of(exe, d) is Some ==> is_place_of(
            workspace,
            workspace.location_of(exe, d)->0,
            exe,
            d,
        ),
{
    found_container(workspace.containers.elements, exe, d, 0);
    found_window(workspace.floating_windows.elements, exe, d, 0);
    if workspace.monocle_container is Some {
        found_window(workspace.monocle_container->0.windows.elements, exe, d, 0);
    }
    match eager_focus::container_of_exe(workspace.containers.elements, exe, d, 0) {
        Some((c, i)) => {
            let windows = workspace.containers.elements[c].windows.elements;
            assert(belongs_to(windows[i], exe, d));
            assert(any_belongs_to(windows, exe, d));
        },
        None => {},
    }
}

proof fn found_workspace(workspaces: Seq<WorkspaceView>, exe: Seq<char>, d: DesktopView, from: int)
    requires
        0 <= from <= workspaces.len(),
        forall|w: int| 0 <= w < workspaces.len() ==> is_countable(#[trigger] workspaces[w]),
    ensures
        match eager_focus::workspace_of_exe(workspaces, exe, d, from) {
            Some((w, location)) => from <= w < workspaces.len() && is_place_of(
                workspaces[w],
                location,
                exe,
                d,
            ) && has_window_of(workspaces[w], exe, d) && forall|k: int|
                from <= k < w ==> !has_window_of(#[trigger] workspaces[k], exe, d),
            None => forall|k: int|
                from <= k < workspaces.len() ==> !has_window_of(#[trigger] workspaces[k], exe, d),
        },
    decreases workspaces.len() - from,
{
    if from < workspaces.len() {
        found_location(workspaces[from], exe, d);
        found_workspace(workspaces, exe, d, from + 1);
    }
}

proof fn found_monitor(monitors: Seq<MonitorView>, exe: Seq<char>, d: DesktopView, from: int)
    requires
        0 <= from <= monitors.len(),
        forall|m: int, w: int|
            0 <= m < monitors.len() && 0 <= w < monitors[m].workspaces.elements.len()
                ==> is_countable(#[trigger] monitors[m].workspaces.elements[w]),
    ensures
        match eager_focus::monitor_of_exe(monitors, exe, d, from) {
            Some((m, w, location)) => from <= m < monitors.len() && 0 <= w
                < monitors[m].workspaces.elements.len() && is_place_of(
                monitors[m].workspaces.elements[w],
                location,
                exe,
                d,
            ) && forall|i: int, k: int|
                from <= i < m && 0 <= k < monitors[i].workspaces.elements.len() ==> !has_window_of(
                    #[trigger] monitors[i].workspaces.elements[k],
                    exe,
                    d,
                ),
            None => forall|i: int, k: int|
                from <= i < monitors.len() && 0 <= k < monitors[i].workspaces.elements.len()
                    ==> !has_window_of(#[trigger] monitors[i].workspaces.elements[k], exe, d),
        },
    decreases monitors.len() - from,
{
    if from < monitors.len() {
        let workspaces = monitors[from].workspaces.elements;
        assert forall|w: int| 0 <= w < workspaces.len() implies is_countable(
            #[trigger] workspaces[w],
        ) by {
            assert(is_countable(monitors[from].workspaces.elements[w]));
        }
        found_workspace(workspaces, exe, d, 0);
        found_monitor(monitors, exe, d, from + 1);
    }
}

/// The first window that belongs to an executable is looked up, and its monitor and workspace
/// get the focus: the first monitor with such a window comes first. Nothing happens where no
/// window belongs to the executable.
pub proof fn windows_are_focused_by_their_executable(situation: Situation, exe: String)
    requires
        situation.is_at_home(),
        situation.manager.monitors.elements.len() <= usize::MAX,
        forall|m: int, w: int|
            0 <= m < situation.manager.monitors.elements.len() && 0 <= w
                < situation.manager.monitors.elements[m].workspaces.elements.len() ==> is_countable(
                #[trigger] situation.manager.monitors.elements[m].workspaces.elements[w],
            ),
        forall|m: int|
            0 <= m < situation.manager.monitors.elements.len() ==> (
            #[trigger] situation.manager.monitors.elements[m]).workspaces.elements.len()
                <= usize::MAX,
    ensures
        ({
            let turn = situation.after(SocketMessage::EagerFocus(exe));
            let d = situation.screen.desktop;
            let monitors = situation.manager.monitors.elements;
            let is_nowhere = forall|i: int, k: int|
                0 <= i < monitors.len() && 0 <= k < monitors[i].workspaces.elements.len()
                    ==> !has_window_of(#[trigger] monitors[i].workspaces.elements[k], exe@, d);
            let after = turn.manager.monitors;
            &&& is_nowhere ==> situation.asks_for(turn, situation.manager, None, commands::finish())
            &&& !is_nowhere ==> {
                &&& turn.result is Ok
                &&& after.focused < monitors.len()
                &&& after.elements.len() == monitors.len()
                &&& after.elements[after.focused as int].workspaces.focused
                    < after.elements[after.focused as int].workspaces.elements.len()
                &&& has_window_of(places::focused_workspace(turn.manager), exe@, d)
                &&& forall|i: int, k: int|
                    0 <= i < after.focused && 0 <= k < monitors[i].workspaces.elements.len()
                        ==> !has_window_of(
                        #[trigger] monitors[i].workspaces.elements[k],
                        exe@,
                        d,
                    )
                &&& turn.screen.steps.len() >= situation.screen.steps.len() + 2
            }
        }),
{
    reveal(process_command::performed);
    reveal(eager_focus::eagerly_focused);
    reveal(eager_focus::focus_location);
    let d = situation.screen.desktop;
    let monitors = situation.manager.monitors.elements;
    found_monitor(monitors, exe@, d, 0);
    match eager_focus::monitor_of_exe(monitors, exe@, d, 0) {
        Some((m, w, location)) => {
            let workspace = monitors[m].workspaces.elements[w];
            found_location(workspace, exe@, d);
            place_is_held(workspace, location, exe@, d);
            let gone = eager_focus::gone_to(situation.manager, m, w);
            let ready = places::focused_workspace(gone);
            assert(ready.containers == workspace.containers);
            assert(ready.floating_windows == workspace.floating_windows);
            assert(ready.monocle_container == workspace.monocle_container);
            assert(ready.maximized_window == workspace.maximized_window);
            same_windows(workspace, ready, exe@, d);
            let turn = situation.after(SocketMessage::EagerFocus(exe));
            let found = places::focused_workspace(turn.manager);
            assert(found.containers.elements == ready.containers.elements);
            assert(found.floating_windows.elements == ready.floating_windows.elements);
            same_windows(ready, found, exe@, d);
        },
        None => {},
    }
}

proof fn place_is_held(
    workspace: WorkspaceView,
    location: WorkspaceWindowLocation,
    exe: Seq<char>,
    d: DesktopView,
)
    requires
        is_place_of(workspace, location, exe, d),
    ensures
        has_window_of(workspace, exe, d),
{
    match location {
        WorkspaceWindowLocation::Container(c, i) => {
            let windows = workspace.containers.elements[c as int].windows.elements;
            assert(belongs_to(windows[i as int], exe, d));
            assert(any_belongs_to(windows, exe, d));
        },
        _ => {},
    }
}

proof fn same_windows(before: WorkspaceView, after: WorkspaceView, exe: Seq<char>, d: DesktopView)
    requires
        after.containers.elements == before.containers.elements,
        after.floating_windows.elements == before.floating_windows.elements,
        after.monocle_container == before.monocle_container,
        after.maximized_window == before.maximized_window,
    ensures
        has_window_of(before, exe, d) == has_window_of(after, exe, d),
{
}

/// The command that toggles the layer brings the other layer of the focused workspace on top.
/// The floating layer stays there by command, the tiling layer does not.
pub proof fn layers_are_toggled(situation: Situation)
    requires
        situation.is_at_home(),
        places::has_focus(situation.manager),
    ensures
        ({
            let turn = situation.after(SocketMessage::ToggleWorkspaceLayer);
            let before = places::focused_workspace(situation.manager);
            let after = places::focused_workspace(turn.manager);
            let was_tiling = before.layer == WorkspaceLayer::Tiling;
            &&& turn.result is Ok
            &&& turn.session == situation.session
            &&& places::same_but_focused_workspace(situation.manager, turn.manager)
            &&& was_tiling ==> after.layer == WorkspaceLayer::Floating && after.layer_lock
            &&& !was_tiling ==> after.layer == WorkspaceLayer::Tiling && !after.layer_lock
            &&& after == (WorkspaceView {
                layer: after.layer,
                layer_lock: after.layer_lock,
                ..before
            })
            &&& !was_tiling ==> turn.screen.steps.contains(
                StepView::Manage(ManagerOp::LowerFloatingOverlay),
            )
        }),
{
    reveal(process_command::performed);
    reveal(command_layers::layer_toggled);
    let before = places::focused_workspace(situation.manager);
    places::replacing_changes_nothing_else(
        situation.manager,
        command_layers::in_layer(before, WorkspaceLayer::Floating, true),
    );
    places::replacing_changes_nothing_else(
        situation.manager,
        command_layers::in_layer(before, WorkspaceLayer::Tiling, false),
    );
    if before.layer != WorkspaceLayer::Tiling {
        let turn = situation.after(SocketMessage::ToggleWorkspaceLayer);
        let suppressed = situation.screen.taking(StepView::RememberState).managing(
            ManagerOp::SuppressLayerFlips,
        );
        let focused = command_layers::tile_focused(
            suppressed,
            before,
            situation.manager.mouse_follows_focus,
        );
        assert(turn.screen.steps[focused.steps.len() as int] == StepView::Manage(
            ManagerOp::LowerFloatingOverlay,
        ));
    }
}

/// The command that toggles the ignored windows turns around whether they are above the managed
/// ones on the focused workspace, and nothing else of the state.
pub proof fn ignored_windows_are_toggled(situation: Situation)
    requires
        situation.is_at_home(),
        places::has_focus(situation.manager),
    ensures
        ({
            let turn = situation.after(SocketMessage::ToggleIgnoredWindowLayer);
            let before = places::focused_workspace(situation.manager);
            &&& turn.result is Ok
            &&& turn.session == situation.session
            &&& places::same_but_focused_workspace(situation.manager, turn.manager)
            &&& places::focused_workspace(turn.manager) == (WorkspaceView {
                ignored_windows_above_managed: !before.ignored_windows_above_managed,
                ..before
            })
        }),
{
    reveal(process_command::performed);
    reveal(command_layers::ignored_toggled);
    let before = places::focused_workspace(situation.manager);
    places::replacing_changes_nothing_else(
        situation.manager,
        WorkspaceView {
            ignored_windows_above_managed: !before.ignored_windows_above_managed,
            ..before
        },
    );
}

/// Once a window was looked up on a workspace that was not shown, that workspace is shown: the
/// switch is noted on the focused monitor, and its workspaces are restored and hidden.
pub proof fn looked_up_workspaces_are_shown(situation: Situation, message: SocketMessage)
    requires
        situation.has_monitor(),
    ensures
        ({
            let turn = situation.after_stage(message, CommandStage::LoadFocused);
            let m = situation.manager.monitors.focused as int;
            let monitors = situation.manager.monitors;
            &&& turn.result is Ok
            &&& turn.manager.monitors.focused == monitors.focused
            &&& turn.manager.monitors.elements == monitors.elements.update(
                m,
                MonitorView {
                    last_switch_at: Some(situation.screen.desktop.now_ms),
                    ..monitors.elements[m]
                },
            )
            &&& turn.screen.steps == (situation.screen.steps + situation.monitor().load_steps(
                situation.manager.mouse_follows_focus,
                true,
            )).push(StepView::ContinueCommand(commands::finish()))
        }),
{
    reveal(process_command::gone_on);
    reveal(eager_focus::load_focused);
}

/// Once the floating layer is up, its window gets the foreground, and the ignored windows are
/// lowered where that is to be. The state stays.
pub proof fn the_floating_layer_gets_the_foreground(
    situation: Situation,
    message: SocketMessage,
    hwnd: isize,
    lower_ignored: bool,
)
    requires
        situation.has_monitor(),
    ensures
        ({
            let stage = CommandStage::LayerShown { focus: Some(hwnd), lower_ignored };
            let turn = situation.after_stage(message, stage);
            let steps = turn.screen.steps;
            let raise = StepView::Try(Call::RaiseAndFocusWindow(hwnd), None);
            let end = StepView::ContinueCommand(commands::finish());
            let len = steps.len() as int;
            &&& turn.result is Ok
            &&& turn.manager == situation.manager
            &&& turn.session == situation.session
            &&& lower_ignored ==> len >= 3 && steps[len - 3] == raise && steps[len - 2]
                == StepView::Manage(ManagerOp::LowerIgnoredWindows) && steps[len - 1] == end
            &&& !lower_ignored ==> len >= 2 && steps[len - 2] == raise && steps[len - 1] == end
        }),
{
    reveal(process_command::gone_on);
    reveal(command_layers::layer_shown);
}

/// A configuration that can be used is taken over by a manager made from it, with all windows
/// shown, no workspace rules and a pause. One that cannot changes nothing.
pub proof fn only_valid_configurations_are_taken_over(situation: Situation, message: SocketMessage)
    ensures
        ({
            let turn = situation.after_stage(message, CommandStage::ConfigurationChecked);
            let steps = situation.screen.steps;
            &&& turn.result is Ok
            &&& situation.seen.answer ==> {
                &&& turn.manager == (ManagerView { is_paused: true, ..situation.manager })
                &&& turn.session == (SessionView {
                    workspace_rules: Seq::empty(),
                    ..situation.session
                })
                &&& turn.screen.steps == steps.push(
                    StepView::Manage(ManagerOp::RestoreAllWindows(false)),
                ).push(StepView::Manage(ManagerOp::ReplaceManager)).push(
                    StepView::ContinueCommand(CommandStage::Finish { force_borders: true }),
                )
            }
            &&& !situation.seen.answer ==> {
                &&& turn.manager == situation.manager
                &&& turn.session == situation.session
                &&& turn.screen.steps == steps.push(
                    StepView::ContinueCommand(commands::finish()),
                )
            }
        }),
{
    reveal(process_command::gone_on);
}

/// What was read of how containers were resized is taken over into the focused workspace, which
/// is laid out then. The way in which the focus follows the mouse is noted as it was set.
pub proof fn what_was_awaited_is_noted(
    situation: Situation,
    message: SocketMessage,
    implementation: Option<FocusFollowsMouseImplementation>,
)
    requires
        places::has_focus(situation.manager),
    ensures
        ({
            let loaded = situation.after_stage(message, CommandStage::ResizeLoaded);
            let noted = situation.after_stage(
                message,
                CommandStage::NoteFocusFollowsMouse(implementation),
            );
            let before = places::focused_workspace(situation.manager);
            &&& loaded.result is Ok
            &&& places::same_but_focused_workspace(situation.manager, loaded.manager)
            &&& places::focused_workspace(loaded.manager) == (WorkspaceView {
                resize_dimensions: situation.seen.resize_dimensions,
                ..before
            })
            &&& loaded.screen.steps == situation.screen.steps.push(
                StepView::Manage(
                    ManagerOp::UpdateFocusedWorkspace {
                        follow_focus: false,
                        trigger_focus: false,
                    },
                ),
            ).push(StepView::ContinueCommand(commands::finish()))
            &&& noted.result is Ok
            &&& noted.manager == (ManagerView {
                focus_follows_mouse: implementation,
                ..situation.manager
            })
            &&& noted.session == situation.session
        }),
{
    reveal(process_command::gone_on);
    reveal(command_files::resize_loaded);
    let before = places::focused_workspace(situation.manager);
    places::replacing_changes_nothing_else(
        situation.manager,
        WorkspaceView { resize_dimensions: situation.seen.resize_dimensions, ..before },
    );
}

/// A workspace with a number is shown on one monitor after the other, but for the focused one,
/// which comes last and keeps the focus.
pub proof fn workspaces_are_shown_on_all_monitors(
    situation: Situation,
    message: SocketMessage,
    workspace: usize,
    monitor: usize,
)
    requires
        workspace < usize::MAX,
        situation.manager.monitors.elements.len() < usize::MAX,
    ensures
        ({
            let turn = situation.after_stage(
                message,
                CommandStage::SwitchNext { workspace, monitor },
            );
            let monitors = situation.manager.monitors;
            let at = if monitor == monitors.focused && monitor < monitors.elements.len() {
                monitor + 1
            } else {
                monitor as int
            };
            let after = turn.manager.monitors;
            let steps = turn.screen.steps;
            &&& turn.result is Ok
            &&& after.focused == monitors.focused
            &&& at >= monitors.elements.len() ==> turn.manager == situation.manager && steps
                == situation.screen.steps.push(
                StepView::Manage(ManagerOp::FocusWorkspace(workspace)),
            ).push(StepView::ContinueCommand(commands::finish()))
            &&& at < monitors.elements.len() ==> {
                &&& after.elements.len() == monitors.elements.len()
                &&& after.elements[at].workspaces.focused == workspace
                &&& forall|i: int|
                    0 <= i < monitors.elements.len() && i != at ==> #[trigger] after.elements[i]
                        == monitors.elements[i]
                &&& steps.len() > 0
                &&& steps[steps.len() - 1] == StepView::ContinueCommand(
                    CommandStage::SwitchNext { workspace, monitor: (at + 1) as usize },
                )
            }
        }),
{
    reveal(process_command::gone_on);
    reveal(command_focus::switch_from);
}

} // verus!
