//! Which windows are dimmed and which are restored in a pass.

use vstd::prelude::*;

use crate::container::ContainerView;
use crate::desktop::DesktopView;
use crate::monitor;
use crate::monitor::MonitorView;
use crate::rule_set::RuleSet;
use crate::rules;
use crate::rules::WindowTexts;
use crate::settings::TransparencySettings;
use crate::transparency_manager;
use crate::transparency_manager::PassView;
use crate::transparency_manager::Targets;
use crate::window::Window;
use crate::window_manager::ManagerView;
use crate::workspace;
use crate::workspace::WorkspaceLayer;
use crate::workspace::WorkspaceView;

verus! {

/// Whether a container shows a window.
pub open spec fn shows(container: ContainerView, hwnd: isize) -> bool {
    container.windows.focused < container.windows.elements.len()
        && container.windows.elements[container.windows.focused as int].hwnd == hwnd
}

/// Whether a container holds a window below the one that it shows.
pub open spec fn stacks(container: ContainerView, hwnd: isize) -> bool {
    exists|i: int|
        0 <= i < container.windows.elements.len() && i != container.windows.focused
            && #[trigger] container.windows.elements[i].hwnd == hwnd
}

/// Whether a window stays opaque though it is not focused: a rule says so, or it has the
/// foreground while no switch is settling.
pub open spec fn stays_opaque(pass: PassView, hwnd: isize) -> bool {
    transparency_manager::blacklisted(hwnd, pass.rules, pass.d) || (!pass.settling
        && pass.foreground == hwnd)
}

/// Whether the container at an index of a workspace has a window dimmed, or restored: it
/// shows the window, which is dimmed where the container is not the focused one of the
/// focused monitor or floating windows are on top.
pub open spec fn container_paints(
    pass: PassView,
    workspace: WorkspaceView,
    monitor_idx: int,
    idx: int,
    hwnd: isize,
    dims: bool,
) -> bool {
    &&& 0 <= idx < workspace.containers.elements.len()
    &&& shows(workspace.containers.elements[idx], hwnd)
    &&& dims == ((idx != workspace.containers.focused || monitor_idx != pass.focused_monitor
        || workspace.layer == WorkspaceLayer::Floating) && !stays_opaque(pass, hwnd))
}

/// Whether the floating window at an index of a workspace is a window that is dimmed, or
/// restored.
pub open spec fn float_paints(
    pass: PassView,
    workspace: WorkspaceView,
    idx: int,
    hwnd: isize,
    dims: bool,
) -> bool {
    &&& 0 <= idx < workspace.floating_windows.elements.len()
    &&& workspace.floating_windows.elements[idx].hwnd == hwnd
    &&& dims == (pass.settings.floating && !stays_opaque(pass, hwnd))
}

/// Whether a container of a workspace or a floating window has a window dimmed, or restored.
pub open spec fn layout_paints(
    pass: PassView,
    workspace: WorkspaceView,
    monitor_idx: int,
    hwnd: isize,
    dims: bool,
) -> bool {
    ||| exists|idx: int| #[trigger]
        container_paints(pass, workspace, monitor_idx, idx, hwnd, dims)
    ||| exists|idx: int| #[trigger] float_paints(pass, workspace, idx, hwnd, dims)
}

/// Whether a window is seen on a workspace: maximized, shown by the monocle container or
/// another one, or floating.
pub open spec fn is_seen(workspace: WorkspaceView, hwnd: isize) -> bool {
    ||| workspace.maximized_window is Some && workspace.maximized_window->0.hwnd == hwnd
    ||| workspace.monocle_container is Some && shows(workspace.monocle_container->0, hwnd)
    ||| exists|i: int|
        0 <= i < workspace.containers.elements.len() && shows(
            #[trigger] workspace.containers.elements[i],
            hwnd,
        )
    ||| exists|i: int|
        0 <= i < workspace.floating_windows.elements.len()
            && #[trigger] workspace.floating_windows.elements[i].hwnd == hwnd
}

/// Whether the workspace that a monitor shows has a window dimmed, or restored.
pub open spec fn workspace_paints(
    pass: PassView,
    workspace: WorkspaceView,
    monitor_idx: int,
    hwnd: isize,
    dims: bool,
) -> bool {
    if !workspace.tile {
        !dims && is_seen(workspace, hwnd)
    } else if workspace.monocle_container is Some {
        shows(workspace.monocle_container->0, hwnd) && dims == (pass.settings.monocle
            && monitor_idx != pass.focused_monitor && !transparency_manager::blacklisted(
            hwnd,
            pass.rules,
            pass.d,
        ))
    } else if pass.is_maximized && !pass.settling && monitor_idx == pass.focused_monitor {
        !dims && hwnd == pass.foreground
    } else {
        layout_paints(pass, workspace, monitor_idx, hwnd, dims)
    }
}

/// Whether the monitor at an index has a window dimmed, or restored. A window that is pinned
/// to it is restored.
pub open spec fn monitor_paints(
    pass: PassView,
    monitors: Seq<MonitorView>,
    idx: int,
    hwnd: isize,
    dims: bool,
) -> bool {
    &&& 0 <= idx < monitors.len()
    &&& {
        ||| !dims && monitors[idx].pinned_floating.contains(hwnd)
        ||| monitors[idx].workspaces.focused < monitors[idx].workspaces.elements.len()
            && workspace_paints(
            pass,
            monitors[idx].workspaces.elements[monitors[idx].workspaces.focused as int],
            idx,
            hwnd,
            dims,
        )
    }
}

/// The windows to dim, or those to restore.
spec fn list(targets: Targets, dims: bool) -> Seq<isize> {
    if dims {
        targets.transparent
    } else {
        targets.opaque
    }
}

proof fn pushed(list: Seq<isize>, added: isize, hwnd: isize)
    ensures
        list.push(added).contains(hwnd) == (list.contains(hwnd) || added == hwnd),
{
    let longer = list.push(added);
    if list.contains(hwnd) {
        let i = choose|i: int| 0 <= i < list.len() && list[i] == hwnd;
        assert(longer[i] == hwnd);
    }
    if added == hwnd {
        assert(longer[list.len() as int] == hwnd);
    }
}

proof fn appended(list: Seq<isize>, added: Seq<isize>, hwnd: isize)
    ensures
        (list + added).contains(hwnd) == (list.contains(hwnd) || added.contains(hwnd)),
{
    let longer = list + added;
    if list.contains(hwnd) {
        let i = choose|i: int| 0 <= i < list.len() && list[i] == hwnd;
        assert(longer[i] == hwnd);
    }
    if added.contains(hwnd) {
        let i = choose|i: int| 0 <= i < added.len() && added[i] == hwnd;
        assert(longer[list.len() + i] == hwnd);
    }
    if longer.contains(hwnd) {
        let i = choose|i: int| 0 <= i < longer.len() && longer[i] == hwnd;
        if i < list.len() {
            assert(list[i] == hwnd);
        } else {
            assert(added[i - list.len()] == hwnd);
        }
    }
}

proof fn painted(targets: Targets, added: isize, transparent: bool, hwnd: isize, dims: bool)
    ensures
        list(targets.painting(added, transparent), dims).contains(hwnd) == (list(
            targets,
            dims,
        ).contains(hwnd) || (added == hwnd && transparent == dims)),
{
    pushed(list(targets, dims), added, hwnd);
}

proof fn container_paint(
    pass: PassView,
    targets: Targets,
    container: ContainerView,
    in_background: bool,
    len: int,
    hwnd: isize,
    dims: bool,
)
    requires
        0 <= len <= container.windows.elements.len(),
    ensures
        list(pass.container(targets, container, in_background, len), dims).contains(hwnd) == (list(
            targets,
            dims,
        ).contains(hwnd) || (container.windows.focused < len && shows(container, hwnd) && dims == (
        in_background && !stays_opaque(pass, hwnd)))),
    decreases len,
{
    if len > 0 {
        container_paint(pass, targets, container, in_background, len - 1, hwnd, dims);
        let before = pass.container(targets, container, in_background, len - 1);
        let added = container.windows.elements[len - 1].hwnd;
        painted(before, added, in_background && !pass.exempt(added), hwnd, dims);
    }
}

proof fn containers_paint(
    pass: PassView,
    targets: Targets,
    workspace: WorkspaceView,
    monitor_idx: int,
    len: int,
    hwnd: isize,
    dims: bool,
)
    requires
        0 <= len <= workspace.containers.elements.len(),
    ensures
        list(pass.containers(targets, workspace, monitor_idx, len), dims).contains(hwnd) == (list(
            targets,
            dims,
        ).contains(hwnd) || exists|idx: int|
            idx < len && #[trigger] container_paints(
                pass,
                workspace,
                monitor_idx,
                idx,
                hwnd,
                dims,
            )),
    decreases len,
{
    if len > 0 {
        containers_paint(pass, targets, workspace, monitor_idx, len - 1, hwnd, dims);
        let before = pass.containers(targets, workspace, monitor_idx, len - 1);
        let container = workspace.containers.elements[len - 1];
        container_paint(
            pass,
            before,
            container,
            pass.in_background(workspace, len - 1, monitor_idx),
            container.windows.elements.len() as int,
            hwnd,
            dims,
        );
        let last = container_paints(pass, workspace, monitor_idx, len - 1, hwnd, dims);
        if exists|idx: int|
            idx < len && #[trigger] container_paints(
                pass,
                workspace,
                monitor_idx,
                idx,
                hwnd,
                dims,
            ) {
            let idx = choose|idx: int|
                idx < len && #[trigger] container_paints(
                    pass,
                    workspace,
                    monitor_idx,
                    idx,
                    hwnd,
                    dims,
                );
            assert(idx < len - 1 || last);
        }
    }
}

proof fn floats_paint(
    pass: PassView,
    targets: Targets,
    workspace: WorkspaceView,
    len: int,
    hwnd: isize,
    dims: bool,
)
    requires
        0 <= len <= workspace.floating_windows.elements.len(),
    ensures
        list(
            targets.painting_each(
                workspace.floating_windows.elements.take(len),
                |hwnd: isize| pass.dims_float(hwnd),
            ),
            dims,
        ).contains(hwnd) == (list(targets, dims).contains(hwnd) || exists|idx: int|
            idx < len && #[trigger] float_paints(pass, workspace, idx, hwnd, dims)),
    decreases len,
{
    let windows = workspace.floating_windows.elements;
    let rule = |hwnd: isize| pass.dims_float(hwnd);
    if len > 0 {
        floats_paint(pass, targets, workspace, len - 1, hwnd, dims);
        assert(windows.take(len).drop_last() =~= windows.take(len - 1));
        let added = windows[len - 1].hwnd;
        painted(
            targets.painting_each(windows.take(len - 1), rule),
            added,
            pass.dims_float(added),
            hwnd,
            dims,
        );
        let last = float_paints(pass, workspace, len - 1, hwnd, dims);
        if exists|idx: int|
            idx < len && #[trigger] float_paints(pass, workspace, idx, hwnd, dims) {
            let idx = choose|idx: int|
                idx < len && #[trigger] float_paints(pass, workspace, idx, hwnd, dims);
            assert(idx < len - 1 || last);
        }
    }
}

/// The windows that containers show are those that one of them shows.
pub proof fn fronts_are_shown(containers: Seq<ContainerView>, hwnd: isize)
    ensures
        transparency_manager::hwnds_of(workspace::fronts(containers)).contains(hwnd) == exists|
            i: int,
        |
            0 <= i < containers.len() && shows(#[trigger] containers[i], hwnd),
    decreases containers.len(),
{
    if containers.len() > 0 {
        let before = containers.drop_last();
        let fronts = workspace::fronts(before);
        let last = containers.last();
        fronts_are_shown(before, hwnd);
        if last.front() is Some {
            let shown = last.front()->0;
            assert(transparency_manager::hwnds_of(fronts.push(shown))
                =~= transparency_manager::hwnds_of(fronts).push(shown.hwnd));
            pushed(transparency_manager::hwnds_of(fronts), shown.hwnd, hwnd);
        }
        if exists|i: int| 0 <= i < containers.len() && shows(#[trigger] containers[i], hwnd) {
            let i = choose|i: int|
                0 <= i < containers.len() && shows(#[trigger] containers[i], hwnd);
            if i < before.len() {
                assert(shows(before[i], hwnd));
            }
        }
        if exists|i: int| 0 <= i < before.len() && shows(#[trigger] before[i], hwnd) {
            let i = choose|i: int| 0 <= i < before.len() && shows(#[trigger] before[i], hwnd);
            assert(shows(containers[i], hwnd));
        }
        if shows(last, hwnd) {
            assert(shows(containers[containers.len() - 1], hwnd));
        }
    }
}

/// The visible windows of a workspace are those that are seen on it.
pub proof fn visible_is_seen(workspace: WorkspaceView, hwnd: isize)
    ensures
        transparency_manager::hwnds_of(workspace.visible()).contains(hwnd) == is_seen(
            workspace,
            hwnd,
        ),
{
    let maximized = workspace::one(workspace.maximized_window);
    let monocle = workspace::one(workspace.monocle_front());
    let fronts = workspace::fronts(workspace.containers.elements);
    let floats = workspace.floating_windows.elements;
    let hwnds = |windows: Seq<Window>| transparency_manager::hwnds_of(windows);
    fronts_are_shown(workspace.containers.elements, hwnd);
    assert(hwnds(workspace.visible()) =~= hwnds(maximized) + hwnds(monocle) + hwnds(fronts) + hwnds(
        floats,
    ));
    appended(hwnds(maximized), hwnds(monocle), hwnd);
    appended(hwnds(maximized) + hwnds(monocle), hwnds(fronts), hwnd);
    appended(hwnds(maximized) + hwnds(monocle) + hwnds(fronts), hwnds(floats), hwnd);
    assert(hwnds(maximized).contains(hwnd) == (workspace.maximized_window is Some
        && workspace.maximized_window->0.hwnd == hwnd)) by {
        if workspace.maximized_window is Some {
            assert(hwnds(maximized) =~= seq![workspace.maximized_window->0.hwnd]);
            assert(hwnds(maximized)[0] == workspace.maximized_window->0.hwnd);
        }
    }
    assert(hwnds(monocle).contains(hwnd) == (workspace.monocle_container is Some && shows(
        workspace.monocle_container->0,
        hwnd,
    ))) by {
        if workspace.monocle_front() is Some {
            assert(hwnds(monocle) =~= seq![workspace.monocle_front()->0.hwnd]);
            assert(hwnds(monocle)[0] == workspace.monocle_front()->0.hwnd);
        }
    }
    assert(hwnds(floats).contains(hwnd) == exists|i: int|
        0 <= i < floats.len() && #[trigger] floats[i].hwnd == hwnd) by {
        if exists|i: int| 0 <= i < floats.len() && #[trigger] floats[i].hwnd == hwnd {
            let i = choose|i: int| 0 <= i < floats.len() && #[trigger] floats[i].hwnd == hwnd;
            assert(hwnds(floats)[i] == hwnd);
        }
        if hwnds(floats).contains(hwnd) {
            let handles = hwnds(floats);
            let i = choose|i: int| 0 <= i < handles.len() && handles[i] == hwnd;
            assert(floats[i].hwnd == hwnd);
        }
    }
}

proof fn layout_paint(
    pass: PassView,
    targets: Targets,
    workspace: WorkspaceView,
    monitor_idx: int,
    hwnd: isize,
    dims: bool,
)
    ensures
        list(
            pass.containers(
                targets,
                workspace,
                monitor_idx,
                workspace.containers.elements.len() as int,
            ).painting_each(
                workspace.floating_windows.elements,
                |hwnd: isize| pass.dims_float(hwnd),
            ),
            dims,
        ).contains(hwnd) == (list(targets, dims).contains(hwnd) || layout_paints(
            pass,
            workspace,
            monitor_idx,
            hwnd,
            dims,
        )),
{
    let len = workspace.containers.elements.len() as int;
    let floats = workspace.floating_windows.elements;
    let tiled = pass.containers(targets, workspace, monitor_idx, len);
    containers_paint(pass, targets, workspace, monitor_idx, len, hwnd, dims);
    floats_paint(pass, tiled, workspace, floats.len() as int, hwnd, dims);
    assert(floats.take(floats.len() as int) =~= floats);
    if exists|idx: int| #[trigger]
        container_paints(pass, workspace, monitor_idx, idx, hwnd, dims) {
        let idx = choose|idx: int| #[trigger]
            container_paints(pass, workspace, monitor_idx, idx, hwnd, dims);
        assert(idx < len);
    }
    if exists|idx: int| #[trigger] float_paints(pass, workspace, idx, hwnd, dims) {
        let idx = choose|idx: int| #[trigger] float_paints(pass, workspace, idx, hwnd, dims);
        assert(idx < floats.len());
    }
}

proof fn monitors_paint(
    pass: PassView,
    targets: Targets,
    monitors: Seq<MonitorView>,
    len: int,
    hwnd: isize,
    dims: bool,
)
    requires
        0 <= len <= monitors.len(),
    ensures
        list(pass.monitors(targets, monitors, len), dims).contains(hwnd) == (list(
            targets,
            dims,
        ).contains(hwnd) || exists|idx: int|
            idx < len && #[trigger] monitor_paints(pass, monitors, idx, hwnd, dims)),
    decreases len,
{
    if len > 0 {
        monitors_paint(pass, targets, monitors, len - 1, hwnd, dims);
        let before = pass.monitors(targets, monitors, len - 1);
        let monitor = monitors[len - 1];
        let pinned = before.restoring(monitor.pinned_floating);
        appended(before.opaque, monitor.pinned_floating, hwnd);
        if monitor.workspaces.focused < monitor.workspaces.elements.len() {
            let workspace = monitor.workspaces.elements[monitor.workspaces.focused as int];
            if !workspace.tile {
                visible_is_seen(workspace, hwnd);
                appended(
                    pinned.opaque,
                    transparency_manager::hwnds_of(workspace.visible()),
                    hwnd,
                );
            } else if workspace.monocle_container is Some {
                if workspace.monocle_front() is Some {
                    let shown = workspace.monocle_front()->0.hwnd;
                    painted(
                        pinned,
                        shown,
                        pass.settings.monocle && len - 1 != pass.focused_monitor
                            && !transparency_manager::blacklisted(shown, pass.rules, pass.d),
                        hwnd,
                        dims,
                    );
                }
            } else if pass.is_maximized && !pass.settling && len - 1 == pass.focused_monitor {
                painted(pinned, pass.foreground, false, hwnd, dims);
            } else {
                layout_paint(pass, pinned, workspace, len - 1, hwnd, dims);
            }
        }
        let last = monitor_paints(pass, monitors, len - 1, hwnd, dims);
        assert(list(pass.monitors(targets, monitors, len), dims).contains(hwnd) == (list(
            before,
            dims,
        ).contains(hwnd) || last));
        if exists|idx: int|
            idx < len && #[trigger] monitor_paints(pass, monitors, idx, hwnd, dims) {
            let idx = choose|idx: int|
                idx < len && #[trigger] monitor_paints(pass, monitors, idx, hwnd, dims);
            assert(idx < len - 1 || last);
        }
    }
}

/// A window is restored exactly where a monitor has it restored, and it is dimmed exactly
/// where a monitor has it dimmed and none has it restored.
pub proof fn windows_are_dimmed_for_a_reason(
    state: ManagerView,
    pass: PassView,
    known: Seq<isize>,
    hwnd: isize,
)
    ensures
        ({
            let targets = transparency_manager::targets_of(pass, state, known);
            let monitors = state.monitors.elements;
            let has_reason = |dims: bool|
                exists|idx: int| #[trigger] monitor_paints(pass, monitors, idx, hwnd, dims);
            &&& transparency_manager::deduplicated(targets.opaque).contains(hwnd) == has_reason(
                false,
            )
            &&& transparency_manager::except(targets.transparent, targets.opaque).contains(hwnd)
                == (has_reason(true) && !has_reason(false))
        }),
{
    let targets = transparency_manager::targets_of(pass, state, known);
    let monitors = state.monitors.elements;
    let len = monitors.len() as int;
    let none = Targets { transparent: Seq::empty(), opaque: Seq::empty(), known };
    monitors_paint(pass, none, monitors, len, hwnd, true);
    monitors_paint(pass, none, monitors, len, hwnd, false);
    assert(targets.transparent.contains(hwnd) == exists|idx: int| #[trigger]
        monitor_paints(pass, monitors, idx, hwnd, true)) by {
        if exists|idx: int| #[trigger] monitor_paints(pass, monitors, idx, hwnd, true) {
            let idx = choose|idx: int| #[trigger] monitor_paints(pass, monitors, idx, hwnd, true);
            assert(idx < len);
        }
    }
    assert(targets.opaque.contains(hwnd) == exists|idx: int| #[trigger]
        monitor_paints(pass, monitors, idx, hwnd, false)) by {
        if exists|idx: int| #[trigger] monitor_paints(pass, monitors, idx, hwnd, false) {
            let idx = choose|idx: int| #[trigger] monitor_paints(pass, monitors, idx, hwnd, false);
            assert(idx < len);
        }
    }
    transparency_manager::targets_are_unique(targets.opaque);
    transparency_manager::dimmed_and_not_restored(targets.transparent, targets.opaque, hwnd);
}

/// Where the workspace that a monitor shows tiles, has no monocle container and is not below
/// a maximized foreground window, the window that a container shows is dimmed, unless it is
/// the focused container of the focused monitor, a rule keeps the window opaque, it has the
/// foreground, or it is restored elsewhere.
pub proof fn background_tiles_are_dimmed(
    state: ManagerView,
    pass: PassView,
    known: Seq<isize>,
    m: int,
    c: int,
)
    requires
        0 <= m < state.monitors.elements.len(),
        state.monitors.elements[m].workspaces.focused
            < state.monitors.elements[m].workspaces.elements.len(),
        ({
            let monitor = state.monitors.elements[m];
            let workspace = monitor.workspaces.elements[monitor.workspaces.focused as int];
            let container = workspace.containers.elements[c];
            let shown = container.windows.elements[container.windows.focused as int].hwnd;
            &&& workspace.tile
            &&& workspace.monocle_container is None
            &&& !(pass.is_maximized && !pass.settling && m == pass.focused_monitor)
            &&& 0 <= c < workspace.containers.elements.len()
            &&& container.windows.focused < container.windows.elements.len()
            &&& c != workspace.containers.focused || m != pass.focused_monitor
            &&& !transparency_manager::blacklisted(shown, pass.rules, pass.d)
            &&& pass.settling || shown != pass.foreground
        }),
    ensures
        ({
            let targets = transparency_manager::targets_of(pass, state, known);
            let monitor = state.monitors.elements[m];
            let workspace = monitor.workspaces.elements[monitor.workspaces.focused as int];
            let container = workspace.containers.elements[c];
            let shown = container.windows.elements[container.windows.focused as int].hwnd;
            let restored = transparency_manager::deduplicated(targets.opaque);
            transparency_manager::except(targets.transparent, targets.opaque).contains(shown)
                == !restored.contains(shown)
        }),
{
    let monitor = state.monitors.elements[m];
    let workspace = monitor.workspaces.elements[monitor.workspaces.focused as int];
    let container = workspace.containers.elements[c];
    let shown = container.windows.elements[container.windows.focused as int].hwnd;
    windows_are_dimmed_for_a_reason(state, pass, known, shown);
    assert(container_paints(pass, workspace, m, c, shown, true));
    assert(monitor_paints(pass, state.monitors.elements, m, shown, true));
}

/// The window that the focused container of the focused monitor shows is restored, and not
/// dimmed, where that monitor's workspace tiles in its tiling layer, has no monocle container
/// and is not below a maximized foreground window.
pub proof fn the_focused_tile_is_restored(state: ManagerView, pass: PassView, known: Seq<isize>)
    requires
        0 <= pass.focused_monitor < state.monitors.elements.len(),
        state.monitors.elements[pass.focused_monitor].workspaces.focused
            < state.monitors.elements[pass.focused_monitor].workspaces.elements.len(),
        ({
            let monitor = state.monitors.elements[pass.focused_monitor];
            let workspace = monitor.workspaces.elements[monitor.workspaces.focused as int];
            let container = workspace.containers.elements[workspace.containers.focused as int];
            &&& workspace.tile
            &&& workspace.layer == WorkspaceLayer::Tiling
            &&& workspace.monocle_container is None
            &&& !pass.is_maximized || pass.settling
            &&& workspace.containers.focused < workspace.containers.elements.len()
            &&& container.windows.focused < container.windows.elements.len()
        }),
    ensures
        ({
            let targets = transparency_manager::targets_of(pass, state, known);
            let monitor = state.monitors.elements[pass.focused_monitor];
            let workspace = monitor.workspaces.elements[monitor.workspaces.focused as int];
            let container = workspace.containers.elements[workspace.containers.focused as int];
            let shown = container.windows.elements[container.windows.focused as int].hwnd;
            &&& transparency_manager::deduplicated(targets.opaque).contains(shown)
            &&& !transparency_manager::except(targets.transparent, targets.opaque).contains(shown)
        }),
{
    let m = pass.focused_monitor;
    let monitor = state.monitors.elements[m];
    let workspace = monitor.workspaces.elements[monitor.workspaces.focused as int];
    let c = workspace.containers.focused as int;
    let container = workspace.containers.elements[c];
    let shown = container.windows.elements[container.windows.focused as int].hwnd;
    windows_are_dimmed_for_a_reason(state, pass, known, shown);
    assert(container_paints(pass, workspace, m, c, shown, false));
    assert(monitor_paints(pass, state.monitors.elements, m, shown, false));
}

/// A pass goes by the monitor that has the focus, and by whether a switch is settling on one
/// of the monitors: its time has not come yet.
pub proof fn passes_go_by_the_state(
    state: ManagerView,
    foreground: isize,
    is_maximized: bool,
    settings: TransparencySettings,
    rules: RuleSet,
    d: DesktopView,
)
    ensures
        ({
            let pass = transparency_manager::pass_of(
                state,
                foreground,
                is_maximized,
                settings,
                rules,
                d,
            );
            &&& pass.focused_monitor == state.monitors.focused
            &&& pass.foreground == foreground
            &&& pass.is_maximized == is_maximized
            &&& pass.settings == settings
            &&& pass.rules == rules
            &&& pass.d == d
            &&& pass.settling == exists|i: int|
                0 <= i < state.monitors.elements.len() && (#[trigger] state.monitors.elements[i]
                    .last_switch_at) is Some && d.now_ms
                    - state.monitors.elements[i].last_switch_at->0
                    < monitor::STABILIZATION_GRACE_MS
        }),
{
    let monitors = state.monitors.elements;
    if exists|i: int|
        0 <= i < monitors.len() && (#[trigger] monitors[i].last_switch_at) is Some && d.now_ms
            - monitors[i].last_switch_at->0 < monitor::STABILIZATION_GRACE_MS {
        let i = choose|i: int|
            0 <= i < monitors.len() && (#[trigger] monitors[i].last_switch_at) is Some && d.now_ms
                - monitors[i].last_switch_at->0 < monitor::STABILIZATION_GRACE_MS;
        assert(monitors[i].settling(d.now_ms));
    }
    if state.any_settling(d.now_ms) {
        let i = choose|i: int|
            0 <= i < monitors.len() && (#[trigger] monitors[i]).settling(d.now_ms);
        assert(monitors[i].last_switch_at is Some);
    }
}

/// A rule keeps a window opaque exactly where all its texts are known and one of the rules
/// against dimming matches them.
pub proof fn rules_keep_windows_opaque(hwnd: isize, rules: RuleSet, d: DesktopView)
    requires
        d.at(hwnd).title is Some,
        d.at(hwnd).exe is Some,
        d.at(hwnd).class is Some,
        d.at(hwnd).path is Some,
    ensures
        transparency_manager::blacklisted(hwnd, rules, d) == exists|i: int|
            0 <= i < rules.transparency_blacklist@.len() && rules::rule_matches(
                #[trigger] rules.transparency_blacklist@[i]@,
                WindowTexts {
                    title: d.at(hwnd).title->0@,
                    exe: d.at(hwnd).exe->0@,
                    class: d.at(hwnd).class->0@,
                    path: d.at(hwnd).path->0@,
                },
                rules.regex_identifiers@,
            ),
{
    if rules.transparency_blacklist@.len() > 0 {
        rules::later_rules_win(
            rules.transparency_blacklist@,
            rules.transparency_blacklist@[0],
            WindowTexts {
                title: d.at(hwnd).title->0@,
                exe: d.at(hwnd).exe->0@,
                class: d.at(hwnd).class->0@,
                path: d.at(hwnd).path->0@,
            },
            rules.regex_identifiers@,
        );
    } else {
        reveal(rules::last_match);
    }
}

} // verus!
