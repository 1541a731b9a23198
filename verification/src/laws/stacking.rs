//! In which order the windows of a monitor are raised.

use vstd::prelude::*;

use crate::apply_worker;
use crate::apply_worker::ApplyOpView;
use crate::apply_worker::Batch;
use crate::apply_worker::CapturedWindow;
use crate::container::ContainerView;
use crate::desktop::DesktopView;
use crate::layers;
use crate::laws::dimming;
use crate::monitor;
use crate::monitor::MonitorView;
use crate::plan::StepView;
use crate::transparency_manager;
use crate::window::Window;
use crate::workspace;
use crate::workspace::WorkspaceLayer;
use crate::workspace::WorkspaceView;

verus! {

/// Whether a step raises a window.
pub open spec fn raises(step: StepView, hwnd: isize) -> bool {
    match step {
        StepView::Apply(ApplyOpView::Windows(batch, windows)) => {
            &&& batch == Batch::Raise || batch == Batch::RaiseAboveActive
            &&& has_handle(windows, hwnd)
        },
        _ => false,
    }
}

/// Whether one of the windows has a handle.
pub open spec fn has_handle(windows: Seq<CapturedWindow>, hwnd: isize) -> bool {
    exists|i: int| 0 <= i < windows.len() && (#[trigger] windows[i]).window.hwnd == hwnd
}

/// Whether a window ends up above another one: it is raised, and whenever the other one is, it
/// is raised later.
pub open spec fn ends_above(steps: Seq<StepView>, upper: isize, lower: isize) -> bool {
    &&& exists|j: int| 0 <= j < steps.len() && raises(#[trigger] steps[j], upper)
    &&& forall|i: int|
        0 <= i < steps.len() && raises(#[trigger] steps[i], lower) ==> exists|j: int|
            i < j < steps.len() && raises(#[trigger] steps[j], upper)
}

/// Whether no step raises a window.
spec fn leaves_alone(steps: Seq<StepView>, hwnd: isize) -> bool {
    forall|i: int| 0 <= i < steps.len() ==> !raises(#[trigger] steps[i], hwnd)
}

proof fn later_is_above(
    before: Seq<StepView>,
    band: Seq<StepView>,
    after: Seq<StepView>,
    upper: isize,
    lower: isize,
    at: int,
)
    requires
        0 <= at < band.len(),
        raises(band[at], upper),
        leaves_alone(band, lower),
        leaves_alone(after, lower),
    ensures
        ends_above(before + band + after, upper, lower),
{
    let steps = before + band + after;
    let j = before.len() + at;
    assert(steps[j] == band[at]);
    assert forall|i: int| 0 <= i < steps.len() && raises(#[trigger] steps[i], lower) implies exists|
        k: int,
    | i < k < steps.len() && raises(#[trigger] steps[k], upper) by {
        if i >= before.len() + band.len() {
            assert(steps[i] == after[i - before.len() - band.len()]);
        } else if i >= before.len() {
            assert(steps[i] == band[i - before.len()]);
        }
        assert(i < j);
        assert(raises(steps[j], upper));
    }
}

proof fn raised_by_one(step: StepView, batch: Batch, one: Seq<CapturedWindow>, hwnd: isize)
    requires
        step == StepView::Apply(ApplyOpView::Windows(batch, one)),
        batch == Batch::Raise || batch == Batch::RaiseAboveActive,
        one.len() == 1,
    ensures
        raises(step, hwnd) == (one[0].window.hwnd == hwnd),
{
    assert(has_handle(one, hwnd) == (one[0].window.hwnd == hwnd));
}

proof fn raised_each(climb: bool, windows: Seq<Window>, d: DesktopView, hwnd: isize)
    ensures
        forall|i: int|
            0 <= i < windows.len() ==> raises(
                #[trigger] monitor::raise_each(climb, windows, d)[i],
                hwnd,
            ) == (windows[i].hwnd == hwnd),
        monitor::raise_each(climb, windows, d).len() == windows.len(),
{
    assert forall|i: int| 0 <= i < windows.len() implies raises(
        #[trigger] monitor::raise_each(climb, windows, d)[i],
        hwnd,
    ) == (windows[i].hwnd == hwnd) by {
        let step = monitor::raise_each(climb, windows, d)[i];
        let one = seq![apply_worker::captured(windows[i], d)];
        let batch = if climb {
            Batch::RaiseAboveActive
        } else {
            Batch::Raise
        };
        assert(step == StepView::Apply(ApplyOpView::Windows(batch, one)));
        assert(one[0].window == windows[i]);
        raised_by_one(step, batch, one, hwnd);
    }
}

proof fn joined(a: Seq<StepView>, b: Seq<StepView>, hwnd: isize)
    requires
        leaves_alone(a, hwnd),
        leaves_alone(b, hwnd),
    ensures
        leaves_alone(a + b, hwnd),
{
    assert forall|i: int| 0 <= i < (a + b).len() implies !raises(#[trigger] (a + b)[i], hwnd) by {
        if i < a.len() {
            assert((a + b)[i] == a[i]);
        } else {
            assert((a + b)[i] == b[i - a.len()]);
        }
    }
}

proof fn fronts_have_holders(containers: Seq<ContainerView>, i: int)
    requires
        0 <= i < workspace::fronts(containers).len(),
    ensures
        exists|c: int|
            0 <= c < containers.len() && dimming::shows(
                #[trigger] containers[c],
                workspace::fronts(containers)[i].hwnd,
            ),
{
    let fronts = workspace::fronts(containers);
    let hwnds = transparency_manager::hwnds_of(fronts);
    assert(hwnds[i] == fronts[i].hwnd);
    dimming::fronts_are_shown(containers, fronts[i].hwnd);
}

proof fn holders_have_fronts(containers: Seq<ContainerView>, c: int, hwnd: isize)
    requires
        0 <= c < containers.len(),
        dimming::shows(containers[c], hwnd),
    ensures
        exists|i: int|
            0 <= i < workspace::fronts(containers).len() && (
            #[trigger] workspace::fronts(containers)[i]).hwnd == hwnd,
{
    let fronts = workspace::fronts(containers);
    let hwnds = transparency_manager::hwnds_of(fronts);
    dimming::fronts_are_shown(containers, hwnd);
    assert(hwnds.contains(hwnd));
    let i = choose|i: int| 0 <= i < hwnds.len() && hwnds[i] == hwnd;
    assert(fronts[i].hwnd == hwnd);
}

/// Whether a container of a workspace shows a window.
pub open spec fn is_tile(workspace: WorkspaceView, hwnd: isize) -> bool {
    exists|c: int|
        0 <= c < workspace.containers.elements.len() && dimming::shows(
            #[trigger] workspace.containers.elements[c],
            hwnd,
        )
}

/// Whether a workspace has a floating window.
pub open spec fn is_float(workspace: WorkspaceView, hwnd: isize) -> bool {
    exists|i: int|
        0 <= i < workspace.floating_windows.elements.len()
            && #[trigger] workspace.floating_windows.elements[i].hwnd == hwnd
}

/// While the tiling layer is on top, the window that a container shows ends up above every
/// window that floats on the workspace.
pub proof fn tiles_end_above_floats(
    monitor: MonitorView,
    workspace: WorkspaceView,
    d: DesktopView,
    climb_active: bool,
    climb_tiled: bool,
    tile: isize,
    float: isize,
)
    requires
        workspace.layer == WorkspaceLayer::Tiling,
        !workspace.ignored_windows_above_managed,
        workspace.monocle_container is None,
        workspace.maximized_window is None,
        is_tile(workspace, tile),
        is_float(workspace, float),
        !is_tile(workspace, float),
    ensures
        ends_above(
            layers::stack_steps(monitor, workspace, d, climb_active, climb_tiled),
            tile,
            float,
        ),
{
    let containers = workspace.containers.elements;
    let pins = layers::living(monitor.pins(), d);
    let floats = workspace.floating_windows.elements;
    let tiles = workspace::fronts(containers);
    let climb = climb_tiled || climb_active;
    let before = apply_worker::queued(
        Batch::ClearTopmost,
        monitor.not_on_top(pins) + floats,
        d,
    ) + (monitor::raise_each(climb_active, monitor.not_on_top(pins), d) + monitor::raise_each(
        climb_active,
        floats,
        d,
    ));
    let band = monitor::raise_each(climb, tiles.reverse(), d);
    let on_top = apply_worker::queued(Batch::MakeTopmost, monitor.on_top(pins), d);
    let top = monitor.top_steps(workspace, d, climb_active, climb_tiled);
    let steal = monitor.steal_steps(workspace, d);
    let after = on_top + top + steal;
    assert(layers::stack_steps(monitor, workspace, d, climb_active, climb_tiled) =~= before + band
        + after);
    raised_each(climb, tiles.reverse(), d, tile);
    raised_each(climb, tiles.reverse(), d, float);
    let c = choose|c: int| 0 <= c < containers.len() && dimming::shows(#[trigger] containers[c], tile);
    holders_have_fronts(containers, c, tile);
    let i = choose|i: int| 0 <= i < tiles.len() && (#[trigger] tiles[i]).hwnd == tile;
    let at = tiles.len() - 1 - i;
    assert(tiles.reverse()[at] == tiles[i]);
    assert forall|k: int| 0 <= k < band.len() implies !raises(#[trigger] band[k], float) by {
        fronts_have_holders(containers, tiles.len() - 1 - k);
    }
    let shown = workspace::one(monitor.top_window(workspace));
    raised_each(climb_active || climb_tiled, shown, d, float);
    assert(leaves_alone(top, float)) by {
        if shown.len() > 0 {
            assert(dimming::shows(
                containers[workspace.containers.focused as int],
                shown[0].hwnd,
            ));
        }
    }
    joined(on_top, top, float);
    joined(on_top + top, steal, float);
    later_is_above(before, band, after, tile, float, at);
}

/// While the floating layer is on top, every window that floats on the workspace ends up above
/// the windows that the containers show.
pub proof fn floats_end_above_tiles(
    monitor: MonitorView,
    workspace: WorkspaceView,
    d: DesktopView,
    climb_active: bool,
    climb_tiled: bool,
    tile: isize,
    float: isize,
)
    requires
        workspace.layer == WorkspaceLayer::Floating,
        !workspace.ignored_windows_above_managed,
        workspace.monocle_container is None,
        workspace.maximized_window is None,
        is_tile(workspace, tile),
        is_float(workspace, float),
        !is_float(workspace, tile),
        !monitor.pinned_floating.contains(tile),
    ensures
        ends_above(
            layers::stack_steps(monitor, workspace, d, climb_active, climb_tiled),
            float,
            tile,
        ),
{
    let pins = layers::living(monitor.pins(), d);
    let floats = workspace.floating_windows.elements;
    let tiles = workspace::fronts(workspace.containers.elements);
    let before = apply_worker::queued(
        Batch::ClearTopmost,
        monitor.not_on_top(pins) + floats,
        d,
    ) + (monitor::raise_each(climb_active, tiles, d) + monitor::raise_each(
        true,
        monitor.not_on_top(pins),
        d,
    ));
    let band = monitor::raise_each(true, floats.reverse(), d);
    let on_top = apply_worker::queued(Batch::MakeTopmost, monitor.on_top(pins), d);
    let top = monitor.top_steps(workspace, d, climb_active, climb_tiled);
    let steal = monitor.steal_steps(workspace, d);
    let after = on_top + top + steal;
    assert(layers::stack_steps(monitor, workspace, d, climb_active, climb_tiled) =~= before + band
        + after);
    raised_each(true, floats.reverse(), d, tile);
    raised_each(true, floats.reverse(), d, float);
    let i = choose|i: int| 0 <= i < floats.len() && #[trigger] floats[i].hwnd == float;
    let at = floats.len() - 1 - i;
    assert(floats.reverse()[at] == floats[i]);
    assert forall|k: int| 0 <= k < band.len() implies !raises(#[trigger] band[k], tile) by {
        assert(floats.reverse()[k] == floats[floats.len() - 1 - k]);
    }
    let shown = workspace::one(monitor.top_window(workspace));
    raised_each(climb_active, shown, d, tile);
    assert(leaves_alone(top, tile)) by {
        if shown.len() > 0 && workspace.floating_windows.focused < floats.len() {
            assert(floats[workspace.floating_windows.focused as int].hwnd != tile);
        }
    }
    joined(on_top, top, tile);
    joined(on_top + top, steal, tile);
    later_is_above(before, band, after, float, tile, at);
}

/// The window that belongs on the very top is the one that the focused container shows while
/// the tiling layer is on top, and otherwise the pinned window that was used last, or the
/// focused one of the floating windows.
pub proof fn the_focused_window_belongs_on_top(monitor: MonitorView, workspace: WorkspaceView)
    ensures
        ({
            let top = monitor.top_window(workspace);
            let tiles = workspace.containers;
            let floats = workspace.floating_windows;
            let last = workspace.last_focused_floating_hwnd;
            let is_tiling = workspace.layer == WorkspaceLayer::Tiling;
            let is_pin = last is Some && monitor.pinned_floating.contains(last->0);
            &&& is_tiling && top is Some ==> tiles.focused < tiles.elements.len()
                && dimming::shows(tiles.elements[tiles.focused as int], top->0.hwnd)
            &&& is_tiling && tiles.focused < tiles.elements.len() && tiles.elements[tiles.focused as int].windows.focused
                < tiles.elements[tiles.focused as int].windows.elements.len() ==> top is Some
            &&& !is_tiling && is_pin ==> top is Some && top->0.hwnd == last->0
            &&& !is_tiling && !is_pin && floats.focused < floats.elements.len() ==> top == Some(
                floats.elements[floats.focused as int],
            )
            &&& !is_tiling && !is_pin && floats.focused >= floats.elements.len() ==> top is None
        }),
{
}

/// While the ignored windows are above the managed ones by a command, nothing is restacked.
pub proof fn ignored_windows_above_stay_there(
    monitor: MonitorView,
    workspace: WorkspaceView,
    d: DesktopView,
    climb_active: bool,
    climb_tiled: bool,
)
    requires
        workspace.ignored_windows_above_managed,
    ensures
        layers::stack_steps(monitor, workspace, d, climb_active, climb_tiled).len() == 0,
{
}

} // verus!
