//! Commands that bring one layer of windows above another.

use vstd::prelude::*;

use crate::apply_worker;
use crate::apply_worker::ApplyWorker;
use crate::apply_worker::Batch;
use crate::change_state;
use crate::change_state::Deed;
use crate::container;
use crate::desktop::Desktop;
use crate::desktop::DesktopView;
use crate::error::Error;
use crate::manager_op::ManagerOp;
use crate::monitor;
use crate::monitor::Monitor;
use crate::monitor::MonitorView;
use crate::plan::Call;
use crate::plan::CommandStage;
use crate::plan::Step;
use crate::plan::StepView;
use crate::settings::Settings;
use crate::window;
use crate::window::Screen;
use crate::window::ScreenView;
use crate::window::Window;
use crate::window_manager;
use crate::window_manager::ManagerView;
use crate::window_manager::WindowManager;
use crate::workspace::Workspace;
use crate::workspace::WorkspaceLayer;
use crate::workspace::WorkspaceView;

verus! {

/// The area of a window, as far as it is known.
pub open spec fn area(window: Window, d: DesktopView) -> int {
    match d.at(window.hwnd).rect {
        Some(rect) => rect.right * rect.bottom,
        None => 0,
    }
}

fn window_area(window: Window, desktop: &Desktop) -> (r: i64)
    ensures
        r == area(window, desktop@),
{
    match desktop.rect(window.hwnd) {
        Some(rect) => {
            let width: i64 = rect.right as i64;
            let height: i64 = rect.bottom as i64;
            assert(-0x8000_0000 * 0x8000_0000 <= width * height <= 0x8000_0000 * 0x8000_0000)
                by (nonlinear_arith)
                requires
                    -0x8000_0000 <= width <= 0x7fff_ffff,
                    -0x8000_0000 <= height <= 0x7fff_ffff,
            ;
            width * height
        },
        None => 0,
    }
}

/// The first position, from an index on, at which no larger window stands.
pub open spec fn slot(order: Seq<Window>, size: int, d: DesktopView, from: int) -> int
    decreases order.len() - from,
{
    if from < 0 || from >= order.len() {
        order.len() as int
    } else if area(order[from], d) <= size {
        from
    } else {
        slot(order, size, d, from + 1)
    }
}

/// The windows from the largest to the smallest. Of windows with the same area the later
/// one comes first.
pub open spec fn by_area(windows: Seq<Window>, d: DesktopView) -> Seq<Window>
    decreases windows.len(),
{
    if windows.len() == 0 {
        Seq::empty()
    } else {
        let before = by_area(windows.drop_last(), d);
        before.insert(slot(before, area(windows.last(), d), d, 0), windows.last())
    }
}

proof fn slot_is_within(order: Seq<Window>, size: int, d: DesktopView, from: int)
    requires
        0 <= from <= order.len(),
    ensures
        from <= slot(order, size, d, from) <= order.len(),
        forall|k: int| from <= k < slot(order, size, d, from) ==> area(#[trigger] order[k], d)
            > size,
        slot(order, size, d, from) < order.len() ==> area(
            order[slot(order, size, d, from)],
            d,
        ) <= size,
    decreases order.len() - from,
{
    if from < order.len() && area(order[from], d) > size {
        slot_is_within(order, size, d, from + 1);
    }
}

/// Ordering windows by their area leaves the same windows, with no smaller one before a
/// larger one.
pub proof fn windows_are_ordered_by_area(windows: Seq<Window>, d: DesktopView)
    ensures
        by_area(windows, d).to_multiset() == windows.to_multiset(),
        by_area(windows, d).len() == windows.len(),
        forall|i: int, j: int|
            0 <= i < j < by_area(windows, d).len() ==> area(#[trigger] by_area(windows, d)[i], d)
                >= area(#[trigger] by_area(windows, d)[j], d),
    decreases windows.len(),
{
    broadcast use vstd::seq_lib::group_to_multiset_ensures;

    if windows.len() > 0 {
        let last = windows.last();
        let before = by_area(windows.drop_last(), d);
        let at = slot(before, area(last, d), d, 0);
        windows_are_ordered_by_area(windows.drop_last(), d);
        slot_is_within(before, area(last, d), d, 0);
        let after = before.insert(at, last);
        assert(windows =~= windows.drop_last().push(last));
        assert(after.to_multiset() =~= before.to_multiset().insert(last));
        assert forall|i: int, j: int| 0 <= i < j < after.len() implies area(
            #[trigger] after[i],
            d,
        ) >= area(#[trigger] after[j], d) by {
            if i < at {
                assert(after[i] == before[i]);
            } else if i > at {
                assert(after[i] == before[i - 1]);
            }
            if j < at {
                assert(after[j] == before[j]);
            } else if j > at {
                assert(after[j] == before[j - 1]);
            }
            if i == at && at < before.len() {
                assert(area(before[at], d) <= area(last, d));
            }
        }
    } else {
        assert(windows =~= Seq::empty());
    }
}

fn order_by_area(windows: &Vec<Window>, desktop: &Desktop) -> (r: Vec<Window>)
    ensures
        r@ == by_area(windows@, desktop@),
{
    let mut order: Vec<Window> = Vec::new();
    let mut i: usize = 0;
    assert(windows@.take(0) =~= Seq::empty());
    while i < windows.len()
        invariant
            i <= windows@.len(),
            order@ == by_area(windows@.take(i as int), desktop@),
        decreases windows@.len() - i,
    {
        let window = windows[i];
        let size: i64 = window_area(window, desktop);
        let ghost before = order@;
        let mut at: usize = 0;
        while at < order.len() && window_area(order[at], desktop) > size
            invariant
                at <= order@.len(),
                order@ == before,
                slot(before, size as int, desktop@, 0) == slot(
                    before,
                    size as int,
                    desktop@,
                    at as int,
                ),
            decreases order@.len() - at,
        {
            at = at + 1;
        }
        assert(windows@.take(i + 1).drop_last() =~= windows@.take(i as int));
        order.insert(at, window);
        i = i + 1;
    }
    assert(windows@.take(i as int) =~= windows@);
    order
}

/// The pinned windows that belong to the floating layer. Those that are hidden while the
/// workspace is empty stay hidden.
pub open spec fn overlay(monitor: MonitorView, only_shown: bool, d: DesktopView) -> Seq<Window> {
    if only_shown {
        monitor.pins().filter(|pin: Window| d.at(pin.hwnd).is_shown)
    } else {
        monitor.pins()
    }
}

/// The window that gets the focus when the floating layer comes up: the float that was
/// used last, own or pinned, or else the focused one.
pub open spec fn float_to_focus(workspace: WorkspaceView, overlay: Seq<Window>) -> Option<Window> {
    match workspace.last_focused_floating_hwnd {
        Some(hwnd) => if workspace.floats(hwnd) || container::holds(overlay, hwnd) {
            Some(Window { hwnd })
        } else {
            workspace.floating_windows.focused_element()
        },
        None => workspace.floating_windows.focused_element(),
    }
}

/// The windows but one.
pub open spec fn but(windows: Seq<Window>, focus: Option<Window>) -> Seq<Window> {
    windows.filter(|window: Window| focus != Some(window))
}

/// The pinned windows that are no floating windows of a workspace.
pub open spec fn foreign(overlay: Seq<Window>, workspace: WorkspaceView) -> Seq<Window> {
    overlay.filter(|pin: Window| !workspace.floats(pin.hwnd))
}

/// Show the floating windows and the pinned ones, and raise them, the one that gets the
/// focus first.
pub open spec fn floats_shown(
    screen: ScreenView,
    workspace: WorkspaceView,
    overlay: Seq<Window>,
    focus: Option<Window>,
) -> ScreenView {
    let rest = but(by_area(workspace.floating_windows.elements, screen.desktop), focus);
    let shown = screen.showing_all(rest);
    let first = match focus {
        Some(window) => {
            let restored = shown.showing(window);
            restored.followed_by(
                apply_worker::queued(Batch::RaiseAboveActive, seq![window], restored.desktop),
            )
        },
        None => shown,
    };
    first.followed_by(
        apply_worker::queued(Batch::RaiseAboveActive, rest, first.desktop),
    ).showing_all(foreign(overlay, workspace))
}

/// Give the focus to a floating window, or to the desktop where there is none, and get
/// the monocle window out of the way.
pub open spec fn float_focused(
    screen: ScreenView,
    workspace: WorkspaceView,
    focus: Option<Window>,
    mouse_follows_focus: bool,
) -> ScreenView {
    let focused = match focus {
        Some(window) => screen.followed_by(
            window::focus_steps(window.hwnd, mouse_follows_focus, screen.desktop),
        ),
        None => screen.taking(StepView::Do(Call::RaiseAndFocusDesktop)),
    };
    match workspace.monocle_front() {
        Some(window) => focused.followed_by(
            apply_worker::queued(Batch::Lower, seq![window], focused.desktop),
        ),
        None => focused,
    }
}

/// A workspace in a layer that a command has chosen, or not any more.
pub open spec fn in_layer(workspace: WorkspaceView, layer: WorkspaceLayer, lock: bool) -> WorkspaceView {
    WorkspaceView { layer, layer_lock: lock, ..workspace }
}

/// Focus the window of the tiling layer.
pub open spec fn tile_focused(
    screen: ScreenView,
    workspace: WorkspaceView,
    mouse_follows_focus: bool,
) -> ScreenView {
    match workspace.monocle_container {
        Some(monocle) => match monocle.front() {
            Some(window) => screen.followed_by(
                window::with_border(|h: isize| Call::RaiseWindow(h), window.hwnd, screen.desktop),
            ).followed_by(
                window::focus_steps(window.hwnd, mouse_follows_focus, screen.desktop),
            ),
            None => screen,
        },
        None => match workspace.containers.focused_element() {
            Some(container) => match container.front() {
                Some(window) => screen.followed_by(
                    window::focus_steps(window.hwnd, mouse_follows_focus, screen.desktop),
                ),
                None => screen,
            },
            None => screen,
        },
    }
}

/// Bring the other layer of the focused workspace up.
#[verifier::opaque]
pub open spec fn layer_toggled(
    manager: ManagerView,
    screen: ScreenView,
    settings: Settings,
) -> Deed {
    let suppressed = screen.managing(ManagerOp::SuppressLayerFlips);
    match manager.workspace() {
        Err(error) => change_state::refused(manager, suppressed, error),
        Ok(workspace) => {
            let lower_ignored = !workspace.ignored_windows_above_managed && !workspace.empty();
            match workspace.layer {
                WorkspaceLayer::Tiling => {
                    let overlay = overlay(
                        manager.monitors.elements[manager.monitors.focused as int],
                        settings.hide_pinned_on_empty_workspaces && workspace.empty(),
                        screen.desktop,
                    );
                    let focus = float_to_focus(workspace, overlay);
                    change_state::underway(
                        manager.with_workspace(
                            in_layer(workspace, WorkspaceLayer::Floating, true),
                        ),
                        float_focused(
                            floats_shown(suppressed, workspace, overlay, focus),
                            workspace,
                            focus,
                            manager.mouse_follows_focus,
                        ),
                        CommandStage::LayerShown {
                            focus: match focus {
                                Some(window) => Some(window.hwnd),
                                None => None,
                            },
                            lower_ignored,
                        },
                    )
                },
                WorkspaceLayer::Floating => {
                    let lowered = tile_focused(
                        suppressed,
                        workspace,
                        manager.mouse_follows_focus,
                    ).managing(ManagerOp::LowerFloatingOverlay);
                    change_state::carried_out(
                        manager.with_workspace(in_layer(workspace, WorkspaceLayer::Tiling, false)),
                        if lower_ignored {
                            lowered.managing(ManagerOp::LowerIgnoredWindows)
                        } else {
                            lowered
                        },
                    )
                },
            }
        },
    }
}

/// Stack the layers once the floating one is up, and see to it that its window has the
/// foreground.
#[verifier::opaque]
pub open spec fn layer_shown(
    manager: ManagerView,
    screen: ScreenView,
    settings: Settings,
    focus: Option<isize>,
    lower_ignored: bool,
) -> Deed {
    match manager.monitor() {
        Err(error) => change_state::refused(manager, screen, error),
        Ok(monitor) => {
            let stacked = monitor.stacked(screen, false, false, settings);
            let raised = match focus {
                Some(hwnd) => stacked.taking(
                    StepView::Try(Call::RaiseAndFocusWindow(hwnd), None),
                ),
                None => stacked,
            };
            change_state::carried_out(
                manager,
                if lower_ignored {
                    raised.managing(ManagerOp::LowerIgnoredWindows)
                } else {
                    raised
                },
            )
        },
    }
}

/// The ignored windows that are moved together: all but widgets in the topmost band.
pub open spec fn movable_ignored(manager: ManagerView, d: DesktopView) -> Seq<Window> {
    match manager.monitors.focused_element() {
        Some(monitor) => monitor.ignored(d).filter(
            |window: Window| monitor::demotable(window.hwnd, d),
        ),
        None => Seq::empty(),
    }
}

/// Show and raise windows from the bottom to the top.
pub open spec fn raised_in_turn(screen: ScreenView, windows: Seq<Window>) -> ScreenView
    decreases windows.len(),
{
    if windows.len() == 0 {
        screen
    } else {
        let shown = screen.showing(windows.last());
        raised_in_turn(
            shown.followed_by(
                window::with_border(
                    |h: isize| Call::RaiseWindow(h),
                    windows.last().hwnd,
                    shown.desktop,
                ),
            ),
            windows.drop_last(),
        )
    }
}

/// Lower windows from the top to the bottom.
pub open spec fn lowered_in_turn(screen: ScreenView, windows: Seq<Window>) -> ScreenView
    decreases windows.len(),
{
    if windows.len() == 0 {
        screen
    } else {
        let before = lowered_in_turn(screen, windows.drop_last());
        before.followed_by(
            window::with_border(
                |h: isize| Call::LowerWindow(h),
                windows.last().hwnd,
                screen.desktop,
            ),
        )
    }
}

/// Bring the ignored windows above the managed ones, or below them again.
#[verifier::opaque]
pub open spec fn ignored_toggled(manager: ManagerView, screen: ScreenView) -> Deed {
    let windows = movable_ignored(manager, screen.desktop);
    match manager.workspace() {
        Err(error) => change_state::refused(manager, screen, error),
        Ok(workspace) => {
            let above = !workspace.ignored_windows_above_managed;
            let raised = raised_in_turn(screen, windows);
            change_state::carried_out(
                manager.with_workspace(
                    WorkspaceView { ignored_windows_above_managed: above, ..workspace },
                ),
                if above {
                    if windows.len() > 0 {
                        raised.taking(StepView::Do(Call::RaiseAndFocusWindow(windows[0].hwnd)))
                    } else {
                        raised
                    }
                } else {
                    lowered_in_turn(screen, windows)
                },
            )
        },
    }
}

fn shown_only(windows: &Vec<Window>, desktop: &Desktop) -> (r: Vec<Window>)
    ensures
        r@ == windows@.filter(|pin: Window| desktop@.at(pin.hwnd).is_shown),
{
    let ghost keeps = |pin: Window| desktop@.at(pin.hwnd).is_shown;
    let mut kept: Vec<Window> = Vec::new();
    let mut i: usize = 0;
    proof {
        reveal(Seq::filter);
        assert(windows@.take(0) =~= Seq::empty());
    }
    while i < windows.len()
        invariant
            i <= windows@.len(),
            keeps == (|pin: Window| desktop@.at(pin.hwnd).is_shown),
            kept@ == windows@.take(i as int).filter(keeps),
        decreases windows@.len() - i,
    {
        proof {
            reveal(Seq::filter);
            assert(windows@.take(i + 1).drop_last() =~= windows@.take(i as int));
        }
        if windows[i].is_shown(desktop) {
            kept.push(windows[i]);
        }
        i = i + 1;
    }
    assert(windows@.take(i as int) =~= windows@);
    kept
}

fn all_but(windows: &Vec<Window>, focus: Option<Window>) -> (r: Vec<Window>)
    ensures
        r@ == but(windows@, focus),
{
    let ghost keeps = |window: Window| focus != Some(window);
    let mut kept: Vec<Window> = Vec::new();
    let mut i: usize = 0;
    proof {
        reveal(Seq::filter);
        assert(windows@.take(0) =~= Seq::empty());
    }
    while i < windows.len()
        invariant
            i <= windows@.len(),
            keeps == (|window: Window| focus != Some(window)),
            kept@ == windows@.take(i as int).filter(keeps),
        decreases windows@.len() - i,
    {
        proof {
            reveal(Seq::filter);
            assert(windows@.take(i + 1).drop_last() =~= windows@.take(i as int));
        }
        let keep = match focus {
            Some(focused) => focused.hwnd != windows[i].hwnd,
            None => true,
        };
        if keep {
            kept.push(windows[i]);
        }
        i = i + 1;
    }
    assert(windows@.take(i as int) =~= windows@);
    kept
}

fn foreign_windows(overlay: &Vec<Window>, workspace: &Workspace) -> (r: Vec<Window>)
    ensures
        r@ == foreign(overlay@, workspace@),
{
    let ghost keeps = |pin: Window| !workspace@.floats(pin.hwnd);
    let mut kept: Vec<Window> = Vec::new();
    let mut i: usize = 0;
    proof {
        reveal(Seq::filter);
        assert(overlay@.take(0) =~= Seq::empty());
    }
    while i < overlay.len()
        invariant
            i <= overlay@.len(),
            keeps == (|pin: Window| !workspace@.floats(pin.hwnd)),
            kept@ == overlay@.take(i as int).filter(keeps),
        decreases overlay@.len() - i,
    {
        proof {
            reveal(Seq::filter);
            assert(overlay@.take(i + 1).drop_last() =~= overlay@.take(i as int));
        }
        if !workspace.contains_float(overlay[i].hwnd) {
            kept.push(overlay[i]);
        }
        i = i + 1;
    }
    assert(overlay@.take(i as int) =~= overlay@);
    kept
}

fn movable_windows(windows: &Vec<Window>, desktop: &Desktop) -> (r: Vec<Window>)
    ensures
        r@ == windows@.filter(|window: Window| monitor::demotable(window.hwnd, desktop@)),
{
    let ghost keeps = |window: Window| monitor::demotable(window.hwnd, desktop@);
    let mut kept: Vec<Window> = Vec::new();
    let mut i: usize = 0;
    proof {
        reveal(Seq::filter);
        assert(windows@.take(0) =~= Seq::empty());
    }
    while i < windows.len()
        invariant
            i <= windows@.len(),
            keeps == (|window: Window| monitor::demotable(window.hwnd, desktop@)),
            kept@ == windows@.take(i as int).filter(keeps),
        decreases windows@.len() - i,
    {
        proof {
            reveal(Seq::filter);
            assert(windows@.take(i + 1).drop_last() =~= windows@.take(i as int));
        }
        if Monitor::should_auto_demote(&windows[i], desktop) {
            kept.push(windows[i]);
        }
        i = i + 1;
    }
    assert(windows@.take(i as int) =~= windows@);
    kept
}

fn raise_in_turn(windows: &Vec<Window>, screen: &mut Screen)
    ensures
        final(screen)@ == raised_in_turn(old(screen)@, windows@),
{
    let mut left: usize = windows.len();
    assert(windows@.take(left as int) =~= windows@);
    while left > 0
        invariant
            left <= windows@.len(),
            raised_in_turn(old(screen)@, windows@) == raised_in_turn(
                screen@,
                windows@.take(left as int),
            ),
        decreases left,
    {
        let window = windows[left - 1];
        assert(windows@.take(left as int).drop_last() =~= windows@.take(left - 1));
        window.restore(screen);
        window.raise(&screen.desktop, &mut screen.plan);
        left = left - 1;
    }
}

fn lower_in_turn(windows: &Vec<Window>, screen: &mut Screen)
    ensures
        final(screen)@ == lowered_in_turn(old(screen)@, windows@),
{
    let mut i: usize = 0;
    assert(windows@.take(0) =~= Seq::empty());
    while i < windows.len()
        invariant
            i <= windows@.len(),
            screen@ == lowered_in_turn(old(screen)@, windows@.take(i as int)),
            screen@.desktop == old(screen)@.desktop,
        decreases windows@.len() - i,
    {
        assert(windows@.take(i + 1).drop_last() =~= windows@.take(i as int));
        windows[i].lower(&screen.desktop, &mut screen.plan);
        i = i + 1;
    }
    assert(windows@.take(i as int) =~= windows@);
}

impl Workspace {
    fn choose_float(&self, overlay: &Vec<Window>) -> (r: Option<Window>)
        ensures
            r == float_to_focus(self@, overlay@),
    {
        let fallback = match self.focused_floating_window() {
            Some(window) => Some(*window),
            None => None,
        };
        match self.last_focused_floating_hwnd {
            Some(hwnd) => if self.contains_float(hwnd) || container::position_in(
                overlay,
                hwnd,
            ).is_some() {
                Some(Window { hwnd })
            } else {
                fallback
            },
            None => fallback,
        }
    }

    fn show_floats(&self, overlay: &Vec<Window>, focus: Option<Window>, screen: &mut Screen)
        ensures
            final(screen)@ == floats_shown(old(screen)@, self@, overlay@, focus),
    {
        let order = order_by_area(&self.floating_windows.elements, &screen.desktop);
        let rest = all_but(&order, focus);
        container::restore_all(&rest, screen);
        match focus {
            Some(window) => {
                window.restore(screen);
                let mut first: Vec<Window> = Vec::new();
                first.push(window);
                assert(first@ =~= seq![window]);
                ApplyWorker::raise_above_active(&first, &screen.desktop, &mut screen.plan);
            },
            None => {},
        }
        ApplyWorker::raise_above_active(&rest, &screen.desktop, &mut screen.plan);
        let pins = foreign_windows(overlay, self);
        container::restore_all(&pins, screen);
    }

    fn focus_float(&self, focus: Option<Window>, mouse_follows_focus: bool, screen: &mut Screen)
        ensures
            final(screen)@ == float_focused(old(screen)@, self@, focus, mouse_follows_focus),
    {
        match focus {
            Some(window) => {
                window.focus(mouse_follows_focus, &screen.desktop, &mut screen.plan);
            },
            None => {
                screen.plan.call(Call::RaiseAndFocusDesktop);
            },
        }
        match &self.monocle_container {
            Some(monocle) => match monocle.focused_window() {
                Some(window) => {
                    let mut windows: Vec<Window> = Vec::new();
                    windows.push(*window);
                    assert(windows@ =~= seq![*window]);
                    ApplyWorker::lower(&windows, &screen.desktop, &mut screen.plan);
                },
                None => {},
            },
            None => {},
        }
    }

    fn focus_tile(&self, mouse_follows_focus: bool, screen: &mut Screen)
        ensures
            final(screen)@ == tile_focused(old(screen)@, self@, mouse_follows_focus),
    {
        match &self.monocle_container {
            Some(monocle) => match monocle.focused_window() {
                Some(window) => {
                    window.raise(&screen.desktop, &mut screen.plan);
                    window.focus(mouse_follows_focus, &screen.desktop, &mut screen.plan);
                },
                None => {},
            },
            None => match self.focused_container() {
                Some(container) => match container.focused_window() {
                    Some(window) => {
                        window.focus(mouse_follows_focus, &screen.desktop, &mut screen.plan);
                    },
                    None => {},
                },
                None => {},
            },
        }
    }
}

impl WindowManager {
    fn floating_overlay(&self, only_shown: bool, desktop: &Desktop) -> (r: Vec<Window>)
        requires
            self@.workspace() is Ok,
        ensures
            r@ == overlay(
                self@.monitors.elements[self@.monitors.focused as int],
                only_shown,
                desktop@,
            ),
    {
        let pins = match self.focused_monitor() {
            Some(monitor) => monitor.pinned_windows(),
            None => Vec::new(),
        };
        if only_shown {
            shown_only(&pins, desktop)
        } else {
            pins
        }
    }

    /// Bring the other layer of the focused workspace up.
    pub(crate) fn toggle_workspace_layer(&mut self, settings: &Settings, screen: &mut Screen) -> (r:
        Result<CommandStage, Error>)
        ensures
            (Deed { manager: final(self)@, screen: final(screen)@, result: r }) == layer_toggled(
                old(self)@,
                old(screen)@,
                *settings,
            ),
    {
        proof {
            reveal(layer_toggled);
        }
        screen.manage(ManagerOp::SuppressLayerFlips);
        let mouse_follows_focus = self.mouse_follows_focus;
        let (layer, empty, lower_ignored) = match self.focused_workspace() {
            Ok(workspace) => (
                workspace.layer,
                workspace.is_empty(),
                !workspace.ignored_windows_above_managed && !workspace.is_empty(),
            ),
            Err(error) => {
                return Err(error);
            },
        };
        match layer {
            WorkspaceLayer::Tiling => {
                let overlay = self.floating_overlay(
                    settings.hide_pinned_on_empty_workspaces && empty,
                    &screen.desktop,
                );
                let focus = self.raise_floating_layer(&overlay, screen);
                let focus = match focus {
                    Some(window) => Some(window.hwnd),
                    None => None,
                };
                Ok(CommandStage::LayerShown { focus, lower_ignored })
            },
            WorkspaceLayer::Floating => {
                match self.focused_workspace_mut() {
                    Ok(workspace) => {
                        workspace.layer = WorkspaceLayer::Tiling;
                        workspace.layer_lock = false;
                        workspace.focus_tile(mouse_follows_focus, screen);
                    },
                    Err(error) => {
                        return Err(error);
                    },
                }
                screen.manage(ManagerOp::LowerFloatingOverlay);
                if lower_ignored {
                    screen.manage(ManagerOp::LowerIgnoredWindows);
                }
                change_state::finished()
            },
        }
    }

    fn raise_floating_layer(&mut self, overlay: &Vec<Window>, screen: &mut Screen) -> (r: Option<
        Window,
    >)
        requires
            old(self)@.workspace() is Ok,
        ensures
            ({
                let workspace = old(self)@.workspace()->Ok_0;
                let focus = float_to_focus(workspace, overlay@);
                &&& r == focus
                &&& final(self)@ == old(self)@.with_workspace(
                    in_layer(workspace, WorkspaceLayer::Floating, true),
                )
                &&& final(screen)@ == float_focused(
                    floats_shown(old(screen)@, workspace, overlay@, focus),
                    workspace,
                    focus,
                    old(self)@.mouse_follows_focus,
                )
            }),
    {
        let mouse_follows_focus = self.mouse_follows_focus;
        match self.focused_workspace_mut() {
            Ok(workspace) => {
                let focus = workspace.choose_float(overlay);
                workspace.show_floats(overlay, focus, screen);
                workspace.focus_float(focus, mouse_follows_focus, screen);
                workspace.layer = WorkspaceLayer::Floating;
                workspace.layer_lock = true;
                focus
            },
            Err(_) => None,
        }
    }

    /// Stack the layers once the floating one is up.
    pub(crate) fn settle_floating_layer(
        &self,
        focus: Option<isize>,
        lower_ignored: bool,
        settings: &Settings,
        screen: &mut Screen,
    ) -> (r: Result<CommandStage, Error>)
        ensures
            (Deed { manager: self@, screen: final(screen)@, result: r }) == layer_shown(
                self@,
                old(screen)@,
                *settings,
                focus,
                lower_ignored,
            ),
    {
        proof {
            reveal(layer_shown);
        }
        match self.focused_monitor() {
            Some(monitor) => {
                let _ = monitor.enforce_layer_stack(settings, screen);
            },
            None => {
                return Err(Error::NoMonitor);
            },
        }
        match focus {
            Some(hwnd) => {
                screen.take_step(Step::Try(Call::RaiseAndFocusWindow(hwnd), None));
            },
            None => {},
        }
        if lower_ignored {
            screen.manage(ManagerOp::LowerIgnoredWindows);
        }
        change_state::finished()
    }

    /// Bring the ignored windows above the managed ones, or below them again.
    pub(crate) fn toggle_ignored_layer(&mut self, screen: &mut Screen) -> (r: Result<
        CommandStage,
        Error,
    >)
        ensures
            (Deed { manager: final(self)@, screen: final(screen)@, result: r })
                == ignored_toggled(old(self)@, old(screen)@),
    {
        proof {
            reveal(ignored_toggled);
        }
        let ignored = match self.focused_monitor() {
            Some(monitor) => monitor.ignored_windows(&screen.desktop),
            None => {
                return Err(Error::NoMonitor);
            },
        };
        let windows = movable_windows(&ignored, &screen.desktop);
        let above = match self.focused_workspace_mut() {
            Ok(workspace) => {
                workspace.ignored_windows_above_managed = !workspace.ignored_windows_above_managed;
                workspace.ignored_windows_above_managed
            },
            Err(error) => {
                return Err(error);
            },
        };
        if above {
            raise_in_turn(&windows, screen);
            if windows.len() > 0 {
                screen.plan.call(Call::RaiseAndFocusWindow(windows[0].hwnd));
            }
        } else {
            lower_in_turn(&windows, screen);
        }
        change_state::finished()
    }
}

/// Widgets in the topmost band are not among the windows that are moved together.
pub proof fn topmost_widgets_are_not_moved(manager: ManagerView, d: DesktopView, window: Window)
    requires
        window::looks_like_widget(d.at(window.hwnd)),
        window::is_topmost(d.at(window.hwnd)),
    ensures
        !movable_ignored(manager, d).contains(window),
{
    if manager.monitors.focused_element() is Some {
        let ignored = manager.monitors.focused_element()->0.ignored(d);
        let keeps = |w: Window| monitor::demotable(w.hwnd, d);
        assert(movable_ignored(manager, d) == ignored.filter(keeps));
        if ignored.filter(keeps).contains(window) {
            let i = choose|i: int|
                0 <= i < ignored.filter(keeps).len() && ignored.filter(keeps)[i] == window;
            crate::session::filtered(ignored, keeps, i);
        }
    }
}

/// A window is only moved with the ignored ones where it looks like an application, covers
/// its monitor, or is a widget, and where no workspace of the monitor holds it: surfaces of
/// the shell are never moved.
pub proof fn shell_surfaces_are_not_moved(manager: ManagerView, d: DesktopView, window: Window)
    requires
        movable_ignored(manager, d).contains(window),
    ensures
        manager.monitors.focused_element() matches Some(monitor) && monitor.ignores(
            window.hwnd,
            d,
        ),
        monitor::demotable(window.hwnd, d),
{
    let monitor = manager.monitors.focused_element()->0;
    let ignored = monitor.ignored(d);
    let keeps = |w: Window| monitor::demotable(w.hwnd, d);
    assert(movable_ignored(manager, d) == ignored.filter(keeps));
    let i = choose|i: int|
        0 <= i < ignored.filter(keeps).len() && ignored.filter(keeps)[i] == window;
    crate::session::filtered(ignored, keeps, i);
    assert(ignored.contains(window));
    let hwnds = d.unmanaged->0;
    let belongs = |hwnd: isize| monitor.ignores(hwnd, d);
    assert(ignored == monitor::as_windows(hwnds.filter(belongs)));
    let j = choose|j: int| 0 <= j < ignored.len() && ignored[j] == window;
    assert(hwnds.filter(belongs)[j] == window.hwnd);
    crate::session::filtered(hwnds, belongs, j);
}

proof fn steps_stay_raised(screen: ScreenView, windows: Seq<Window>)
    ensures
        screen.steps.is_prefix_of(raised_in_turn(screen, windows).steps),
    decreases windows.len(),
{
    if windows.len() > 0 {
        let shown = screen.showing(windows.last());
        let next = shown.followed_by(
            window::with_border(
                |h: isize| Call::RaiseWindow(h),
                windows.last().hwnd,
                shown.desktop,
            ),
        );
        steps_stay_raised(next, windows.drop_last());
        assert(screen.steps =~= next.steps.subrange(0, screen.steps.len() as int));
        let last = raised_in_turn(next, windows.drop_last()).steps;
        assert(screen.steps =~= last.subrange(0, screen.steps.len() as int)) by {
            assert(next.steps =~= last.subrange(0, next.steps.len() as int));
        }
    } else {
        assert(screen.steps =~= screen.steps.subrange(0, screen.steps.len() as int));
    }
}

proof fn raised(screen: ScreenView, windows: Seq<Window>, i: int)
    requires
        0 <= i < windows.len(),
    ensures
        raised_in_turn(screen, windows).steps.contains(
            StepView::Do(Call::RaiseWindow(windows[i].hwnd)),
        ),
    decreases windows.len(),
{
    let shown = screen.showing(windows.last());
    let steps = window::with_border(
        |h: isize| Call::RaiseWindow(h),
        windows.last().hwnd,
        shown.desktop,
    );
    let next = shown.followed_by(steps);
    if i < windows.len() - 1 {
        raised(next, windows.drop_last(), i);
    } else {
        steps_stay_raised(next, windows.drop_last());
        let last = raised_in_turn(next, windows.drop_last()).steps;
        let at = shown.steps.len() as int;
        assert(steps[0] == StepView::Do(Call::RaiseWindow(windows[i].hwnd)));
        assert(next.steps[at] == steps[0]);
        assert(last.subrange(0, next.steps.len() as int)[at] == next.steps[at]);
        assert(last[at] == next.steps[at]);
    }
}

proof fn lowered(screen: ScreenView, windows: Seq<Window>, i: int)
    requires
        0 <= i < windows.len(),
    ensures
        lowered_in_turn(screen, windows).steps.contains(
            StepView::Do(Call::LowerWindow(windows[i].hwnd)),
        ),
    decreases windows.len(),
{
    let before = lowered_in_turn(screen, windows.drop_last());
    let steps = window::with_border(
        |h: isize| Call::LowerWindow(h),
        windows.last().hwnd,
        screen.desktop,
    );
    let after = lowered_in_turn(screen, windows).steps;
    assert(after == before.steps + steps);
    if i < windows.len() - 1 {
        lowered(screen, windows.drop_last(), i);
        let call = StepView::Do(Call::LowerWindow(windows[i].hwnd));
        let at = choose|at: int| 0 <= at < before.steps.len() && before.steps[at] == call;
        assert(after[at] == call);
    } else {
        assert(after[before.steps.len() as int] == steps[0]);
    }
}

/// Every ignored window that can be moved is raised when the ignored windows come above
/// the managed ones, and lowered when they go below them again. The topmost of them is
/// activated when they come up.
pub proof fn ignored_windows_move_together(manager: ManagerView, screen: ScreenView, i: int)
    requires
        manager.workspace() is Ok,
        0 <= i < movable_ignored(manager, screen.desktop).len(),
    ensures
        ({
            let windows = movable_ignored(manager, screen.desktop);
            let after = ignored_toggled(manager, screen).screen.steps;
            if manager.workspace()->Ok_0.ignored_windows_above_managed {
                after.contains(StepView::Do(Call::LowerWindow(windows[i].hwnd)))
            } else {
                after.contains(StepView::Do(Call::RaiseWindow(windows[i].hwnd)))
                    && after.last() == StepView::Do(Call::RaiseAndFocusWindow(windows[0].hwnd))
            }
        }),
{
    reveal(ignored_toggled);
    let windows = movable_ignored(manager, screen.desktop);
    if manager.workspace()->Ok_0.ignored_windows_above_managed {
        lowered(screen, windows, i);
    } else {
        raised(screen, windows, i);
        let before = raised_in_turn(screen, windows).steps;
        let call = StepView::Do(Call::RaiseWindow(windows[i].hwnd));
        let after = ignored_toggled(manager, screen).screen.steps;
        let at = choose|at: int| 0 <= at < before.len() && before[at] == call;
        assert(after[at] == call);
    }
}

/// Toggling the ignored windows twice leaves the state as it was.
pub proof fn ignored_windows_toggle_back(
    manager: ManagerView,
    screen: ScreenView,
    later: ScreenView,
)
    ensures
        ignored_toggled(ignored_toggled(manager, screen).manager, later).manager == manager,
{
    reveal(ignored_toggled);
    if manager.workspace() is Ok {
        let workspace = manager.workspace()->Ok_0;
        window_manager::replaced_workspace(
            manager,
            WorkspaceView {
                ignored_windows_above_managed: !workspace.ignored_windows_above_managed,
                ..workspace
            },
            workspace,
        );
        window_manager::same_workspace(manager);
    }
}

/// Toggling the layer twice leads back to the layer that was up, and no command holds the
/// tiling layer in its place.
pub proof fn layers_toggle_back(
    manager: ManagerView,
    screen: ScreenView,
    later: ScreenView,
    settings: Settings,
)
    requires
        manager.workspace() is Ok,
    ensures
        layer_toggled(layer_toggled(manager, screen, settings).manager, later, settings).manager
            == manager.with_workspace(
            in_layer(
                manager.workspace()->Ok_0,
                manager.workspace()->Ok_0.layer,
                manager.workspace()->Ok_0.layer == WorkspaceLayer::Floating,
            ),
        ),
{
    reveal(layer_toggled);
    let workspace = manager.workspace()->Ok_0;
    window_manager::replaced_workspace(
        manager,
        in_layer(workspace, WorkspaceLayer::Floating, true),
        in_layer(workspace, WorkspaceLayer::Tiling, false),
    );
    window_manager::replaced_workspace(
        manager,
        in_layer(workspace, WorkspaceLayer::Tiling, false),
        in_layer(workspace, WorkspaceLayer::Floating, true),
    );
}

} // verus!
