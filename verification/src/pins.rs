//! Windows that are visible on all workspaces of a monitor.

use vstd::prelude::*;

use crate::apply_worker;
use crate::apply_worker::ApplyWorker;
use crate::apply_worker::Batch;
use crate::container;
use crate::desktop::Desktop;
use crate::desktop::DesktopView;
use crate::error::Error;
use crate::layers;
use crate::monitor;
use crate::monitor::Monitor;
use crate::monitor::MonitorView;
use crate::monitor::STABILIZATION_GRACE_MS;
use crate::plan::Plan;
use crate::plan::StepView;
use crate::settings::Settings;
use crate::window;
use crate::window::Screen;
use crate::window::Window;
use crate::workspace;
use crate::workspace::Workspace;
use crate::workspace::WorkspaceView;
use crate::workspace::WorkspaceLayer;

verus! {

/// A list without the occurrences of a handle.
pub open spec fn without_hwnd(hwnds: Seq<isize>, hwnd: isize) -> Seq<isize> {
    hwnds.filter(|h: isize| h != hwnd)
}

/// Take all occurrences of a handle out of a list.
pub fn drop_hwnd(hwnds: &mut Vec<isize>, hwnd: isize)
    ensures
        final(hwnds)@ == without_hwnd(old(hwnds)@, hwnd),
{
    let ghost all = hwnds@;
    let mut kept: Vec<isize> = Vec::new();
    let mut i: usize = 0;
    proof {
        reveal(Seq::filter);
    }
    while i < hwnds.len()
        invariant
            hwnds@ == all,
            i <= all.len(),
            kept@ == without_hwnd(all.take(i as int), hwnd),
        decreases all.len() - i,
    {
        proof {
            reveal(Seq::filter);
            assert(all.take(i + 1).drop_last() =~= all.take(i as int));
        }
        if hwnds[i] != hwnd {
            kept.push(hwnds[i]);
        }
        i = i + 1;
    }
    assert(all.take(i as int) =~= all);
    *hwnds = kept;
}

/// The windows that are always on top once one of them is toggled. A window that is not
/// pinned is never added.
pub open spec fn toggled(on_top: Seq<isize>, is_pinned: bool, hwnd: isize) -> Seq<isize> {
    if on_top.contains(hwnd) {
        without_hwnd(on_top, hwnd)
    } else if is_pinned {
        on_top.push(hwnd)
    } else {
        on_top
    }
}

impl MonitorView {
    /// The monitor with a window pinned. It leaves the floating windows of every
    /// workspace.
    pub open spec fn pinning(self, hwnd: isize) -> MonitorView {
        MonitorView {
            pinned_floating: if self.pinned_floating.contains(hwnd) {
                self.pinned_floating
            } else {
                self.pinned_floating.push(hwnd)
            },
            workspaces: self.workspaces.with(
                self.workspaces.elements.map_values(
                    |workspace: WorkspaceView| workspace.without_float(hwnd),
                ),
            ),
            ..self
        }
    }

    /// The monitor with a window not pinned any more. The workspaces stay as they are.
    pub open spec fn unpinning(self, hwnd: isize) -> MonitorView {
        MonitorView {
            pinned_floating: without_hwnd(self.pinned_floating, hwnd),
            pinned_always_on_top: without_hwnd(self.pinned_always_on_top, hwnd),
            ..self
        }
    }

    /// What unpinning a window asks of the window system.
    pub open spec fn unpin_steps(self, hwnd: isize, d: DesktopView) -> Seq<StepView> {
        if self.pinned_always_on_top.contains(hwnd) {
            apply_worker::queued(Batch::ClearTopmost, seq![Window { hwnd }], d)
        } else {
            Seq::empty()
        }
    }

    /// The monitor with a pinned window always on top, or not any more.
    pub open spec fn toggling_on_top(self, hwnd: isize) -> MonitorView {
        MonitorView {
            pinned_always_on_top: toggled(
                self.pinned_always_on_top,
                self.pinned_floating.contains(hwnd),
                hwnd,
            ),
            ..self
        }
    }

    /// What toggling asks of the window system.
    pub open spec fn toggle_steps(self, hwnd: isize, d: DesktopView) -> Seq<StepView> {
        if self.pinned_always_on_top.contains(hwnd) {
            apply_worker::queued(Batch::ClearTopmost, seq![Window { hwnd }], d)
        } else if self.pinned_floating.contains(hwnd) {
            apply_worker::queued(Batch::MakeTopmost, seq![Window { hwnd }], d)
        } else {
            Seq::empty()
        }
    }
}

impl Monitor {
    pub(crate) fn raise_managed_window(
        &self,
        window: Window,
        climb: bool,
        desktop: &Desktop,
        plan: &mut Plan,
    )
        ensures
            final(plan)@ == old(plan)@ + monitor::raise_each(climb, seq![window], desktop@),
    {
        let mut windows: Vec<Window> = Vec::new();
        windows.push(window);
        assert(windows@ =~= seq![window]);
        if climb {
            ApplyWorker::raise_above_active(&windows, desktop, plan);
        } else {
            ApplyWorker::raise(&windows, desktop, plan);
        }
        assert(apply_worker::captured_all(seq![window], desktop@) =~= seq![
            apply_worker::captured(window, desktop@),
        ]);
        assert(plan@ =~= old(plan)@ + monitor::raise_each(climb, seq![window], desktop@));
    }

    fn raise_all(&self, windows: &Vec<Window>, climb: bool, desktop: &Desktop, plan: &mut Plan)
        ensures
            final(plan)@ == old(plan)@ + monitor::raise_each(climb, windows@, desktop@),
    {
        let ghost before = plan@;
        let mut i: usize = 0;
        assert(before + monitor::raise_each(climb, windows@.take(0), desktop@) =~= before);
        while i < windows.len()
            invariant
                i <= windows@.len(),
                plan@ == before + monitor::raise_each(climb, windows@.take(i as int), desktop@),
            decreases windows@.len() - i,
        {
            self.raise_managed_window(windows[i], climb, desktop, plan);
            i = i + 1;
            assert(plan@ =~= before + monitor::raise_each(
                climb,
                windows@.take(i as int),
                desktop@,
            ));
        }
        assert(windows@.take(i as int) =~= windows@);
    }

    fn raise_all_reversed(
        &self,
        windows: &Vec<Window>,
        climb: bool,
        desktop: &Desktop,
        plan: &mut Plan,
    )
        ensures
            final(plan)@ == old(plan)@ + monitor::raise_each(climb, windows@.reverse(), desktop@),
    {
        let mut reversed: Vec<Window> = Vec::new();
        let mut i: usize = windows.len();
        while i > 0
            invariant
                i <= windows@.len(),
                reversed@ == windows@.reverse().take(windows@.len() - i),
            decreases i,
        {
            i = i - 1;
            reversed.push(windows[i]);
            assert(reversed@ =~= windows@.reverse().take(windows@.len() - i));
        }
        assert(reversed@ =~= windows@.reverse());
        self.raise_all(&reversed, climb, desktop, plan);
    }

    /// The window that belongs on the very top of the workspace.
    pub(crate) fn top_layer_window(&self, workspace: &Workspace) -> (r: Option<Window>)
        ensures
            r == self@.top_window(workspace@),
    {
        match workspace.layer {
            WorkspaceLayer::Tiling => match workspace.focused_container() {
                Some(container) => match container.focused_window() {
                    Some(window) => Some(*window),
                    None => None,
                },
                None => None,
            },
            WorkspaceLayer::Floating => {
                let pin = match workspace.last_focused_floating_hwnd {
                    Some(hwnd) => if self.is_pinned(hwnd) {
                        Some(Window { hwnd })
                    } else {
                        None
                    },
                    None => None,
                };
                match pin {
                    Some(window) => Some(window),
                    None => match workspace.focused_floating_window() {
                        Some(window) => Some(*window),
                        None => None,
                    },
                }
            },
        }
    }

    /// The pinned windows that are windows of the window system, those that are always on
    /// top apart from the others.
    fn living_pins(&self, desktop: &Desktop) -> (r: (Vec<Window>, Vec<Window>))
        ensures
            r.0@ == self@.not_on_top(layers::living(self@.pins(), desktop@)),
            r.1@ == self@.on_top(layers::living(self@.pins(), desktop@)),
    {
        let all = self.pinned_windows();
        let mut pins: Vec<Window> = Vec::new();
        let mut i: usize = 0;
        proof {
            reveal(Seq::filter);
        }
        while i < all.len()
            invariant
                i <= all@.len(),
                pins@ == layers::living(all@.take(i as int), desktop@),
            decreases all@.len() - i,
        {
            proof {
                reveal(Seq::filter);
                assert(all@.take(i + 1).drop_last() =~= all@.take(i as int));
            }
            if all[i].is_window(desktop) {
                pins.push(all[i]);
            }
            i = i + 1;
        }
        assert(all@.take(i as int) =~= all@);
        self.split_pins(&pins)
    }

    /// Tell the windows that are always on top from the others.
    fn split_pins(&self, windows: &Vec<Window>) -> (r: (Vec<Window>, Vec<Window>))
        ensures
            r.0@ == self@.not_on_top(windows@),
            r.1@ == self@.on_top(windows@),
    {
        let mut normal: Vec<Window> = Vec::new();
        let mut always_on_top: Vec<Window> = Vec::new();
        let mut i: usize = 0;
        proof {
            reveal(Seq::filter);
        }
        while i < windows.len()
            invariant
                i <= windows@.len(),
                normal@ == self@.not_on_top(windows@.take(i as int)),
                always_on_top@ == self@.on_top(windows@.take(i as int)),
            decreases windows@.len() - i,
        {
            proof {
                reveal(Seq::filter);
                assert(windows@.take(i + 1).drop_last() =~= windows@.take(i as int));
            }
            if self.is_pinned_always_on_top(windows[i].hwnd) {
                always_on_top.push(windows[i]);
            } else {
                normal.push(windows[i]);
            }
            i = i + 1;
        }
        assert(windows@.take(i as int) =~= windows@);
        (normal, always_on_top)
    }

    /// Raise the bands of a workspace from the bottom to the top.
    pub(crate) fn assemble_bands(
        &self,
        workspace: &Workspace,
        climb_active: bool,
        climb_tiled: bool,
        desktop: &Desktop,
        plan: &mut Plan,
    )
        ensures
            final(plan)@ == old(plan)@ + self@.band_steps(
                workspace@,
                desktop@,
                climb_active,
                climb_tiled,
            ),
    {
        let (normal_pins, always_on_top_pins) = self.living_pins(desktop);
        let floats = workspace.floating_windows();
        let tiles = workspace::front_windows(&workspace.containers.elements);
        let mut batch: Vec<Window> = Vec::new();
        let mut i: usize = 0;
        while i < normal_pins.len()
            invariant
                i <= normal_pins@.len(),
                batch@ == normal_pins@.take(i as int),
            decreases normal_pins@.len() - i,
        {
            batch.push(normal_pins[i]);
            i = i + 1;
            assert(batch@ =~= normal_pins@.take(i as int));
        }
        assert(normal_pins@.take(i as int) =~= normal_pins@);
        let mut j: usize = 0;
        while j < floats.len()
            invariant
                j <= floats@.len(),
                batch@ == normal_pins@ + floats@.take(j as int),
            decreases floats@.len() - j,
        {
            batch.push(floats[j]);
            j = j + 1;
            assert(batch@ =~= normal_pins@ + floats@.take(j as int));
        }
        assert(floats@.take(j as int) =~= floats@);
        ApplyWorker::clear_topmost(&batch, desktop, plan);
        match workspace.layer {
            WorkspaceLayer::Tiling => {
                self.raise_all(&normal_pins, climb_active, desktop, plan);
                self.raise_all(floats, climb_active, desktop, plan);
                self.raise_all_reversed(&tiles, climb_tiled || climb_active, desktop, plan);
            },
            WorkspaceLayer::Floating => {
                self.raise_all(&tiles, climb_active, desktop, plan);
                self.raise_all(&normal_pins, true, desktop, plan);
                self.raise_all_reversed(floats, true, desktop, plan);
            },
        }
        ApplyWorker::make_topmost(&always_on_top_pins, desktop, plan);
        assert(plan@ =~= old(plan)@ + self@.band_steps(
            workspace@,
            desktop@,
            climb_active,
            climb_tiled,
        ));
    }

    /// Whether an ignored window has the foreground that belongs to a managed one.
    pub(crate) fn should_restore_foreground(&self, desktop: &Desktop) -> (r: bool)
        ensures
            r == (desktop@.foreground matches Some(foreground) && self@.ignored(desktop@).contains(
                Window { hwnd: foreground },
            ) && (window::looks_like_widget(desktop@.at(foreground)) || self@.settling(
                desktop@.now_ms,
            )) && desktop@.cursor_window != Some(foreground)),
    {
        let foreground: isize = match desktop.foreground {
            Some(foreground) => foreground,
            None => {
                return false;
            },
        };
        let ignored = self.ignored_windows(desktop);
        if container::position_in(&ignored, foreground).is_none() {
            proof {
                if ignored@.contains(Window { hwnd: foreground }) {
                    let i = choose|i: int|
                        0 <= i < ignored@.len() && ignored@[i] == Window { hwnd: foreground };
                    assert(ignored@[i].hwnd == foreground);
                }
            }
            return false;
        }
        proof {
            let i = choose|i: int|
                0 <= i < ignored@.len() && (#[trigger] ignored@[i]).hwnd == foreground;
            assert(ignored@[i] == Window { hwnd: foreground });
        }
        let over = match desktop.cursor_window {
            Some(hwnd) => hwnd == foreground,
            None => false,
        };
        Self::should_steal_ignored_window_foreground(
            Window { hwnd: foreground }.is_widget_window(desktop),
            self.within_switch_stabilization(desktop.now_ms),
        ) && !over
    }

    /// Place the pinned windows in the layer to which they belong: on top of the floating
    /// layer, or below the tiling layer.
    pub(crate) fn reposition_pinned_windows(
        &self,
        layer: WorkspaceLayer,
        desktop: &Desktop,
        plan: &mut Plan,
    )
        ensures
            final(plan)@ == old(plan)@ + (match layer {
                WorkspaceLayer::Floating => self@.raise_pins_steps(desktop@),
                WorkspaceLayer::Tiling => self@.lower_pins_steps(desktop@),
            }),
    {
        match layer {
            WorkspaceLayer::Floating => {
                let _ = self.raise_pinned_windows(desktop, plan);
            },
            WorkspaceLayer::Tiling => {
                self.lower_pinned_windows(desktop, plan);
            },
        }
    }

    /// The pinned windows in the order in which they were pinned.
    pub fn pinned_windows(&self) -> (r: Vec<Window>)
        ensures
            r@ == self@.pins(),
    {
        let mut windows: Vec<Window> = Vec::new();
        let mut i: usize = 0;
        while i < self.pinned_floating.len()
            invariant
                i <= self.pinned_floating@.len(),
                windows@ == monitor::as_windows(self.pinned_floating@.take(i as int)),
            decreases self.pinned_floating@.len() - i,
        {
            windows.push(Window { hwnd: self.pinned_floating[i] });
            i = i + 1;
            assert(windows@ =~= monitor::as_windows(self.pinned_floating@.take(i as int)));
        }
        assert(self.pinned_floating@.take(i as int) =~= self.pinned_floating@);
        windows
    }

    /// Whether a window is pinned on this monitor.
    pub fn is_pinned(&self, hwnd: isize) -> (r: bool)
        ensures
            r == self@.pinned_floating.contains(hwnd),
    {
        window::position_of(&self.pinned_floating, hwnd).is_some()
    }

    /// Hide the pinned windows while the focused workspace is empty, and show them again
    /// once it is not. Does nothing unless that is configured.
    pub fn apply_pin_visibility(&self, settings: &Settings, screen: &mut Screen) -> (r: Result<
        (),
        Error,
    >)
        ensures
            r is Ok,
            final(screen)@ == self@.with_pins(old(screen)@, *settings),
    {
        if !settings.hide_pinned_on_empty_workspaces {
            return Ok(());
        }
        let hide_pins = match self.focused_workspace() {
            Some(workspace) => workspace.is_empty(),
            None => false,
        };
        let pins = self.pinned_windows();
        let ghost before = screen@;
        let mut i: usize = 0;
        while i < pins.len()
            invariant
                i <= pins@.len(),
                screen@ == layers::pins_coerced(before, pins@.take(i as int), hide_pins),
            decreases pins@.len() - i,
        {
            let pin = pins[i];
            assert(pins@.take(i + 1).drop_last() =~= pins@.take(i as int));
            if pin.is_window(&screen.desktop) {
                let shown = pin.is_shown(&screen.desktop);
                if hide_pins && shown {
                    pin.hide_window(screen);
                } else if !hide_pins && !shown {
                    pin.restore(screen);
                }
            }
            i = i + 1;
        }
        assert(pins@.take(i as int) =~= pins@);
        Ok(())
    }

    /// Pin a floating window. It leaves the floating windows of every workspace.
    pub fn pin_floating_window(&mut self, hwnd: isize)
        ensures
            final(self)@ == old(self)@.pinning(hwnd),
    {
        if !self.is_pinned(hwnd) {
            self.pinned_floating.push(hwnd);
        }
        let ghost before = self@;
        let mut i: usize = 0;
        while i < self.workspaces.elements.len()
            invariant
                i <= self.workspaces.elements@.len(),
                self@ == (MonitorView { workspaces: self@.workspaces, ..before }),
                self@.workspaces.focused == before.workspaces.focused,
                self@.workspaces.elements.len() == before.workspaces.elements.len(),
                forall|k: int|
                    0 <= k < i ==> #[trigger] self@.workspaces.elements[k]
                        == before.workspaces.elements[k].without_float(hwnd),
                forall|k: int|
                    i <= k < before.workspaces.elements.len()
                        ==> #[trigger] self@.workspaces.elements[k]
                        == before.workspaces.elements[k],
            decreases self.workspaces.elements@.len() - i,
        {
            let ghost workspaces = self@.workspaces.elements;
            container::take_out(
                &mut self.workspaces.elements[i].floating_windows.elements,
                hwnd,
            );
            assert(self@.workspaces.elements =~= workspaces.update(
                i as int,
                workspaces[i as int].without_float(hwnd),
            ));
            i = i + 1;
        }
        assert(self@.workspaces.elements =~= old(self)@.pinning(hwnd).workspaces.elements);
    }

    /// Unpin a floating window. The workspaces stay as they are.
    pub fn unpin_floating_window(&mut self, hwnd: isize, desktop: &Desktop, plan: &mut Plan)
        ensures
            final(self)@ == old(self)@.unpinning(hwnd),
            final(plan)@ == old(plan)@ + old(self)@.unpin_steps(hwnd, desktop@),
    {
        drop_hwnd(&mut self.pinned_floating, hwnd);
        if self.is_pinned_always_on_top(hwnd) {
            drop_hwnd(&mut self.pinned_always_on_top, hwnd);
            let mut windows: Vec<Window> = Vec::new();
            windows.push(Window { hwnd });
            assert(windows@ =~= seq![Window { hwnd }]);
            ApplyWorker::clear_topmost(&windows, desktop, plan);
        } else {
            proof {
                nothing_dropped(self.pinned_always_on_top@, hwnd);
            }
            assert(plan@ + Seq::<StepView>::empty() =~= plan@);
        }
    }

    /// Whether a pinned window is always on top.
    pub fn is_pinned_always_on_top(&self, hwnd: isize) -> (r: bool)
        ensures
            r == self@.pinned_always_on_top.contains(hwnd),
    {
        window::position_of(&self.pinned_always_on_top, hwnd).is_some()
    }

    /// Let a pinned window be always on top, or not any more. A window that is not pinned
    /// stays as it is.
    pub fn toggle_pin_always_on_top(&mut self, hwnd: isize, desktop: &Desktop, plan: &mut Plan)
        ensures
            final(self)@ == old(self)@.toggling_on_top(hwnd),
            final(plan)@ == old(plan)@ + old(self)@.toggle_steps(hwnd, desktop@),
    {
        let mut windows: Vec<Window> = Vec::new();
        windows.push(Window { hwnd });
        assert(windows@ =~= seq![Window { hwnd }]);
        if self.is_pinned_always_on_top(hwnd) {
            drop_hwnd(&mut self.pinned_always_on_top, hwnd);
            ApplyWorker::clear_topmost(&windows, desktop, plan);
        } else if self.is_pinned(hwnd) {
            self.pinned_always_on_top.push(hwnd);
            ApplyWorker::make_topmost(&windows, desktop, plan);
        } else {
            assert(plan@ + Seq::<StepView>::empty() =~= plan@);
        }
    }

    /// Raise the pinned windows that are on the screen, above the active window, and put
    /// those that are always on top into the topmost band. Tells which windows these are.
    pub fn raise_pinned_windows(&self, desktop: &Desktop, plan: &mut Plan) -> (r: Vec<Window>)
        ensures
            r@ == layers::rendered(self@.pins(), desktop@),
            final(plan)@ == old(plan)@ + self@.raise_pins_steps(desktop@),
    {
        let windows = self.rendered_pins(desktop);
        let (normal, always_on_top) = self.split_pins(&windows);
        ApplyWorker::raise_above_active(&normal, desktop, plan);
        ApplyWorker::make_topmost(&always_on_top, desktop, plan);
        assert(plan@ =~= old(plan)@ + self@.raise_pins_steps(desktop@));
        windows
    }

    /// Lower the pinned windows that are on the screen. Those that are always on top stay
    /// in the topmost band.
    pub fn lower_pinned_windows(&self, desktop: &Desktop, plan: &mut Plan)
        ensures
            final(plan)@ == old(plan)@ + self@.lower_pins_steps(desktop@),
    {
        let (normal, always_on_top) = self.pinned_window_bands(desktop);
        ApplyWorker::lower(&normal, desktop, plan);
        ApplyWorker::make_topmost(&always_on_top, desktop, plan);
        assert(plan@ =~= old(plan)@ + self@.lower_pins_steps(desktop@));
    }

    fn rendered_pins(&self, desktop: &Desktop) -> (r: Vec<Window>)
        ensures
            r@ == layers::rendered(self@.pins(), desktop@),
    {
        let all = self.pinned_windows();
        let mut pins: Vec<Window> = Vec::new();
        let mut i: usize = 0;
        proof {
            reveal(Seq::filter);
        }
        while i < all.len()
            invariant
                i <= all@.len(),
                pins@ == layers::rendered(all@.take(i as int), desktop@),
            decreases all@.len() - i,
        {
            proof {
                reveal(Seq::filter);
                assert(all@.take(i + 1).drop_last() =~= all@.take(i as int));
            }
            if all[i].is_window(desktop) && all[i].is_shown(desktop) {
                pins.push(all[i]);
            }
            i = i + 1;
        }
        assert(all@.take(i as int) =~= all@);
        pins
    }

    /// The pinned windows that are on the screen: the normal ones, and those that are
    /// always on top.
    pub fn pinned_window_bands(&self, desktop: &Desktop) -> (r: (Vec<Window>, Vec<Window>))
        ensures
            r.0@ == self@.not_on_top(layers::rendered(self@.pins(), desktop@)),
            r.1@ == self@.on_top(layers::rendered(self@.pins(), desktop@)),
    {
        let windows = self.rendered_pins(desktop);
        self.split_pins(&windows)
    }

    /// The unmanaged windows on this monitor that look like application windows, cover
    /// the screen, or are desktop widgets.
    pub fn ignored_windows(&self, desktop: &Desktop) -> (r: Vec<Window>)
        ensures
            r@ == self@.ignored(desktop@),
    {
        let mut windows: Vec<Window> = Vec::new();
        match &desktop.unmanaged {
            Some(hwnds) => {
                let ghost ignores = |hwnd: isize| self@.ignores(hwnd, desktop@);
                let mut i: usize = 0;
                proof {
                    reveal(Seq::filter);
                    assert(windows@ =~= monitor::as_windows(hwnds@.take(0).filter(ignores)));
                }
                while i < hwnds.len()
                    invariant
                        i <= hwnds@.len(),
                        ignores == (|hwnd: isize| self@.ignores(hwnd, desktop@)),
                        windows@ == monitor::as_windows(hwnds@.take(i as int).filter(ignores)),
                    decreases hwnds@.len() - i,
                {
                    proof {
                        reveal(Seq::filter);
                        assert(hwnds@.take(i + 1).drop_last() =~= hwnds@.take(i as int));
                    }
                    let window = Window { hwnd: hwnds[i] };
                    if self.is_ignored(window, desktop) {
                        windows.push(window);
                    }
                    i = i + 1;
                    assert(windows@ =~= monitor::as_windows(
                        hwnds@.take(i as int).filter(ignores),
                    ));
                }
                assert(hwnds@.take(i as int) =~= hwnds@);
            },
            None => {
                assert(windows@ =~= Seq::<Window>::empty());
            },
        }
        windows
    }

    fn is_ignored(&self, window: Window, desktop: &Desktop) -> (r: bool)
        ensures
            r == self@.ignores(window.hwnd, desktop@),
    {
        let on_monitor = match desktop.facts(window.hwnd) {
            Some(facts) => facts.monitor == self.id,
            None => self.id == 0,
        };
        if !on_monitor {
            return false;
        }
        let is_normal = window.is_normal_application_window(desktop);
        let is_widget = !is_normal && window.is_widget_window(desktop);
        let is_fullscreen = !is_normal && !is_widget && (window.is_fullscreen(desktop)
            || window.covers_monitor_or_work_area(desktop));
        Self::is_ignored_window_candidate(
            self.any_workspace_contains(window.hwnd),
            is_normal,
            is_fullscreen,
            is_widget,
        )
    }

    /// Whether a window belongs to the layer of ignored windows. A window that is managed
    /// never does, whatever it looks like at the moment.
    pub fn is_ignored_window_candidate(
        is_managed: bool,
        is_normal: bool,
        is_fullscreen: bool,
        is_widget: bool,
    ) -> (r: bool)
        ensures
            r == monitor::ignored_candidate(is_managed, is_normal, is_fullscreen, is_widget),
    {
        !is_managed && (is_normal || is_fullscreen || is_widget)
    }

    /// Whether an ignored window is moved when the layer of ignored windows is toggled.
    pub fn should_auto_demote(window: &Window, desktop: &Desktop) -> (r: bool)
        ensures
            r == monitor::demotable(window.hwnd, desktop@),
    {
        Self::should_auto_demote_predicate(
            window.is_widget_window(desktop),
            window.is_always_on_top(desktop),
        )
    }

    pub fn should_auto_demote_predicate(is_widget: bool, is_always_on_top: bool) -> (r: bool)
        ensures
            r == !(is_widget && is_always_on_top),
    {
        !(is_widget && is_always_on_top)
    }

    /// Whether the events that follow a switch are still settling.
    pub fn within_switch_stabilization(&self, now_ms: u64) -> (r: bool)
        ensures
            r == self@.settling(now_ms),
    {
        match self.last_switch_at {
            Some(last_switch_at) => now_ms.saturating_sub(last_switch_at)
                < STABILIZATION_GRACE_MS,
            None => false,
        }
    }

    /// Whether the foreground of an ignored window goes back to a managed one: that of a
    /// widget always, any other while a switch is settling.
    pub fn should_steal_ignored_window_foreground(
        is_widget: bool,
        within_switch_stabilization: bool,
    ) -> (r: bool)
        ensures
            r == (is_widget || within_switch_stabilization),
    {
        is_widget || within_switch_stabilization
    }
}

/// A list without a handle has the other handles, and no more duplicates than before.
pub proof fn dropped(hwnds: Seq<isize>, hwnd: isize)
    ensures
        forall|h: isize| #[trigger]
            without_hwnd(hwnds, hwnd).contains(h) == (hwnds.contains(h) && h != hwnd),
        hwnds.no_duplicates() ==> without_hwnd(hwnds, hwnd).no_duplicates(),
    decreases hwnds.len(),
{
    reveal(Seq::filter);
    if hwnds.len() > 0 {
        let before = hwnds.drop_last();
        dropped(before, hwnd);
        let kept = without_hwnd(before, hwnd);
        assert forall|h: isize| #[trigger]
            without_hwnd(hwnds, hwnd).contains(h) == (hwnds.contains(h) && h != hwnd) by {
            added(before, hwnds.last(), h);
            assert(hwnds =~= before.push(hwnds.last()));
            added(kept, hwnds.last(), h);
        }
        if hwnds.no_duplicates() && hwnds.last() != hwnd {
            assert(before.no_duplicates());
            assert(!kept.contains(hwnds.last())) by {
                if before.contains(hwnds.last()) {
                    let i = choose|i: int| 0 <= i < before.len() && before[i] == hwnds.last();
                    assert(hwnds[i] == hwnds[hwnds.len() - 1]);
                }
            }
        }
    }
}

/// Pinning, unpinning and toggling keep the pinned windows in order: none is pinned
/// twice, and only pinned windows are always on top.
pub proof fn pins_stay_in_order(monitor: MonitorView, hwnd: isize)
    requires
        monitor.pins_wf(),
    ensures
        monitor.pinning(hwnd).pins_wf(),
        monitor.unpinning(hwnd).pins_wf(),
        monitor.toggling_on_top(hwnd).pins_wf(),
{
    let pins = monitor.pinned_floating;
    let on_top = monitor.pinned_always_on_top;
    dropped(pins, hwnd);
    dropped(on_top, hwnd);
    assert forall|h: isize| on_top.contains(h) implies pins.contains(h) by {
        let i = choose|i: int| 0 <= i < on_top.len() && on_top[i] == h;
        assert(pins.contains(on_top[i]));
    }
    let pinned = monitor.pinning(hwnd);
    assert forall|i: int| 0 <= i < on_top.len() implies pinned.pinned_floating.contains(
        #[trigger] on_top[i],
    ) by {
        assert(on_top.contains(on_top[i]));
        added(pins, hwnd, on_top[i]);
    }
    let left = without_hwnd(on_top, hwnd);
    assert forall|i: int| 0 <= i < left.len() implies without_hwnd(pins, hwnd).contains(
        #[trigger] left[i],
    ) && pins.contains(left[i]) by {
        assert(left.contains(left[i]));
    }
    let toggled = toggled(on_top, pins.contains(hwnd), hwnd);
    assert forall|i: int| 0 <= i < toggled.len() implies pins.contains(#[trigger] toggled[i]) by {
        assert(toggled.contains(toggled[i]));
        if !on_top.contains(hwnd) {
            added(on_top, hwnd, toggled[i]);
        }
    }
}

/// A pinned window floats on no workspace of its monitor, and an unpinned one is neither
/// pinned nor always on top.
pub proof fn pinned_windows_belong_to_the_monitor(monitor: MonitorView, hwnd: isize, idx: int)
    requires
        0 <= idx < monitor.workspaces.elements.len(),
    ensures
        monitor.pinning(hwnd).pinned_floating.contains(hwnd),
        !monitor.pinning(hwnd).workspaces.elements[idx].floats(hwnd),
        !monitor.unpinning(hwnd).pinned_floating.contains(hwnd),
        !monitor.unpinning(hwnd).pinned_always_on_top.contains(hwnd),
{
    added(monitor.pinned_floating, hwnd, hwnd);
    dropped(monitor.pinned_floating, hwnd);
    dropped(monitor.pinned_always_on_top, hwnd);
    container::taken_out(
        monitor.workspaces.elements[idx].floating_windows.elements,
        hwnd,
        hwnd,
    );
}

/// Toggling a pinned window twice leaves the same windows always on top.
pub proof fn toggling_twice(on_top: Seq<isize>, hwnd: isize)
    ensures
        forall|h: isize| #[trigger]
            toggled(toggled(on_top, true, hwnd), true, hwnd).contains(h) == on_top.contains(h),
        !on_top.contains(hwnd) ==> toggled(toggled(on_top, true, hwnd), true, hwnd) == on_top,
{
    let once = toggled(on_top, true, hwnd);
    dropped(on_top, hwnd);
    if on_top.contains(hwnd) {
        assert forall|h: isize| #[trigger] toggled(once, true, hwnd).contains(h)
            == on_top.contains(h) by {
            added(once, hwnd, h);
        }
    } else {
        added(on_top, hwnd, hwnd);
        reveal(Seq::filter);
        assert(once.drop_last() =~= on_top);
        nothing_dropped(on_top, hwnd);
    }
}

/// A window that is not pinned never becomes always on top.
pub proof fn only_pinned_windows_come_on_top(on_top: Seq<isize>, hwnd: isize)
    ensures
        !toggled(on_top, false, hwnd).contains(hwnd),
{
    dropped(on_top, hwnd);
}

/// A list with a handle added has the handles of the list and that one.
pub proof fn added(hwnds: Seq<isize>, hwnd: isize, h: isize)
    ensures
        hwnds.push(hwnd).contains(h) == (hwnds.contains(h) || h == hwnd),
{
    let all = hwnds.push(hwnd);
    if hwnds.contains(h) {
        let i = choose|i: int| 0 <= i < hwnds.len() && hwnds[i] == h;
        assert(all[i] == h);
    }
    if h == hwnd {
        assert(all[hwnds.len() as int] == h);
    }
    if all.contains(h) && h != hwnd {
        let i = choose|i: int| 0 <= i < all.len() && all[i] == h;
        assert(hwnds[i] == h);
    }
}

/// Taking out a handle that is not there changes nothing.
proof fn nothing_dropped(hwnds: Seq<isize>, hwnd: isize)
    requires
        !hwnds.contains(hwnd),
    ensures
        without_hwnd(hwnds, hwnd) == hwnds,
    decreases hwnds.len(),
{
    reveal(Seq::filter);
    if hwnds.len() > 0 {
        let before = hwnds.drop_last();
        assert forall|i: int| 0 <= i < before.len() implies before[i] != hwnd by {
            assert(hwnds[i] == before[i]);
            if hwnds[i] == hwnd {
                assert(hwnds.contains(hwnd));
            }
        }
        nothing_dropped(before, hwnd);
        assert(hwnds[hwnds.len() - 1] != hwnd);
        assert(before.push(hwnds.last()) =~= hwnds);
    }
}

/// Pinning, unpinning and toggling are about one window: it is pinned then, or not any more, or
/// has changed between always on top and not, and all other windows are as they were.
pub proof fn pinning_is_about_one_window(monitor: MonitorView, hwnd: isize, other: isize)
    requires
        other != hwnd,
    ensures
        monitor.pinning(hwnd).pinned_floating.contains(hwnd),
        monitor.pinning(hwnd).pinned_floating.contains(other) == monitor.pinned_floating.contains(
            other,
        ),
        monitor.pinning(hwnd).pinned_always_on_top == monitor.pinned_always_on_top,
        monitor.unpinning(hwnd).pinned_floating.contains(other)
            == monitor.pinned_floating.contains(other),
        monitor.unpinning(hwnd).pinned_always_on_top.contains(other)
            == monitor.pinned_always_on_top.contains(other),
        monitor.unpinning(hwnd).workspaces == monitor.workspaces,
        monitor.pinned_floating.contains(hwnd) ==> monitor.toggling_on_top(
            hwnd,
        ).pinned_always_on_top.contains(hwnd) == !monitor.pinned_always_on_top.contains(hwnd),
        monitor.toggling_on_top(hwnd).pinned_always_on_top.contains(other)
            == monitor.pinned_always_on_top.contains(other),
        monitor.toggling_on_top(hwnd).pinned_floating == monitor.pinned_floating,
{
    dropped(monitor.pinned_floating, hwnd);
    dropped(monitor.pinned_always_on_top, hwnd);
    added(monitor.pinned_floating, hwnd, hwnd);
    added(monitor.pinned_floating, hwnd, other);
    added(monitor.pinned_always_on_top, hwnd, hwnd);
    added(monitor.pinned_always_on_top, hwnd, other);
}

/// Pinning a window takes it out of the floating windows of every workspace, and nothing else:
/// the other floating windows and all containers stay.
pub proof fn pinning_leaves_other_windows(monitor: MonitorView, hwnd: isize, idx: int)
    requires
        0 <= idx < monitor.workspaces.elements.len(),
    ensures
        ({
            let before = monitor.workspaces.elements[idx];
            let after = monitor.pinning(hwnd).workspaces.elements[idx];
            &&& !after.floats(hwnd)
            &&& after.containers == before.containers
            &&& after.monocle_container == before.monocle_container
            &&& after.layer == before.layer
            &&& monitor.pinning(hwnd).workspaces.focused == monitor.workspaces.focused
        }),
{
    pinned_windows_belong_to_the_monitor(monitor, hwnd, idx);
}

} // verus!
