//! How the windows of a monitor are stacked, and when its pinned windows are shown.

use vstd::prelude::*;

use crate::apply_worker;
use crate::apply_worker::ApplyOpView;
use crate::apply_worker::Batch;
use crate::container;
use crate::desktop::DesktopView;
use crate::error::Error;
use crate::monitor;
use crate::monitor::Monitor;
use crate::monitor::MonitorView;
use crate::monitor::STABILIZATION_GRACE_MS;
use crate::plan::Call;
use crate::plan::Resume;
use crate::plan::Step;
use crate::plan::StepView;
use crate::settings::Settings;
use crate::wallpaper_worker::Wallpaper;
use crate::window;
use crate::window::Screen;
use crate::window::ScreenView;
use crate::window::Window;
use crate::workspace;
use crate::workspace::WorkspaceView;
use crate::workspace::WorkspaceLayer;

verus! {

/// One pinned window shown or hidden as it should be. A handle that is no window is left
/// alone, and so is a window that is as it should be.
pub open spec fn pin_coerced(screen: ScreenView, pin: Window, hide_pins: bool) -> ScreenView {
    let facts = screen.desktop.at(pin.hwnd);
    if !facts.is_window {
        screen
    } else if hide_pins && facts.is_shown {
        screen.hiding_window(pin)
    } else if !hide_pins && !facts.is_shown {
        screen.showing(pin)
    } else {
        screen
    }
}

/// Pinned windows shown or hidden as they should be, in order.
pub open spec fn pins_coerced(
    screen: ScreenView,
    pins: Seq<Window>,
    hide_pins: bool,
) -> ScreenView
    decreases pins.len(),
{
    if pins.len() == 0 {
        screen
    } else {
        pin_coerced(pins_coerced(screen, pins.drop_last(), hide_pins), pins.last(), hide_pins)
    }
}

/// The windows of a list that are windows of the window system.
pub open spec fn living(windows: Seq<Window>, d: DesktopView) -> Seq<Window> {
    windows.filter(|window: Window| d.at(window.hwnd).is_window)
}

/// The windows of a list that are on the screen.
pub open spec fn rendered(windows: Seq<Window>, d: DesktopView) -> Seq<Window> {
    windows.filter(|window: Window| d.at(window.hwnd).is_window && d.at(window.hwnd).is_shown)
}

impl MonitorView {
    /// The pinned windows in the order in which they were pinned.
    pub open spec fn pins(self) -> Seq<Window> {
        monitor::as_windows(self.pinned_floating)
    }

    /// The windows of a list that are always on top.
    pub open spec fn on_top(self, windows: Seq<Window>) -> Seq<Window> {
        windows.filter(|window: Window| self.pinned_always_on_top.contains(window.hwnd))
    }

    /// The windows of a list that are not always on top.
    pub open spec fn not_on_top(self, windows: Seq<Window>) -> Seq<Window> {
        windows.filter(|window: Window| !self.pinned_always_on_top.contains(window.hwnd))
    }

    /// Whether the pinned windows are hidden: only where that is configured, and while
    /// the focused workspace is empty.
    pub open spec fn hides_pins(self) -> bool {
        self.workspaces.focused_element() matches Some(workspace) && workspace.empty()
    }

    /// The screen once the pinned windows are shown or hidden as they should be.
    pub open spec fn with_pins(self, screen: ScreenView, settings: Settings) -> ScreenView {
        if settings.hide_pinned_on_empty_workspaces {
            pins_coerced(screen, self.pins(), self.hides_pins())
        } else {
            screen
        }
    }

    /// Ask again whether the pinned windows are shown or hidden as they should be, where
    /// that is configured.
    pub open spec fn settling_pins(self, screen: ScreenView, settings: Settings) -> ScreenView {
        if settings.hide_pinned_on_empty_workspaces {
            screen.taking(StepView::Continue(Resume::SettlePins(self.id)))
        } else {
            screen
        }
    }

    /// Raise the pinned windows that are on the screen, those that are always on top
    /// last.
    pub open spec fn raise_pins_steps(self, d: DesktopView) -> Seq<StepView> {
        let windows = rendered(self.pins(), d);
        apply_worker::queued(Batch::RaiseAboveActive, self.not_on_top(windows), d)
            + apply_worker::queued(Batch::MakeTopmost, self.on_top(windows), d)
    }

    /// Lower the pinned windows that are on the screen, except those that are always on
    /// top.
    pub open spec fn lower_pins_steps(self, d: DesktopView) -> Seq<StepView> {
        let windows = rendered(self.pins(), d);
        apply_worker::queued(Batch::Lower, self.not_on_top(windows), d) + apply_worker::queued(
            Batch::MakeTopmost,
            self.on_top(windows),
            d,
        )
    }

    /// Whether a window belongs to the layer of ignored windows of this monitor.
    pub open spec fn ignores(self, hwnd: isize, d: DesktopView) -> bool {
        let facts = d.at(hwnd);
        let is_normal = window::looks_normal(facts);
        let is_widget = !is_normal && window::looks_like_widget(facts);
        let is_fullscreen = !is_normal && !is_widget && (window::covers_monitor(facts)
            || window::covers_monitor_or_work(facts));
        &&& facts.monitor == self.id
        &&& monitor::ignored_candidate(
            monitor::any_has(self.workspaces.elements, hwnd),
            is_normal,
            is_fullscreen,
            is_widget,
        )
    }

    /// The ignored windows of this monitor, from the top to the bottom.
    pub open spec fn ignored(self, d: DesktopView) -> Seq<Window> {
        match d.unmanaged {
            Some(hwnds) => monitor::as_windows(hwnds.filter(|hwnd: isize| self.ignores(hwnd, d))),
            None => Seq::empty(),
        }
    }

    /// Whether the events that follow a switch are still settling.
    pub open spec fn settling(self, now_ms: u64) -> bool {
        self.last_switch_at matches Some(last_switch_at) && now_ms - last_switch_at
            < STABILIZATION_GRACE_MS
    }

    /// The window that belongs on the very top of a workspace: the focused window of the
    /// layer that is on top. In the floating layer that is the pinned window that was
    /// used last, where one was.
    pub open spec fn top_window(self, workspace: WorkspaceView) -> Option<Window> {
        match workspace.layer {
            WorkspaceLayer::Tiling => match workspace.containers.focused_element() {
                Some(container) => container.front(),
                None => None,
            },
            WorkspaceLayer::Floating => match workspace.last_focused_floating_hwnd {
                Some(hwnd) => if self.pinned_floating.contains(hwnd) {
                    Some(Window { hwnd })
                } else {
                    workspace.floating_windows.focused_element()
                },
                None => workspace.floating_windows.focused_element(),
            },
        }
    }

    /// The bands of a workspace from the bottom to the top: the layer below, the layer
    /// above, and the pinned windows that are always on top. The other pinned windows are
    /// at the bottom of the floating layer. Windows that would be stuck in the topmost
    /// band are taken out of it first.
    pub open spec fn band_steps(
        self,
        workspace: WorkspaceView,
        d: DesktopView,
        climb_active: bool,
        climb_tiled: bool,
    ) -> Seq<StepView> {
        let pins = living(self.pins(), d);
        let floats = workspace.floating_windows.elements;
        let tiles = workspace::fronts(workspace.containers.elements);
        let cleared = apply_worker::queued(
            Batch::ClearTopmost,
            self.not_on_top(pins) + floats,
            d,
        );
        let bands = match workspace.layer {
            WorkspaceLayer::Tiling => monitor::raise_each(climb_active, self.not_on_top(pins), d)
                + monitor::raise_each(climb_active, floats, d) + monitor::raise_each(
                climb_tiled || climb_active,
                tiles.reverse(),
                d,
            ),
            WorkspaceLayer::Floating => monitor::raise_each(climb_active, tiles, d)
                + monitor::raise_each(true, self.not_on_top(pins), d) + monitor::raise_each(
                true,
                floats.reverse(),
                d,
            ),
        };
        cleared + bands + apply_worker::queued(Batch::MakeTopmost, self.on_top(pins), d)
    }

    /// Raise the top window above its layer.
    pub open spec fn top_steps(
        self,
        workspace: WorkspaceView,
        d: DesktopView,
        climb_active: bool,
        climb_tiled: bool,
    ) -> Seq<StepView> {
        monitor::raise_each(
            climb_active || (climb_tiled && workspace.layer == WorkspaceLayer::Tiling),
            workspace::one(self.top_window(workspace)),
            d,
        )
    }

    /// Give the focus back to the top window where an ignored window has the foreground:
    /// a widget always, any other one while a switch is settling, and none while the
    /// cursor is over it.
    pub open spec fn steal_steps(self, workspace: WorkspaceView, d: DesktopView) -> Seq<StepView> {
        match (d.foreground, self.top_window(workspace)) {
            (Some(foreground), Some(top)) => if self.ignored(d).contains(
                Window { hwnd: foreground },
            ) && (window::looks_like_widget(d.at(foreground)) || self.settling(d.now_ms))
                && d.cursor_window != Some(foreground) {
                seq![StepView::Try(Call::RaiseAndFocusWindow(top.hwnd), None)]
            } else {
                Seq::empty()
            },
            _ => Seq::empty(),
        }
    }

    /// The screen once the layers of the focused workspace are stacked. What is raised or
    /// focused may show a pinned window that was hidden, so that the pinned windows are
    /// looked at again in the end.
    ///
    /// Nothing is restacked while the ignored windows are above the managed ones by a
    /// command. Monocle and maximized windows stack themselves, so that only the pinned
    /// windows are placed around them, and an empty workspace has nothing but pinned
    /// windows.
    pub open spec fn stacked(
        self,
        screen: ScreenView,
        climb_active: bool,
        climb_tiled: bool,
        settings: Settings,
    ) -> ScreenView {
        match self.workspaces.focused_element() {
            None => screen,
            Some(workspace) => {
                let screen = self.with_pins(screen, settings);
                let steps = stack_steps(
                    self,
                    workspace,
                    screen.desktop,
                    climb_active,
                    climb_tiled,
                );
                self.settling_pins(screen.followed_by(steps), settings)
            },
        }
    }

    /// The monitor once it has switched its workspace.
    pub open spec fn switched(self, now_ms: u64) -> MonitorView {
        MonitorView { last_switch_at: Some(now_ms), ..self }
    }

    /// Show the focused workspace and hide the others, and ask again how to stack its
    /// layers.
    pub open spec fn load_steps(self, mouse_follows_focus: bool, trigger_focus: bool) -> Seq<
        StepView,
    > {
        switch_steps(
            self.id,
            self.workspaces.elements.len() as int,
            self.workspaces.focused as int,
            mouse_follows_focus,
            trigger_focus,
            self.wallpaper,
        ).push(StepView::Continue(Resume::RestackAfterSwitch(self.id)))
    }

    /// The screen once the focused workspace is laid out anew, and the pinned windows are
    /// looked at again.
    pub open spec fn updated_screen(self, screen: ScreenView, settings: Settings) -> ScreenView {
        self.settling_pins(
            screen.followed_by(
                seq![
                    StepView::Do(
                        Call::UpdateWorkspace {
                            monitor: self.id,
                            workspace: self.workspaces.focused,
                        },
                    ),
                ],
            ),
            settings,
        )
    }
}

impl Monitor {
    /// Show the focused workspace and hide the others, then stack its layers.
    ///
    /// The stacking waits until the workspace is shown, because hiding windows promotes
    /// others to the foreground.
    pub fn load_focused_workspace(
        &mut self,
        mouse_follows_focus: bool,
        trigger_focus: bool,
        screen: &mut Screen,
    )
        ensures
            final(self)@ == old(self)@.switched(old(screen)@.desktop.now_ms),
            final(screen)@ == old(screen)@.followed_by(
                old(self)@.load_steps(mouse_follows_focus, trigger_focus),
            ),
    {
        self.last_switch_at = Some(screen.desktop.now_ms);
        let focused_idx: usize = self.focused_workspace_idx();
        let hmonitor: isize = self.id;
        let len: usize = self.workspaces.elements.len();
        let ghost before = screen@;
        let mut i: usize = 0;
        assert(before.steps + switch_steps(
            hmonitor,
            0,
            focused_idx as int,
            mouse_follows_focus,
            trigger_focus,
            self.wallpaper,
        ) =~= before.steps);
        while i < len
            invariant
                i <= len,
                hmonitor == self.id,
                screen@ == before.followed_by(
                    switch_steps(
                        hmonitor,
                        i as int,
                        focused_idx as int,
                        mouse_follows_focus,
                        trigger_focus,
                        self.wallpaper,
                    ),
                ),
            decreases len - i,
        {
            if i == focused_idx {
                screen.plan.call(
                    Call::RestoreWorkspace {
                        monitor: hmonitor,
                        workspace: i,
                        mouse_follows_focus,
                        trigger_focus,
                        monitor_wallpaper: match &self.wallpaper {
                            Some(wallpaper) => Some(wallpaper.clone()),
                            None => None,
                        },
                    },
                );
            } else {
                screen.plan.call(Call::HideWorkspace { monitor: hmonitor, workspace: i });
            }
            i = i + 1;
            assert(screen@.steps =~= before.steps + switch_steps(
                hmonitor,
                i as int,
                focused_idx as int,
                mouse_follows_focus,
                trigger_focus,
                self.wallpaper,
            ));
        }
        screen.plan.push(Step::Continue(Resume::RestackAfterSwitch(hmonitor)));
        assert(screen@.steps =~= before.steps + switch_steps(
            hmonitor,
            len as int,
            focused_idx as int,
            mouse_follows_focus,
            trigger_focus,
            self.wallpaper,
        ).push(StepView::Continue(Resume::RestackAfterSwitch(hmonitor))));
    }

    /// Stack the layers after a switch. The bands climb over a foreground that does not
    /// belong to the monitor, and the tiles climb over any foreground.
    pub fn restack_after_switch(&self, settings: &Settings, screen: &mut Screen) -> (r: Result<
        (),
        Error,
    >)
        ensures
            r is Ok,
            ({
                let climb_active = !(old(screen)@.desktop.foreground matches Some(foreground)
                    && monitor::any_has(self@.workspaces.elements, foreground));
                final(screen)@ == self@.stacked(old(screen)@, climb_active, true, *settings)
            }),
    {
        let climb_active = match screen.desktop.foreground {
            Some(foreground) => !self.any_workspace_contains(foreground),
            None => true,
        };
        self.enforce_layer_stack_inner(climb_active, true, settings, screen)
    }

    /// Stack the layers of the focused workspace:
    ///
    /// ```text
    /// bottom -> top: base layer < top layer < focused window
    /// ```
    ///
    /// In the tiling layer the floating windows are the base, in the floating layer the
    /// tiled ones. Ignored windows are not moved.
    pub fn enforce_layer_stack(&self, settings: &Settings, screen: &mut Screen) -> (r: Result<
        (),
        Error,
    >)
        ensures
            r is Ok,
            final(screen)@ == self@.stacked(old(screen)@, false, false, *settings),
    {
        self.enforce_layer_stack_inner(false, false, settings, screen)
    }

    pub(crate) fn any_workspace_contains(&self, hwnd: isize) -> (r: bool)
        ensures
            r == monitor::any_has(self@.workspaces.elements, hwnd),
    {
        let mut i: usize = 0;
        while i < self.workspaces.elements.len()
            invariant
                i <= self.workspaces.elements@.len(),
                forall|k: int|
                    0 <= k < i ==> !(#[trigger] self@.workspaces.elements[k]).has(hwnd),
            decreases self.workspaces.elements@.len() - i,
        {
            if self.workspaces.elements[i].contains_window(hwnd) {
                assert(self@.workspaces.elements[i as int].has(hwnd));
                return true;
            }
            i = i + 1;
        }
        false
    }

    fn enforce_layer_stack_inner(
        &self,
        climb_active: bool,
        climb_tiled: bool,
        settings: &Settings,
        screen: &mut Screen,
    ) -> (r: Result<(), Error>)
        ensures
            r is Ok,
            final(screen)@ == self@.stacked(old(screen)@, climb_active, climb_tiled, *settings),
    {
        let workspace = match self.focused_workspace() {
            Some(workspace) => workspace,
            None => {
                return Ok(());
            },
        };
        let _ = self.apply_pin_visibility(settings, screen);
        let ghost shown = screen@;
        if workspace.ignored_windows_above_managed {
            assert(shown.followed_by(Seq::empty()).steps =~= shown.steps);
        } else if workspace.monocle_container.is_some() || workspace.maximized_window.is_some() {
            self.reposition_pinned_windows(workspace.layer, &screen.desktop, &mut screen.plan);
        } else if workspace.is_empty() {
            let _ = self.raise_pinned_windows(&screen.desktop, &mut screen.plan);
        } else {
            let focused_window = self.top_layer_window(workspace);
            self.assemble_bands(
                workspace,
                climb_active,
                climb_tiled,
                &screen.desktop,
                &mut screen.plan,
            );
            let ghost assembled = screen@;
            match focused_window {
                Some(window) => {
                    self.raise_managed_window(
                        window,
                        climb_active || (climb_tiled && workspace.layer == WorkspaceLayer::Tiling),
                        &screen.desktop,
                        &mut screen.plan,
                    );
                },
                None => {},
            }
            assert(screen@.steps =~= assembled.steps + self@.top_steps(
                workspace@,
                shown.desktop,
                climb_active,
                climb_tiled,
            ));
            let ghost topped = screen@;
            match focused_window {
                Some(window) => {
                    if self.should_restore_foreground(&screen.desktop) {
                        screen.plan.push(
                            Step::Try(Call::RaiseAndFocusWindow(window.hwnd), None),
                        );
                    }
                },
                None => {},
            }
            assert(screen@.steps =~= topped.steps + self@.steal_steps(workspace@, shown.desktop));
            assert(screen@.steps =~= shown.steps + (self@.band_steps(
                workspace@,
                shown.desktop,
                climb_active,
                climb_tiled,
            ) + self@.top_steps(workspace@, shown.desktop, climb_active, climb_tiled)
                + self@.steal_steps(workspace@, shown.desktop)));
        }
        self.ask_for_pins(settings, screen);
        Ok(())
    }

    /// Ask again whether the pinned windows are shown or hidden as they should be, where
    /// that is configured.
    pub(crate) fn ask_for_pins(&self, settings: &Settings, screen: &mut Screen)
        ensures
            final(screen)@ == self@.settling_pins(old(screen)@, *settings),
    {
        if settings.hide_pinned_on_empty_workspaces {
            screen.plan.ask(Resume::SettlePins(self.id));
        }
    }
}

/// Whether a pin is as it should be.
spec fn settled(d: DesktopView, pin: Window, hide_pins: bool) -> bool {
    d.at(pin.hwnd).is_window ==> d.at(pin.hwnd).is_shown == !hide_pins
}

proof fn coercing_settles(screen: ScreenView, pins: Seq<Window>, hide_pins: bool)
    ensures
        forall|i: int|
            0 <= i < pins.len() ==> settled(
                pins_coerced(screen, pins, hide_pins).desktop,
                #[trigger] pins[i],
                hide_pins,
            ),
    decreases pins.len(),
{
    if pins.len() > 0 {
        coercing_settles(screen, pins.drop_last(), hide_pins);
        let before = pins_coerced(screen, pins.drop_last(), hide_pins);
        let after = pins_coerced(screen, pins, hide_pins);
        assert forall|i: int| 0 <= i < pins.len() implies settled(
            after.desktop,
            #[trigger] pins[i],
            hide_pins,
        ) by {
            if i < pins.len() - 1 {
                assert(settled(before.desktop, pins.drop_last()[i], hide_pins));
            }
        }
    }
}

proof fn settled_stays(screen: ScreenView, pins: Seq<Window>, hide_pins: bool)
    requires
        forall|i: int|
            0 <= i < pins.len() ==> settled(screen.desktop, #[trigger] pins[i], hide_pins),
    ensures
        pins_coerced(screen, pins, hide_pins) == screen,
    decreases pins.len(),
{
    if pins.len() > 0 {
        assert forall|i: int| 0 <= i < pins.drop_last().len() implies settled(
            screen.desktop,
            #[trigger] pins.drop_last()[i],
            hide_pins,
        ) by {
            assert(settled(screen.desktop, pins[i], hide_pins));
        }
        settled_stays(screen, pins.drop_last(), hide_pins);
        assert(settled(screen.desktop, pins[pins.len() - 1], hide_pins));
    }
}

/// Looking at the pinned windows a second time shows and hides nothing more.
pub proof fn pin_visibility_is_idempotent(
    monitor: MonitorView,
    screen: ScreenView,
    settings: Settings,
)
    ensures
        monitor.with_pins(monitor.with_pins(screen, settings), settings) == monitor.with_pins(
            screen,
            settings,
        ),
{
    if settings.hide_pinned_on_empty_workspaces {
        coercing_settles(screen, monitor.pins(), monitor.hides_pins());
        settled_stays(
            pins_coerced(screen, monitor.pins(), monitor.hides_pins()),
            monitor.pins(),
            monitor.hides_pins(),
        );
    }
}

/// Pinned windows are hidden while the focused workspace is empty and shown while it is
/// not, where that is configured. Otherwise they stay as they are on every workspace.
pub proof fn pins_follow_the_focused_workspace(
    monitor: MonitorView,
    screen: ScreenView,
    settings: Settings,
    pin: isize,
)
    requires
        monitor.pinned_floating.contains(pin),
    ensures
        !settings.hide_pinned_on_empty_workspaces ==> monitor.with_pins(screen, settings)
            == screen,
        settings.hide_pinned_on_empty_workspaces ==> {
            let after = monitor.with_pins(screen, settings).desktop.at(pin);
            after.is_window ==> after.is_shown == !monitor.hides_pins()
        },
{
    if settings.hide_pinned_on_empty_workspaces {
        coercing_settles(screen, monitor.pins(), monitor.hides_pins());
        let i = choose|i: int|
            0 <= i < monitor.pinned_floating.len() && monitor.pinned_floating[i] == pin;
        assert(monitor.pins()[i] == Window { hwnd: pin });
        assert(settled(
            monitor.with_pins(screen, settings).desktop,
            monitor.pins()[i],
            monitor.hides_pins(),
        ));
    }
}

/// A window that a workspace of the monitor holds is never treated as an ignored one.
pub proof fn managed_windows_are_not_ignored(monitor: MonitorView, d: DesktopView, window: Window)
    requires
        monitor::any_has(monitor.workspaces.elements, window.hwnd),
    ensures
        !monitor.ignored(d).contains(window),
{
    broadcast use vstd::seq_lib::group_filter_ensures;

    if monitor.ignored(d).contains(window) {
        let hwnds = d.unmanaged->0;
        let ignored = hwnds.filter(|hwnd: isize| monitor.ignores(hwnd, d));
        let i = choose|i: int|
            0 <= i < monitor::as_windows(ignored).len() && monitor::as_windows(ignored)[i]
                == window;
        assert(ignored[i] == window.hwnd);
        assert(ignored.contains(ignored[i]));
        assert(monitor.ignores(ignored[i], d));
    }
}

/// Whether a step takes a window out of the topmost band or lowers it.
pub open spec fn takes_down(step: StepView, hwnd: isize) -> bool {
    step matches StepView::Apply(ApplyOpView::Windows(batch, windows)) && (batch
        == Batch::ClearTopmost || batch == Batch::Lower) && exists|i: int|
        0 <= i < windows.len() && (#[trigger] windows[i]).window.hwnd == hwnd
}

/// Whether one of the steps takes a window out of the topmost band or lowers it.
pub open spec fn any_takes_down(steps: Seq<StepView>, hwnd: isize) -> bool {
    exists|i: int| 0 <= i < steps.len() && takes_down(#[trigger] steps[i], hwnd)
}

proof fn joined_steps(a: Seq<StepView>, b: Seq<StepView>, hwnd: isize)
    requires
        !any_takes_down(a, hwnd),
        !any_takes_down(b, hwnd),
    ensures
        !any_takes_down(a + b, hwnd),
{
    if any_takes_down(a + b, hwnd) {
        let i = choose|i: int| 0 <= i < (a + b).len() && takes_down(#[trigger] (a + b)[i], hwnd);
        if i < a.len() {
            assert(takes_down(a[i], hwnd));
        } else {
            assert(takes_down(b[i - a.len()], hwnd));
        }
    }
}

proof fn queued_steps(batch: Batch, windows: Seq<Window>, d: DesktopView, hwnd: isize)
    requires
        forall|i: int| 0 <= i < windows.len() ==> (#[trigger] windows[i]).hwnd != hwnd,
    ensures
        !any_takes_down(apply_worker::queued(batch, windows, d), hwnd),
{
    let steps = apply_worker::queued(batch, windows, d);
    if any_takes_down(steps, hwnd) {
        let captured = apply_worker::captured_all(windows, d);
        let i = choose|i: int|
            0 <= i < captured.len() && (#[trigger] captured[i]).window.hwnd == hwnd;
        assert(captured[i].window == windows[i]);
    }
}

proof fn normal_pins(monitor: MonitorView, windows: Seq<Window>, hwnd: isize)
    requires
        monitor.pinned_always_on_top.contains(hwnd),
    ensures
        forall|i: int|
            0 <= i < monitor.not_on_top(windows).len() ==> (#[trigger] monitor.not_on_top(
                windows,
            )[i]).hwnd != hwnd,
{
    broadcast use vstd::seq_lib::group_filter_ensures;

    let normal = monitor.not_on_top(windows);
    assert forall|i: int| 0 <= i < normal.len() implies (#[trigger] normal[i]).hwnd != hwnd by {
        assert(normal.contains(normal[i]));
    }
}

/// The steps that stack the layers, without those that show or hide pinned windows.
pub open spec fn stack_steps(
    monitor: MonitorView,
    workspace: WorkspaceView,
    d: DesktopView,
    climb_active: bool,
    climb_tiled: bool,
) -> Seq<StepView> {
    if workspace.ignored_windows_above_managed {
        Seq::empty()
    } else if workspace.monocle_container is Some || workspace.maximized_window is Some {
        match workspace.layer {
            WorkspaceLayer::Floating => monitor.raise_pins_steps(d),
            WorkspaceLayer::Tiling => monitor.lower_pins_steps(d),
        }
    } else if workspace.empty() {
        monitor.raise_pins_steps(d)
    } else {
        monitor.band_steps(workspace, d, climb_active, climb_tiled) + monitor.top_steps(
            workspace,
            d,
            climb_active,
            climb_tiled,
        ) + monitor.steal_steps(workspace, d)
    }
}

/// Stacking the layers never lowers a window that is always on top, nor takes it out of
/// the topmost band. Pinned windows belong to no workspace.
pub proof fn windows_on_top_stay_there(
    monitor: MonitorView,
    workspace: WorkspaceView,
    d: DesktopView,
    climb_active: bool,
    climb_tiled: bool,
    hwnd: isize,
)
    requires
        monitor.pinned_always_on_top.contains(hwnd),
        !container::holds(workspace.floating_windows.elements, hwnd),
    ensures
        !any_takes_down(
            stack_steps(monitor, workspace, d, climb_active, climb_tiled),
            hwnd,
        ),
{
    let shown = rendered(monitor.pins(), d);
    let pins = living(monitor.pins(), d);
    let floats = workspace.floating_windows.elements;
    normal_pins(monitor, shown, hwnd);
    normal_pins(monitor, pins, hwnd);
    queued_steps(Batch::Lower, monitor.not_on_top(shown), d, hwnd);
    joined_steps(
        apply_worker::queued(Batch::Lower, monitor.not_on_top(shown), d),
        apply_worker::queued(Batch::MakeTopmost, monitor.on_top(shown), d),
        hwnd,
    );
    joined_steps(
        apply_worker::queued(Batch::RaiseAboveActive, monitor.not_on_top(shown), d),
        apply_worker::queued(Batch::MakeTopmost, monitor.on_top(shown), d),
        hwnd,
    );
    let cleared = monitor.not_on_top(pins) + floats;
    assert forall|i: int| 0 <= i < cleared.len() implies (#[trigger] cleared[i]).hwnd != hwnd by {
        if i >= monitor.not_on_top(pins).len() {
            assert(floats[i - monitor.not_on_top(pins).len()].hwnd != hwnd);
        }
    }
    queued_steps(Batch::ClearTopmost, cleared, d, hwnd);
    let clear = apply_worker::queued(Batch::ClearTopmost, cleared, d);
    let steps = monitor.band_steps(workspace, d, climb_active, climb_tiled);
    let tops = monitor.top_steps(workspace, d, climb_active, climb_tiled);
    assert forall|i: int| 0 <= i < steps.len() implies !takes_down(#[trigger] steps[i], hwnd) by {
        if i < clear.len() {
            assert(steps[i] == clear[i]);
            assert(!takes_down(clear[i], hwnd));
        }
    }
    joined_steps(steps, tops, hwnd);
    joined_steps(steps + tops, monitor.steal_steps(workspace, d), hwnd);
}

/// Show the focused one of a number of workspaces, and hide the others.
pub open spec fn switch_steps(
    monitor: isize,
    len: int,
    focused: int,
    mouse_follows_focus: bool,
    trigger_focus: bool,
    monitor_wallpaper: Option<Wallpaper>,
) -> Seq<StepView> {
    Seq::new(
        len as nat,
        |i: int|
            if i == focused {
                StepView::Do(
                    Call::RestoreWorkspace {
                        monitor,
                        workspace: i as usize,
                        mouse_follows_focus,
                        trigger_focus,
                        monitor_wallpaper,
                    },
                )
            } else {
                StepView::Do(Call::HideWorkspace { monitor, workspace: i as usize })
            },
    )
}

/// A switch shows the focused workspace of a monitor with the wallpaper of the monitor,
/// hides every other one as a whole, and hides no window by itself, so that pinned
/// windows, which belong to no workspace, stay. Of the monitor it changes nothing but the
/// time of the last switch.
pub proof fn switches_show_one_workspace(
    monitor: MonitorView,
    mouse_follows_focus: bool,
    trigger_focus: bool,
    now_ms: u64,
)
    ensures
        ({
            let steps = monitor.load_steps(mouse_follows_focus, trigger_focus);
            let len = monitor.workspaces.elements.len();
            &&& steps.len() == len + 1
            &&& forall|i: int|
                0 <= i < len ==> #[trigger] steps[i] == StepView::Do(
                    if i == monitor.workspaces.focused {
                        Call::RestoreWorkspace {
                            monitor: monitor.id,
                            workspace: i as usize,
                            mouse_follows_focus,
                            trigger_focus,
                            monitor_wallpaper: monitor.wallpaper,
                        }
                    } else {
                        Call::HideWorkspace { monitor: monitor.id, workspace: i as usize }
                    },
                )
            &&& steps.last() == StepView::Continue(Resume::RestackAfterSwitch(monitor.id))
        }),
        monitor.switched(now_ms) == (MonitorView { last_switch_at: Some(now_ms), ..monitor }),
{
}

} // verus!
