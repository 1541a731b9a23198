//! What the window manager does when another window gets the focus.

use vstd::prelude::*;

use crate::apply_worker;
use crate::apply_worker::ApplyWorker;
use crate::apply_worker::Batch;
use crate::behaviour::WorkspaceLayerFocusBehaviour;
use crate::container;
use crate::error::Error;
use crate::event_end;
use crate::geometry::DefaultLayout;
use crate::geometry::Layout;
use crate::manager_op::ManagerOp;
use crate::plan::Call;
use crate::plan::EventStage;
use crate::plan::Resume;
use crate::plan::StepView;
use crate::turn;
use crate::turn::Context;
use crate::turn::ContextView;
use crate::turn::Turn;
use crate::window;
use crate::window::Screen;
use crate::window::ScreenView;
use crate::window::Window;
use crate::window_manager;
use crate::window_manager::ManagerView;
use crate::window_manager::WindowManager;
use crate::window_manager_event::WindowManagerEvent;
use crate::workspace;
use crate::workspace::Workspace;
use crate::workspace::WorkspaceLayer;
use crate::workspace::WorkspaceView;

verus! {

impl WorkspaceView {
    /// Whether the workspace scrolls through its containers.
    pub open spec fn scrolls(self) -> bool {
        self.layout == Layout::Default(DefaultLayout::Scrolling)
    }

    /// The workspace with a pinned window as the float that was used last.
    pub open spec fn using_pin(self, hwnd: isize) -> WorkspaceView {
        WorkspaceView {
            last_focused_floating_hwnd: Some(hwnd),
            last_focused_cycle_window_hwnd: Some(hwnd),
            layer: WorkspaceLayer::Floating,
            ..self
        }
    }

    /// The workspace with the focus on one of its floating windows.
    pub open spec fn using_float(self, hwnd: isize) -> WorkspaceView {
        WorkspaceView {
            layer: WorkspaceLayer::Floating,
            ..self.focusing_float(
                container::first_position(self.floating_windows.elements, hwnd),
            )
        }
    }

    /// The workspace once a tiled window got the focus. Its tiling layer comes up, unless
    /// the change of the focus is of the window manager's own making, or a command has
    /// chosen the layer and that is respected.
    pub open spec fn using_tile(
        self,
        behaviour: WorkspaceLayerFocusBehaviour,
        flips_suppressed: bool,
    ) -> WorkspaceView {
        match behaviour {
            WorkspaceLayerFocusBehaviour::RespectLock => if !self.layer_lock && !flips_suppressed {
                WorkspaceView { layer: WorkspaceLayer::Tiling, ..self }
            } else {
                self
            },
            WorkspaceLayerFocusBehaviour::SwitchLayer
            | WorkspaceLayerFocusBehaviour::SwitchLayerOverlay => if !flips_suppressed {
                self.in_tiling_layer()
            } else {
                self
            },
        }
    }
}

impl ManagerView {
    /// Where a window is, where it is known.
    pub open spec fn owner(self, hwnd: isize) -> Option<(usize, usize)> {
        if self.known_hwnds.contains_key(hwnd) {
            Some(self.known_hwnds[hwnd])
        } else {
            None
        }
    }

    /// Whether a window is pinned on the focused monitor.
    pub open spec fn pins_here(self, hwnd: isize) -> bool {
        self.monitors.focused_element() matches Some(monitor) && monitor.pinned_floating.contains(
            hwnd,
        )
    }

    /// The manager with the focus of a workspace that is not shown on one of its windows.
    pub open spec fn focusing_elsewhere(self, at: (usize, usize), hwnd: isize) -> ManagerView {
        let monitor_idx = at.0 as int;
        let workspace_idx = at.1 as int;
        if monitor_idx < self.monitors.elements.len() {
            let monitor = self.monitors.elements[monitor_idx];
            if workspace_idx < monitor.workspaces.elements.len() && workspace::tiled(
                monitor.workspaces.elements[workspace_idx].containers.elements,
                hwnd,
            ) {
                self.with_monitor(
                    monitor_idx,
                    monitor.with_workspace(
                        workspace_idx,
                        monitor.workspaces.elements[workspace_idx].focusing_window(hwnd),
                    ),
                )
            } else {
                self
            }
        } else {
            self
        }
    }
}

/// A window got the focus.
///
/// For a window of a workspace that is not shown, only that workspace remembers it. A
/// window that has lost the foreground again is not looked at.
#[verifier::opaque]
pub open spec fn focus_changed(
    manager: ManagerView,
    screen: ScreenView,
    context: ContextView,
    event: WindowManagerEvent,
) -> Turn {
    let hwnd = event.window_of().hwnd;
    let is_pinned = manager.pins_here(hwnd);
    match manager.monitor() {
        Err(error) => turn::failed(manager, screen, error),
        Ok(monitor) => {
            let owner = manager.owner(hwnd);
            if owner != Some((manager.monitors.focused, monitor.workspaces.focused)) && !is_pinned {
                match owner {
                    Some(at) => turn::done(manager.focusing_elsewhere(at, hwnd), screen),
                    None => turn::done(manager, screen),
                }
            } else if !focused(hwnd, screen) {
                turn::done(manager, screen)
            } else {
                match manager.workspace() {
                    Err(error) => turn::failed(manager, screen, error),
                    Ok(workspace) => if !workspace.scrolls()
                        && workspace.containers.elements.len() > 0 {
                        turn::done(
                            manager,
                            event_end::next(
                                screen.updating(manager.mouse_follows_focus, false),
                                EventStage::FocusUpdated { is_pinned },
                                event,
                            ),
                        )
                    } else {
                        focus_updated(manager, screen, context, event, is_pinned)
                    },
                }
            }
        },
    }
}

/// Whether a window has the foreground.
pub open spec fn focused(hwnd: isize, screen: ScreenView) -> bool {
    match screen.desktop.foreground {
        Some(foreground) => foreground == hwnd,
        None => hwnd == 0,
    }
}

/// Take the focus over into the state of the focused workspace.
#[verifier::opaque]
pub open spec fn focus_updated(
    manager: ManagerView,
    screen: ScreenView,
    context: ContextView,
    event: WindowManagerEvent,
    is_pinned: bool,
) -> Turn {
    let hwnd = event.window_of().hwnd;
    let flips_suppressed = context.seen.flips_suppressed;
    match manager.workspace() {
        Err(error) => turn::failed(manager, screen, error),
        Ok(workspace) => {
            let previous = workspace.layer;
            let overlay = EventStage::FocusOverlay {
                previous,
                own_float: workspace.floats(hwnd),
                is_pinned,
                keep_overlay: false,
                flips_suppressed,
            };
            if workspace.floats(hwnd) {
                turn::done(
                    manager.with_workspace(workspace.using_float(hwnd)),
                    event_end::next(screen, overlay, event),
                )
            } else if workspace.maximized_window == Some(Window { hwnd }) {
                turn::done(manager, screen)
            } else if is_pinned {
                turn::done(
                    if flips_suppressed {
                        manager
                    } else {
                        manager.with_workspace(workspace.using_pin(hwnd))
                    },
                    event_end::next(screen, overlay, event),
                )
            } else if workspace.monocle_container is Some {
                let focused = match workspace.monocle_front() {
                    Some(window) => screen.followed_by(
                        window::focus_steps(window.hwnd, false, screen.desktop),
                    ),
                    None => screen,
                };
                turn::done(
                    manager,
                    event_end::next(
                        focused,
                        EventStage::FocusLayer { previous, flips_suppressed },
                        event,
                    ),
                )
            } else if workspace::tiled(workspace.containers.elements, hwnd) {
                focus_layer(
                    manager.with_workspace(workspace.focusing_window(hwnd)),
                    screen,
                    event,
                    previous,
                    flips_suppressed,
                )
            } else {
                turn::failed(manager, screen, Error::NoWindow)
            }
        },
    }
}

/// Bring the layer of a tiled window up that got the focus.
#[verifier::opaque]
pub open spec fn focus_layer(
    manager: ManagerView,
    screen: ScreenView,
    event: WindowManagerEvent,
    previous: WorkspaceLayer,
    flips_suppressed: bool,
) -> Turn {
    match manager.workspace() {
        Err(error) => turn::failed(manager, screen, error),
        Ok(workspace) => {
            let behaviour = manager.workspace_layer_focus_behaviour;
            let after = workspace.using_tile(behaviour, flips_suppressed);
            let updated = if after.scrolls() && after.containers.elements.len() > 0 {
                screen.updating(manager.mouse_follows_focus, false)
            } else {
                screen
            };
            turn::done(
                manager.with_workspace(after),
                event_end::next(
                    updated,
                    EventStage::FocusOverlay {
                        previous,
                        own_float: false,
                        is_pinned: false,
                        keep_overlay: behaviour
                            == WorkspaceLayerFocusBehaviour::SwitchLayerOverlay
                            && !flips_suppressed,
                        flips_suppressed,
                    },
                    event,
                ),
            )
        },
    }
}

/// What stacks the layers where they changed: all of them, or only the focused window
/// above the floating ones.
pub open spec fn flip_screen(
    manager: ManagerView,
    screen: ScreenView,
    context: ContextView,
    window: Window,
    previous: WorkspaceLayer,
    keep_overlay: bool,
) -> ScreenView {
    let monitor = manager.monitors.elements[manager.monitors.focused as int];
    if previous == monitor.current().layer {
        screen
    } else if keep_overlay {
        screen.followed_by(
            window::with_border(
                |hwnd: isize| Call::RaiseWindowSync(hwnd),
                window.hwnd,
                screen.desktop,
            ),
        ).taking(StepView::Do(Call::RaiseAndFocusWindow(window.hwnd)))
    } else {
        monitor.stacked(screen, false, false, context.settings)
    }
}

/// What keeps the floating windows above the tiled ones while the floating layer is on
/// top, and the focused one above the pinned windows.
pub open spec fn overlay_screen(
    manager: ManagerView,
    screen: ScreenView,
    context: ContextView,
    window: Window,
    own_float: bool,
    is_pinned: bool,
    flips_suppressed: bool,
) -> ScreenView {
    let monitor = manager.monitors.elements[manager.monitors.focused as int];
    let workspace = monitor.current();
    if context.seen.overlay_suppressed || flips_suppressed || workspace.layer
        != WorkspaceLayer::Floating {
        screen
    } else if own_float {
        screen.followed_by(
            apply_worker::queued(Batch::RaiseAboveActive, seq![window], screen.desktop),
        ).managing(ManagerOp::NoteOverlayMaintenance)
    } else if !is_pinned {
        screen.followed_by(
            apply_worker::queued(
                Batch::RaiseAboveActive,
                workspace.floating_windows.elements,
                screen.desktop,
            ),
        ).followed_by(monitor.raise_pins_steps(screen.desktop)).managing(
            ManagerOp::NoteOverlayMaintenance,
        )
    } else {
        screen
    }
}

/// Let the layers follow the focus, and find out whether the window is maximized.
#[verifier::opaque]
pub open spec fn focus_overlay(
    manager: ManagerView,
    screen: ScreenView,
    context: ContextView,
    event: WindowManagerEvent,
    previous: WorkspaceLayer,
    own_float: bool,
    is_pinned: bool,
    keep_overlay: bool,
    flips_suppressed: bool,
) -> Turn {
    let window = event.window_of();
    match manager.workspace() {
        Err(error) => turn::failed(manager, screen, error),
        Ok(_) => {
            let flipped = flip_screen(manager, screen, context, window, previous, keep_overlay);
            let raised = overlay_screen(
                manager,
                flipped,
                context,
                window,
                own_float,
                is_pinned,
                flips_suppressed,
            );
            turn::done(
                manager,
                event_end::next(
                    raised.managing(ManagerOp::CaptureNativeMaximize(window.hwnd)),
                    EventStage::Captured,
                    event,
                ),
            )
        },
    }
}

impl Workspace {
    /// Whether the workspace scrolls through its containers.
    pub fn is_scrolling(&self) -> (r: bool)
        ensures
            r == self@.scrolls(),
    {
        match self.layout {
            Layout::Default(layout) => layout == DefaultLayout::Scrolling,
            Layout::Custom(_) => false,
        }
    }

    fn use_tile(&mut self, behaviour: WorkspaceLayerFocusBehaviour, flips_suppressed: bool)
        ensures
            final(self)@ == old(self)@.using_tile(behaviour, flips_suppressed),
    {
        match behaviour {
            WorkspaceLayerFocusBehaviour::RespectLock => {
                if !self.layer_lock && !flips_suppressed {
                    self.layer = WorkspaceLayer::Tiling;
                }
            },
            WorkspaceLayerFocusBehaviour::SwitchLayer
            | WorkspaceLayerFocusBehaviour::SwitchLayerOverlay => {
                if !flips_suppressed {
                    self.layer = WorkspaceLayer::Tiling;
                    self.layer_lock = false;
                }
            },
        }
    }

    fn use_float(&mut self, hwnd: isize)
        requires
            old(self)@.floats(hwnd),
        ensures
            final(self)@ == old(self)@.using_float(hwnd),
    {
        match container::position_in(&self.floating_windows.elements, hwnd) {
            Some(idx) => {
                proof {
                    container::first_is_first(self.floating_windows.elements@, idx as int, hwnd);
                }
                if self.focus_floating_window(idx) {
                    self.layer = WorkspaceLayer::Floating;
                }
            },
            None => {},
        }
    }

    fn use_pin(&mut self, hwnd: isize)
        ensures
            final(self)@ == old(self)@.using_pin(hwnd),
    {
        self.last_focused_floating_hwnd = Some(hwnd);
        self.last_focused_cycle_window_hwnd = Some(hwnd);
        self.layer = WorkspaceLayer::Floating;
    }
}

impl WindowManager {
    fn is_pinned_here(&self, hwnd: isize) -> (r: bool)
        ensures
            r == self@.pins_here(hwnd),
    {
        match self.focused_monitor() {
            Some(monitor) => monitor.is_pinned(hwnd),
            None => false,
        }
    }

    fn focus_elsewhere(&mut self, at: (usize, usize), hwnd: isize)
        ensures
            final(self)@ == old(self)@.focusing_elsewhere(at, hwnd),
    {
        let (monitor_idx, workspace_idx) = at;
        if monitor_idx < self.monitors.elements.len() {
            if workspace_idx < self.monitors.elements[monitor_idx].workspaces.elements.len() {
                let ghost before = self@;
                let _ = self.monitors.elements[monitor_idx].workspaces.elements[workspace_idx].focus_container_by_window(
                hwnd);
                assert(self@.monitors.elements[monitor_idx as int].workspaces.elements
                    =~= before.focusing_elsewhere(
                    at,
                    hwnd,
                ).monitors.elements[monitor_idx as int].workspaces.elements);
                assert(self@.monitors.elements =~= before.focusing_elsewhere(
                    at,
                    hwnd,
                ).monitors.elements);
            }
        }
    }

    pub(crate) fn handle_focus_change(
        &mut self,
        event: WindowManagerEvent,
        context: &Context,
        screen: &mut Screen,
    ) -> (r: Result<(), Error>)
        ensures
            (Turn { manager: final(self)@, screen: final(screen)@, result: r }) == focus_changed(
                old(self)@,
                old(screen)@,
                context@,
                event,
            ),
    {
        proof {
            reveal(focus_changed);
        }
        let window = event.window();
        let focused_monitor_idx: usize = self.focused_monitor_idx();
        let focused_workspace_idx: usize = match self.focused_workspace_idx() {
            Ok(idx) => idx,
            Err(error) => {
                return Err(error);
            },
        };
        let owner = self.known(window.hwnd);
        let on_current_workspace = match owner {
            Some((m, w)) => m == focused_monitor_idx && w == focused_workspace_idx,
            None => false,
        };
        let is_pinned = self.is_pinned_here(window.hwnd);
        if !on_current_workspace && !is_pinned {
            match owner {
                Some(at) => {
                    self.focus_elsewhere(at, window.hwnd);
                },
                None => {},
            }
            return Ok(());
        }
        if !window.is_focused(&screen.desktop) {
            return Ok(());
        }
        let updates = match self.focused_workspace() {
            Ok(workspace) => !workspace.is_scrolling() && workspace.containers.elements.len() > 0,
            Err(error) => {
                return Err(error);
            },
        };
        if updates {
            screen.update(self.mouse_follows_focus, false);
            screen.ask(Resume::Event(EventStage::FocusUpdated { is_pinned }, event));
            Ok(())
        } else {
            self.handle_focus_updated(event, is_pinned, context, screen)
        }
    }

    pub(crate) fn handle_focus_updated(
        &mut self,
        event: WindowManagerEvent,
        is_pinned: bool,
        context: &Context,
        screen: &mut Screen,
    ) -> (r: Result<(), Error>)
        ensures
            (Turn { manager: final(self)@, screen: final(screen)@, result: r }) == focus_updated(
                old(self)@,
                old(screen)@,
                context@,
                event,
                is_pinned,
            ),
    {
        proof {
            reveal(focus_updated);
        }
        let window = event.window();
        let hwnd: isize = window.hwnd;
        let flips_suppressed = context.seen.flips_suppressed;
        proof {
            if self@.workspace() is Ok {
                window_manager::same_workspace(self@);
            }
        }
        let workspace = match self.focused_workspace_mut() {
            Ok(workspace) => workspace,
            Err(error) => {
                return Err(error);
            },
        };
        let previous = workspace.layer;
        let own_float = workspace.contains_float(hwnd);
        let is_maximized = match workspace.maximized_window {
            Some(window) => window.hwnd == hwnd,
            None => false,
        };
        if own_float {
            workspace.use_float(hwnd);
        } else if is_maximized {
            return Ok(());
        } else if is_pinned {
            if !flips_suppressed {
                workspace.use_pin(hwnd);
            }
        } else {
            match &workspace.monocle_container {
                Some(monocle) => {
                    match monocle.focused_window() {
                        Some(window) => {
                            window.focus(false, &screen.desktop, &mut screen.plan);
                        },
                        None => {},
                    }
                    screen.ask(
                        Resume::Event(
                            EventStage::FocusLayer { previous, flips_suppressed },
                            event,
                        ),
                    );
                    return Ok(());
                },
                None => {},
            }
            match workspace.focus_container_by_window(hwnd) {
                Ok(()) => {},
                Err(error) => {
                    return Err(error);
                },
            }
            return self.handle_focus_layer(event, previous, flips_suppressed, screen);
        }
        screen.ask(
            Resume::Event(
                EventStage::FocusOverlay {
                    previous,
                    own_float,
                    is_pinned,
                    keep_overlay: false,
                    flips_suppressed,
                },
                event,
            ),
        );
        Ok(())
    }

    pub(crate) fn handle_focus_layer(
        &mut self,
        event: WindowManagerEvent,
        previous: WorkspaceLayer,
        flips_suppressed: bool,
        screen: &mut Screen,
    ) -> (r: Result<(), Error>)
        ensures
            (Turn { manager: final(self)@, screen: final(screen)@, result: r }) == focus_layer(
                old(self)@,
                old(screen)@,
                event,
                previous,
                flips_suppressed,
            ),
    {
        proof {
            reveal(focus_layer);
        }
        let behaviour = self.workspace_layer_focus_behaviour;
        let mouse_follows_focus = self.mouse_follows_focus;
        let workspace = match self.focused_workspace_mut() {
            Ok(workspace) => workspace,
            Err(error) => {
                return Err(error);
            },
        };
        workspace.use_tile(behaviour, flips_suppressed);
        if workspace.is_scrolling() && workspace.containers.elements.len() > 0 {
            screen.update(mouse_follows_focus, false);
        }
        let keep_overlay = behaviour == WorkspaceLayerFocusBehaviour::SwitchLayerOverlay
            && !flips_suppressed;
        screen.ask(
            Resume::Event(
                EventStage::FocusOverlay {
                    previous,
                    own_float: false,
                    is_pinned: false,
                    keep_overlay,
                    flips_suppressed,
                },
                event,
            ),
        );
        Ok(())
    }

    pub(crate) fn handle_focus_overlay(
        &mut self,
        event: WindowManagerEvent,
        previous: WorkspaceLayer,
        own_float: bool,
        is_pinned: bool,
        keep_overlay: bool,
        flips_suppressed: bool,
        context: &Context,
        screen: &mut Screen,
    ) -> (r: Result<(), Error>)
        ensures
            (Turn { manager: final(self)@, screen: final(screen)@, result: r }) == focus_overlay(
                old(self)@,
                old(screen)@,
                context@,
                event,
                previous,
                own_float,
                is_pinned,
                keep_overlay,
                flips_suppressed,
            ),
    {
        proof {
            reveal(focus_overlay);
        }
        let window = event.window();
        match self.focused_workspace() {
            Ok(_) => {},
            Err(error) => {
                return Err(error);
            },
        }
        self.flip_layers(window, previous, keep_overlay, context, screen);
        self.maintain_overlay(window, own_float, is_pinned, flips_suppressed, context, screen);
        screen.manage(ManagerOp::CaptureNativeMaximize(window.hwnd));
        screen.ask(Resume::Event(EventStage::Captured, event));
        Ok(())
    }

    fn flip_layers(
        &self,
        window: Window,
        previous: WorkspaceLayer,
        keep_overlay: bool,
        context: &Context,
        screen: &mut Screen,
    )
        requires
            self@.workspace() is Ok,
        ensures
            final(screen)@ == flip_screen(
                self@,
                old(screen)@,
                context@,
                window,
                previous,
                keep_overlay,
            ),
    {
        match self.focused_monitor() {
            Some(monitor) => {
                match monitor.focused_workspace() {
                    Some(workspace) => {
                        if previous != workspace.layer {
                            if keep_overlay {
                                window.raise_sync(&screen.desktop, &mut screen.plan);
                                screen.plan.call(Call::RaiseAndFocusWindow(window.hwnd));
                            } else {
                                let _ = monitor.enforce_layer_stack(context.settings, screen);
                            }
                        }
                    },
                    None => {},
                }
            },
            None => {},
        }
    }

    fn maintain_overlay(
        &self,
        window: Window,
        own_float: bool,
        is_pinned: bool,
        flips_suppressed: bool,
        context: &Context,
        screen: &mut Screen,
    )
        requires
            self@.workspace() is Ok,
        ensures
            final(screen)@ == overlay_screen(
                self@,
                old(screen)@,
                context@,
                window,
                own_float,
                is_pinned,
                flips_suppressed,
            ),
    {
        match self.focused_monitor() {
            Some(monitor) => {
                match monitor.focused_workspace() {
                    Some(workspace) => {
                        if context.seen.overlay_suppressed || flips_suppressed || workspace.layer
                            != WorkspaceLayer::Floating {
                            return;
                        }
                        if own_float {
                            let mut windows: Vec<Window> = Vec::new();
                            windows.push(window);
                            assert(windows@ =~= seq![window]);
                            ApplyWorker::raise_above_active(
                                &windows,
                                &screen.desktop,
                                &mut screen.plan,
                            );
                            screen.manage(ManagerOp::NoteOverlayMaintenance);
                        } else if !is_pinned {
                            ApplyWorker::raise_above_active(
                                workspace.floating_windows(),
                                &screen.desktop,
                                &mut screen.plan,
                            );
                            let _ = monitor.raise_pinned_windows(
                                &screen.desktop,
                                &mut screen.plan,
                            );
                            screen.manage(ManagerOp::NoteOverlayMaintenance);
                        }
                    },
                    None => {},
                }
            },
            None => {},
        }
    }
}

} // verus!
