//! What the window manager does when a window is shown.

use vstd::prelude::*;

use crate::behaviour::Placement;
use crate::behaviour::WindowManagementBehaviour;
use crate::container;
use crate::desktop::Desktop;
use crate::desktop::DesktopView;
use crate::error::Error;
use crate::event_end;
use crate::monitor::Monitor;
use crate::monitor::MonitorView;
use crate::plan::EventStage;
use crate::plan::Resume;
use crate::plan::Signal;
use crate::plan::StepView;
use crate::rule_set::RuleSet;
use crate::rules;
use crate::rules::MatchingRule;
use crate::rules::WindowTexts;
use crate::turn;
use crate::turn::Context;
use crate::turn::ContextView;
use crate::turn::Turn;
use crate::window;
use crate::window::Screen;
use crate::window::ScreenView;
use crate::window::Window;
use crate::window_manager;
use crate::window_manager::ManagerView;
use crate::window_manager::WindowManager;
use crate::window_manager_event::WindowManagerEvent;
use crate::workspace;
use crate::workspace::WindowContainerBehaviour;
use crate::workspace::Workspace;
use crate::workspace::WorkspaceLayer;
use crate::workspace::WorkspaceView;

verus! {

impl WorkspaceView {
    /// Whether the workspace holds a window in a stack that shows another one.
    pub open spec fn buries(self, hwnd: isize) -> bool {
        if self.monocle_has(hwnd) {
            self.monocle_front() != Some(Window { hwnd })
        } else {
            workspace::tiled(self.containers.elements, hwnd)
                && self.containers.elements[workspace::first_with(
                self.containers.elements,
                hwnd,
            )].front() != Some(Window { hwnd })
        }
    }

    /// Whether bringing a window to the front takes the monocle container back among the
    /// others.
    pub open spec fn leaves_monocle_for(self, hwnd: isize) -> bool {
        &&& self.monocle_container is Some
        &&& !self.monocle_has(hwnd)
        &&& !self.floats(hwnd)
        &&& self.maximized_window != Some(Window { hwnd })
    }

    /// The workspace with the layer of a window on top, unless a command has chosen it.
    pub open spec fn layered(self, layer: WorkspaceLayer) -> WorkspaceView {
        if self.layer_lock {
            self
        } else {
            WorkspaceView { layer, ..self }
        }
    }

    /// Why a window cannot be brought to the front.
    pub open spec fn unreachable_window(self, hwnd: isize) -> Option<Error> {
        if self.monocle_has(hwnd) || self.floats(hwnd) || self.maximized_window == Some(
            Window { hwnd },
        ) {
            None
        } else if self.lost_monocle() {
            Some(Error::NoMonocleRestoreIndex)
        } else {
            let ready = if self.monocle_container is Some {
                self.returning_monocle()
            } else {
                self
            };
            if workspace::tiled(ready.containers.elements, hwnd) {
                None
            } else {
                Some(Error::NoWindow)
            }
        }
    }

    /// The workspace with a window at the front that the user went to by themselves. What
    /// has changed where that is not possible stays.
    pub open spec fn fronting(self, hwnd: isize) -> WorkspaceView {
        if self.monocle_has(hwnd) {
            let monocle = self.monocle_container->0;
            WorkspaceView {
                monocle_container: Some(
                    monocle.focusing(container::first_position(monocle.windows.elements, hwnd)),
                ),
                ..self
            }.layered(WorkspaceLayer::Tiling)
        } else if self.floats(hwnd) {
            self.layered(WorkspaceLayer::Floating)
        } else if self.maximized_window == Some(Window { hwnd }) {
            self.layered(WorkspaceLayer::Tiling)
        } else if self.lost_monocle() {
            self
        } else {
            let ready = if self.monocle_container is Some {
                self.returning_monocle()
            } else {
                self
            };
            if workspace::tiled(ready.containers.elements, hwnd) {
                ready.focusing_window(hwnd).layered(WorkspaceLayer::Tiling)
            } else {
                ready
            }
        }
    }

    /// The workspace with a new window in its monocle container.
    pub open spec fn stacking_monocle(self, window: Window) -> WorkspaceView {
        WorkspaceView { monocle_container: Some(self.monocle_container->0.adding(window)), ..self }
    }
}

/// The place of a window to which the user went by themselves, where it is not at the
/// front: on another workspace, or in a stack that shows another window.
pub open spec fn reconciliation(manager: ManagerView, hwnd: isize) -> Option<(usize, usize)> {
    match manager.owner(hwnd) {
        Some(at) => {
            let monitor = manager.monitors.elements[manager.monitors.focused as int];
            if at != (manager.monitors.focused, monitor.workspaces.focused) {
                Some(at)
            } else if monitor.workspaces.focused_element() matches Some(workspace)
                && workspace.buries(hwnd) {
                Some(at)
            } else {
                None
            }
        },
        None => None,
    }
}

/// Bring the window to the front to which the user went by themselves.
#[verifier::opaque]
pub open spec fn reconcile(
    manager: ManagerView,
    screen: ScreenView,
    event: WindowManagerEvent,
    at: (usize, usize),
) -> Turn {
    let hwnd = event.window_of().hwnd;
    if at.0 >= manager.monitors.elements.len() {
        turn::failed(manager, screen, Error::NoMonitorAt(at.0))
    } else {
        let there = manager.focusing_monitor(at.0 as int);
        let monitor = manager.monitors.elements[at.0 as int];
        let ready = if at.1 == monitor.workspaces.focused {
            monitor
        } else {
            monitor.focusing(at.1)
        };
        if at.1 != monitor.workspaces.focused && at.1 == usize::MAX {
            turn::failed(there, screen, Error::NoWorkspaceAt(at.1))
        } else {
            match ready.workspaces.focused_element() {
                None => loaded(there, ready, screen, event),
                Some(workspace) => {
                    let shown = if workspace.leaves_monocle_for(hwnd) {
                        workspace::shown_again(screen, workspace)
                    } else {
                        screen
                    };
                    let fronted = ready.with_current(workspace.fronting(hwnd));
                    match workspace.unreachable_window(hwnd) {
                        Some(error) => turn::failed(
                            there.with_current_monitor(fronted),
                            shown,
                            error,
                        ),
                        None => loaded(there, fronted, shown, event),
                    }
                },
            }
        }
    }
}

/// Show the focused workspace of a monitor, stack its layers, lay it out, and go on.
pub open spec fn loaded(
    manager: ManagerView,
    monitor: MonitorView,
    screen: ScreenView,
    event: WindowManagerEvent,
) -> Turn {
    turn::done(
        manager.with_current_monitor(monitor.switched(screen.desktop.now_ms)),
        event_end::next(
            screen.followed_by(
                monitor.load_steps(manager.mouse_follows_focus, true),
            ).asking(Resume::UpdateMonitor(monitor.id)),
            EventStage::Reconciled,
            event,
        ),
    )
}

/// A window is shown. Pinned windows are looked after by their monitor alone, and a
/// window that the window manager itself uncloaked is where it belongs.
#[verifier::opaque]
pub open spec fn shown(
    manager: ManagerView,
    screen: ScreenView,
    context: ContextView,
    event: WindowManagerEvent,
) -> Turn {
    let hwnd = event.window_of().hwnd;
    if manager.pins(hwnd) {
        turn::done(manager, screen)
    } else if event is Uncloak && manager.expected_uncloaks.contains(hwnd) {
        event_end::settle(
            ManagerView { expected_uncloaks: manager.expected_uncloaks.remove(hwnd), ..manager },
            screen,
            context,
            event,
        )
    } else if manager.monitors.focused_element() is None {
        turn::failed(manager, screen, Error::NoMonitor)
    } else {
        match reconciliation(manager, hwnd) {
            Some(at) => if event is Manage {
                add_shown(manager, screen, context, event, true)
            } else {
                reconcile(manager, screen, event, at)
            },
            None => add_shown(manager, screen, context, event, true),
        }
    }
}

/// Whether a window belongs to a workspace that is not shown, on a monitor that is not
/// focused.
pub open spec fn is_elsewhere(manager: ManagerView, hwnd: isize) -> bool {
    manager.owner(hwnd) matches Some(at) && at.0 < manager.monitors.elements.len() && at.0
        != manager.monitors.focused && at.1
        != manager.monitors.elements[at.0 as int].workspaces.focused
}

/// Add a window that is shown to the focused workspace, unless it is held already.
#[verifier::opaque]
pub open spec fn add_shown(
    manager: ManagerView,
    screen: ScreenView,
    context: ContextView,
    event: WindowManagerEvent,
    proceed: bool,
) -> Turn {
    let window = event.window_of();
    let is_elsewhere = is_elsewhere(manager, window.hwnd);
    let hidden = if is_elsewhere {
        screen.hiding_window(window)
    } else {
        screen
    };
    if !proceed || is_elsewhere || manager.manages(window.hwnd) {
        event_end::settle(manager, hidden, context, event)
    } else {
        add_new(manager, hidden, context, event)
    }
}

/// Whether a rule of a list takes effect on a window whose texts are known.
pub open spec fn is_matched(
    list: Seq<MatchingRule>,
    hwnd: isize,
    rules: RuleSet,
    d: DesktopView,
) -> bool {
    let facts = d.at(hwnd);
    match (facts.title, facts.exe, facts.class, facts.path) {
        (Some(title), Some(exe), Some(class), Some(path)) => rules::last_match(
            list,
            WindowTexts { title: title@, exe: exe@, class: class@, path: path@ },
            rules.regex_identifiers@,
        ) is Some,
        _ => false,
    }
}

/// Whether a new window floats.
pub open spec fn floats_new(
    behaviour: WindowManagementBehaviour,
    should_float: bool,
    event: WindowManagerEvent,
) -> bool {
    behaviour.float_override || behaviour.floating_layer_override || (should_float && !(event
        is Manage))
}

/// Where a new floating window is placed.
pub open spec fn placement_of(behaviour: WindowManagementBehaviour) -> Placement {
    if behaviour.floating_layer_override {
        behaviour.floating_layer_placement
    } else if behaviour.float_override {
        behaviour.float_override_placement
    } else {
        behaviour.float_rule_placement
    }
}

/// Add a new window to the focused workspace.
#[verifier::opaque]
pub open spec fn add_new(
    manager: ManagerView,
    screen: ScreenView,
    context: ContextView,
    event: WindowManagerEvent,
) -> Turn {
    let window = event.window_of();
    let d = screen.desktop;
    let rules = context.rules;
    let behaviour = context.seen.behaviour;
    let should_float = is_matched(rules.floating_applications@, window.hwnd, rules, d);
    let pin = is_matched(rules.pinned_floating_applications@, window.hwnd, rules, d);
    match manager.workspace() {
        Err(error) => turn::failed(manager, screen, error),
        Ok(workspace) => if floats_new(behaviour, should_float, event) {
            add_float(manager, screen, context, event, workspace, pin)
        } else if workspace.monocle_container is Some {
            added(
                manager.with_workspace(
                    workspace.stacking_monocle(window).layered(WorkspaceLayer::Tiling),
                ),
                screen,
                event,
                workspace.layer,
                true,
            )
        } else {
            add_tile(manager, screen, event, workspace, behaviour.current_behaviour)
        },
    }
}

/// Add a new floating window to the focused workspace.
#[verifier::opaque]
pub open spec fn add_float(
    manager: ManagerView,
    screen: ScreenView,
    context: ContextView,
    event: WindowManagerEvent,
    workspace: WorkspaceView,
    pin: bool,
) -> Turn {
    let window = event.window_of();
    let placement = placement_of(context.seen.behaviour);
    let after = manager.with_workspace(
        WorkspaceView { layer: WorkspaceLayer::Floating, ..workspace.floating(window) },
    );
    let centred = if placement.centers() && workspace.tile {
        window::centring(
            window.hwnd,
            workspace.globals.work_area,
            placement is CenterAndResize,
            context.settings.floating_window_toggle_aspect_ratio,
            context.settings.animations,
            screen.desktop,
        )
    } else {
        Ok(Seq::empty())
    };
    match centred {
        Err(error) => turn::failed(after, screen, error),
        Ok(steps) => turn::done(
            after,
            event_end::next(
                screen.followed_by(steps).updating(false, false),
                EventStage::ShowFloated {
                    pin,
                    previous: workspace.layer,
                    had_monocle: workspace.monocle_container is Some,
                },
                event,
            ),
        ),
    }
}

/// Add a new tiled window to the focused workspace: in a container of its own, or to the
/// focused one.
#[verifier::opaque]
pub open spec fn add_tile(
    manager: ManagerView,
    screen: ScreenView,
    event: WindowManagerEvent,
    workspace: WorkspaceView,
    behaviour: WindowContainerBehaviour,
) -> Turn {
    let window = event.window_of();
    let stage = EventStage::ShowAdded { previous: workspace.layer, had_monocle: false };
    match behaviour {
        WindowContainerBehaviour::Create => turn::done(
            manager.with_workspace(
                workspace.containing(window).layered(WorkspaceLayer::Tiling),
            ),
            event_end::next(screen.updating(false, false), stage, event),
        ),
        WindowContainerBehaviour::Append => if workspace.containers.focused_element() is Some {
            turn::done(
                manager.with_workspace(
                    workspace.stacking(window).layered(WorkspaceLayer::Tiling),
                ),
                event_end::next(
                    screen.updating(true, false).taking(StepView::Send(Signal::UpdateStackbars)),
                    stage,
                    event,
                ),
            )
        } else {
            turn::failed(manager, screen, Error::NoContainer)
        },
    }
}

/// A new floating window is there. Where a rule pins it, it leaves the workspace again,
/// which may be empty then.
#[verifier::opaque]
pub open spec fn floated(
    manager: ManagerView,
    screen: ScreenView,
    context: ContextView,
    event: WindowManagerEvent,
    pin: bool,
    previous: WorkspaceLayer,
    had_monocle: bool,
) -> Turn {
    let hwnd = event.window_of().hwnd;
    match manager.monitors.focused_element() {
        Some(monitor) => if pin {
            added(
                manager.with_current_monitor(monitor.pinning(hwnd)),
                monitor.pinning(hwnd).with_pins(screen, context.settings),
                event,
                previous,
                had_monocle,
            )
        } else {
            added(manager, screen, event, previous, had_monocle)
        },
        None => added(manager, screen, event, previous, had_monocle),
    }
}

/// Whether a workspace holds a single window.
pub open spec fn is_lone(workspace: WorkspaceView) -> bool {
    ||| workspace.containers.elements.len() == 1 && workspace.floating_windows.elements.len() == 0
    ||| workspace.containers.elements.len() == 0 && workspace.floating_windows.elements.len() == 1
}

/// A new window is on its workspace. It gets the focus where new windows do, or where it
/// is the only one.
#[verifier::opaque]
pub open spec fn added(
    manager: ManagerView,
    screen: ScreenView,
    event: WindowManagerEvent,
    previous: WorkspaceLayer,
    had_monocle: bool,
) -> Turn {
    let hwnd = event.window_of().hwnd;
    let stage = EventStage::ShowFocused { previous };
    let focusing = screen.followed_by(
        window::focus_steps(hwnd, manager.mouse_follows_focus, screen.desktop),
    );
    if had_monocle {
        turn::done(manager, event_end::next(screen.updating(true, true), stage, event))
    } else if manager.focus_new_windows {
        turn::done(manager, event_end::next(focusing, stage, event))
    } else {
        match manager.workspace() {
            Err(error) => turn::failed(manager, screen, error),
            Ok(workspace) => turn::done(
                manager,
                event_end::next(
                    if is_lone(workspace) {
                        focusing
                    } else {
                        screen
                    },
                    stage,
                    event,
                ),
            ),
        }
    }
}

/// The layers follow the new window, and the pinned windows stay above a floating layer.
#[verifier::opaque]
pub open spec fn show_focused(
    manager: ManagerView,
    screen: ScreenView,
    context: ContextView,
    event: WindowManagerEvent,
    previous: WorkspaceLayer,
) -> Turn {
    match manager.workspace() {
        Err(error) => turn::failed(manager, screen, error),
        Ok(workspace) => {
            let monitor = manager.monitors.elements[manager.monitors.focused as int];
            let stacked = if previous != workspace.layer {
                monitor.stacked(screen, false, false, context.settings)
            } else {
                screen
            };
            let raised = if workspace.layer == WorkspaceLayer::Floating {
                stacked.followed_by(monitor.raise_pins_steps(stacked.desktop))
            } else {
                stacked
            };
            event_end::settle(manager, raised, context, event)
        },
    }
}

fn matches_list(
    list: &Vec<MatchingRule>,
    window: Window,
    rules: &RuleSet,
    desktop: &Desktop,
) -> (r: bool)
    requires
        rules.wf(),
    ensures
        r == is_matched(list@, window.hwnd, *rules, desktop@),
{
    match desktop.facts(window.hwnd) {
        Some(facts) => match (&facts.title, &facts.exe, &facts.class, &facts.path) {
            (Some(title), Some(exe), Some(class), Some(path)) => rules::should_act(
                title.as_str(),
                exe.as_str(),
                class.as_str(),
                path.as_str(),
                list,
                &rules.regex_identifiers,
            ).is_some(),
            _ => false,
        },
        None => false,
    }
}

impl Workspace {
    /// Whether the workspace holds a window in a stack that shows another one.
    fn is_buried(&self, hwnd: isize) -> (r: bool)
        ensures
            r == self@.buries(hwnd),
    {
        match &self.monocle_container {
            Some(monocle) => {
                if monocle.contains_window(hwnd) {
                    return match monocle.focused_window() {
                        Some(window) => window.hwnd != hwnd,
                        None => true,
                    };
                }
            },
            None => {},
        }
        match self.container_idx_for_window(hwnd) {
            Some(idx) => {
                assert(self@.containers.elements[idx as int]
                    == self.containers.elements@[idx as int]@);
                match self.containers.elements[idx].focused_window() {
                    Some(window) => window.hwnd != hwnd,
                    None => true,
                }
            },
            None => false,
        }
    }

    fn set_layer(&mut self, layer: WorkspaceLayer)
        ensures
            final(self)@ == old(self)@.layered(layer),
    {
        if !self.layer_lock {
            self.layer = layer;
        }
    }

    /// Bring a window to the front.
    fn bring_to_front(&mut self, hwnd: isize, screen: &mut Screen) -> (r: Result<(), Error>)
        ensures
            final(self)@ == old(self)@.fronting(hwnd),
            final(screen)@ == (if old(self)@.leaves_monocle_for(hwnd) {
                workspace::shown_again(old(screen)@, old(self)@)
            } else {
                old(screen)@
            }),
            r == (match old(self)@.unreachable_window(hwnd) {
                Some(error) => Err::<(), Error>(error),
                None => Ok(()),
            }),
    {
        let in_monocle = match &self.monocle_container {
            Some(monocle) => monocle.contains_window(hwnd),
            None => false,
        };
        if in_monocle {
            match self.monocle_container.take() {
                Some(mut monocle) => {
                    match monocle.idx_for_window(hwnd) {
                        Some(idx) => {
                            monocle.focus_window(idx);
                        },
                        None => {},
                    }
                    self.monocle_container = Some(monocle);
                },
                None => {},
            }
            self.set_layer(WorkspaceLayer::Tiling);
            return Ok(());
        }
        if self.contains_float(hwnd) {
            self.set_layer(WorkspaceLayer::Floating);
            return Ok(());
        }
        let is_maximized = match self.maximized_window {
            Some(window) => window.hwnd == hwnd,
            None => false,
        };
        if !is_maximized {
            if self.monocle_container.is_some() {
                self.show_again(screen);
                match self.reintegrate_monocle_container() {
                    Ok(()) => {},
                    Err(error) => {
                        return Err(error);
                    },
                }
            }
            match self.focus_container_by_window(hwnd) {
                Ok(()) => {},
                Err(error) => {
                    return Err(error);
                },
            }
        }
        self.set_layer(WorkspaceLayer::Tiling);
        Ok(())
    }
}

impl WindowManager {
    /// The place of a window to which the user went by themselves, where it is not at the
    /// front: on another workspace, or in a stack that shows another window.
    pub fn needs_reconciliation(&self, window: Window) -> (r: Result<Option<(usize, usize)>, Error>)
        ensures
            r == (if self@.monitors.focused_element() is Some {
                Ok::<Option<(usize, usize)>, Error>(reconciliation(self@, window.hwnd))
            } else {
                Err(Error::NoMonitor)
            }),
    {
        let focused_monitor_idx: usize = self.focused_monitor_idx();
        let monitor = match self.focused_monitor() {
            Some(monitor) => monitor,
            None => {
                return Err(Error::NoMonitor);
            },
        };
        match self.known(window.hwnd) {
            Some((m_idx, ws_idx)) => {
                if m_idx != focused_monitor_idx || ws_idx != monitor.focused_workspace_idx() {
                    return Ok(Some((m_idx, ws_idx)));
                }
                match monitor.focused_workspace() {
                    Some(workspace) => {
                        if workspace.is_buried(window.hwnd) {
                            return Ok(Some((m_idx, ws_idx)));
                        }
                    },
                    None => {},
                }
                Ok(None)
            },
            None => Ok(None),
        }
    }

    /// Focus the monitor, the workspace, the container and the window to which the user
    /// went by themselves.
    pub(crate) fn perform_reconciliation(
        &mut self,
        event: WindowManagerEvent,
        reconciliation_pair: (usize, usize),
        screen: &mut Screen,
    ) -> (r: Result<(), Error>)
        ensures
            (Turn { manager: final(self)@, screen: final(screen)@, result: r }) == reconcile(
                old(self)@,
                old(screen)@,
                event,
                reconciliation_pair,
            ),
    {
        proof {
            reveal(reconcile);
        }
        let (m_idx, ws_idx) = reconciliation_pair;
        match self.focus_monitor(m_idx) {
            Ok(()) => {},
            Err(error) => {
                return Err(error);
            },
        }
        let mouse_follows_focus = self.mouse_follows_focus;
        let ghost there = self@;
        let ghost monitors = self@.monitors.elements;
        let fronted = bring_place_to_front(
            &mut self.monitors.elements[m_idx],
            ws_idx,
            event.window(),
            mouse_follows_focus,
            screen,
        );
        assert(self@.monitors.elements =~= monitors.update(
            m_idx as int,
            self@.monitors.elements[m_idx as int],
        ));
        match fronted {
            Ok(()) => {},
            Err(error) => {
                proof {
                    if ws_idx != monitors[m_idx as int].workspaces.focused && ws_idx
                        == usize::MAX {
                        assert(self@.monitors.elements =~= monitors);
                    }
                }
                return Err(error);
            },
        }
        let id: isize = self.monitors.elements[m_idx].id;
        screen.ask(Resume::UpdateMonitor(id));
        screen.ask(Resume::Event(EventStage::Reconciled, event));
        Ok(())
    }
}

/// A monitor that shows a window to which the user went by themselves, and the screen.
spec fn fronted_monitor(monitor: MonitorView, ws_idx: usize, hwnd: isize) -> MonitorView {
    let ready = if ws_idx == monitor.workspaces.focused {
        monitor
    } else {
        monitor.focusing(ws_idx)
    };
    match ready.workspaces.focused_element() {
        Some(workspace) => ready.with_current(workspace.fronting(hwnd)),
        None => ready,
    }
}

spec fn fronted_workspace(monitor: MonitorView, ws_idx: usize) -> Option<WorkspaceView> {
    let ready = if ws_idx == monitor.workspaces.focused {
        monitor
    } else {
        monitor.focusing(ws_idx)
    };
    ready.workspaces.focused_element()
}

fn bring_place_to_front(
    monitor: &mut Monitor,
    ws_idx: usize,
    window: Window,
    mouse_follows_focus: bool,
    screen: &mut Screen,
) -> (r: Result<(), Error>)
    ensures
        ({
            let before = old(monitor)@;
            let after = fronted_monitor(before, ws_idx, window.hwnd);
            let workspace = fronted_workspace(before, ws_idx);
            let shown = if workspace matches Some(workspace) && workspace.leaves_monocle_for(
                window.hwnd,
            ) {
                workspace::shown_again(old(screen)@, workspace->0)
            } else {
                old(screen)@
            };
            if ws_idx != before.workspaces.focused && ws_idx == usize::MAX {
                &&& r == Err::<(), Error>(Error::NoWorkspaceAt(ws_idx))
                &&& final(monitor)@ == before
                &&& final(screen)@ == old(screen)@
            } else if workspace matches Some(workspace) && workspace.unreachable_window(
                window.hwnd,
            ) is Some {
                &&& r == Err::<(), Error>(workspace->0.unreachable_window(window.hwnd)->0)
                &&& final(monitor)@ == after
                &&& final(screen)@ == shown
            } else {
                &&& r is Ok
                &&& final(monitor)@ == after.switched(shown.desktop.now_ms)
                &&& final(screen)@ == shown.followed_by(
                    after.load_steps(mouse_follows_focus, true),
                )
                &&& final(monitor).id == before.id
            }
        }),
{
    if ws_idx != monitor.focused_workspace_idx() {
        match monitor.focus_workspace(ws_idx) {
            Ok(()) => {},
            Err(error) => {
                return Err(error);
            },
        }
    }
    match monitor.focused_workspace_mut() {
        Some(workspace) => {
            match workspace.bring_to_front(window.hwnd, screen) {
                Ok(()) => {},
                Err(error) => {
                    return Err(error);
                },
            }
        },
        None => {},
    }
    monitor.load_focused_workspace(mouse_follows_focus, true, screen);
    Ok(())
}

impl WindowManager {
    pub(crate) fn handle_shown(
        &mut self,
        event: WindowManagerEvent,
        context: &Context,
        screen: &mut Screen,
    ) -> (r: Result<(), Error>)
        requires
            context@.wf(),
        ensures
            (Turn { manager: final(self)@, screen: final(screen)@, result: r }) == shown(
                old(self)@,
                old(screen)@,
                context@,
                event,
            ),
    {
        proof {
            reveal(shown);
        }
        let window = event.window();
        if self.is_pinned(window.hwnd) {
            return Ok(());
        }
        if matches!(event, WindowManagerEvent::Uncloak(_, _)) {
            if self.consume_expected_uncloak(window.hwnd) {
                return self.settle_event(event, context, screen);
            }
        }
        let needs_reconciliation = match self.needs_reconciliation(window) {
            Ok(needs_reconciliation) => needs_reconciliation,
            Err(error) => {
                return Err(error);
            },
        };
        if !matches!(event, WindowManagerEvent::Manage(_)) {
            match needs_reconciliation {
                Some(pair) => {
                    return self.perform_reconciliation(event, pair, screen);
                },
                None => {},
            }
        }
        self.add_shown_window(event, true, context, screen)
    }

    /// Whether a window will be uncloaked by the window manager itself. It is not any
    /// more once it has been asked for.
    fn consume_expected_uncloak(&mut self, hwnd: isize) -> (r: bool)
        ensures
            r == old(self)@.expected_uncloaks.contains(hwnd),
            final(self)@ == (if r {
                ManagerView {
                    expected_uncloaks: old(self)@.expected_uncloaks.remove(hwnd),
                    ..old(self)@
                }
            } else {
                old(self)@
            }),
    {
        broadcast use vstd::std_specs::hash::group_hash_axioms;

        if self.expected_uncloaks.contains(&hwnd) {
            let _ = self.expected_uncloaks.remove(&hwnd);
            true
        } else {
            false
        }
    }

    fn is_shown_elsewhere(&self, hwnd: isize) -> (r: bool)
        ensures
            r == is_elsewhere(self@, hwnd),
    {
        match self.known(hwnd) {
            Some((m_idx, w_idx)) => {
                if m_idx < self.monitors.elements.len() {
                    assert(self@.monitors.elements[m_idx as int]
                        == self.monitors.elements@[m_idx as int]@);
                    m_idx != self.focused_monitor_idx() && w_idx
                        != self.monitors.elements[m_idx].focused_workspace_idx()
                } else {
                    false
                }
            },
            None => false,
        }
    }

    pub(crate) fn add_shown_window(
        &mut self,
        event: WindowManagerEvent,
        proceed: bool,
        context: &Context,
        screen: &mut Screen,
    ) -> (r: Result<(), Error>)
        requires
            context@.wf(),
        ensures
            (Turn { manager: final(self)@, screen: final(screen)@, result: r }) == add_shown(
                old(self)@,
                old(screen)@,
                context@,
                event,
                proceed,
            ),
    {
        proof {
            reveal(add_shown);
        }
        let window = event.window();
        let is_elsewhere = self.is_shown_elsewhere(window.hwnd);
        if is_elsewhere {
            window.hide_window(screen);
        }
        if !proceed || is_elsewhere || self.contains_window(window.hwnd) {
            self.settle_event(event, context, screen)
        } else {
            self.add_new_window(event, context, screen)
        }
    }

    fn add_new_window(
        &mut self,
        event: WindowManagerEvent,
        context: &Context,
        screen: &mut Screen,
    ) -> (r: Result<(), Error>)
        requires
            context@.wf(),
        ensures
            (Turn { manager: final(self)@, screen: final(screen)@, result: r }) == add_new(
                old(self)@,
                old(screen)@,
                context@,
                event,
            ),
    {
        proof {
            reveal(add_new);
        }
        let window = event.window();
        let rules = context.rules;
        let behaviour = context.seen.behaviour;
        let should_float = matches_list(
            &rules.floating_applications,
            window,
            rules,
            &screen.desktop,
        );
        let should_pin = matches_list(
            &rules.pinned_floating_applications,
            window,
            rules,
            &screen.desktop,
        );
        let has_monocle = match self.focused_workspace() {
            Ok(workspace) => workspace.monocle_container.is_some(),
            Err(error) => {
                return Err(error);
            },
        };
        if behaviour.float_override || behaviour.floating_layer_override || (should_float
            && !matches!(event, WindowManagerEvent::Manage(_))) {
            self.add_new_float(event, should_pin, context, screen)
        } else if has_monocle {
            self.add_new_monocle_window(event, screen)
        } else {
            self.add_new_tile(event, behaviour.current_behaviour, screen)
        }
    }

    fn add_new_monocle_window(&mut self, event: WindowManagerEvent, screen: &mut Screen) -> (r:
        Result<(), Error>)
        requires
            old(self)@.workspace() matches Ok(workspace) && workspace.monocle_container is Some,
        ensures
            (Turn { manager: final(self)@, screen: final(screen)@, result: r }) == added(
                old(self)@.with_workspace(
                    old(self)@.workspace()->Ok_0.stacking_monocle(event.window_of()).layered(
                        WorkspaceLayer::Tiling,
                    ),
                ),
                old(screen)@,
                event,
                old(self)@.workspace()->Ok_0.layer,
                true,
            ),
    {
        proof {
            reveal(added);
        }
        let window = event.window();
        let previous = match self.focused_workspace_mut() {
            Ok(workspace) => {
                let previous = workspace.layer;
                match workspace.monocle_container.take() {
                    Some(mut monocle) => {
                        monocle.add_window(window);
                        workspace.monocle_container = Some(monocle);
                    },
                    None => {},
                }
                workspace.set_layer(WorkspaceLayer::Tiling);
                previous
            },
            Err(error) => {
                return Err(error);
            },
        };
        self.focus_added_window(event, previous, true, screen)
    }

    fn add_new_float(
        &mut self,
        event: WindowManagerEvent,
        pin: bool,
        context: &Context,
        screen: &mut Screen,
    ) -> (r: Result<(), Error>)
        requires
            context@.wf(),
            old(self)@.workspace() is Ok,
        ensures
            (Turn { manager: final(self)@, screen: final(screen)@, result: r }) == add_float(
                old(self)@,
                old(screen)@,
                context@,
                event,
                old(self)@.workspace()->Ok_0,
                pin,
            ),
    {
        proof {
            reveal(add_float);
        }
        let window = event.window();
        let behaviour = context.seen.behaviour;
        let placement = if behaviour.floating_layer_override {
            behaviour.floating_layer_placement
        } else if behaviour.float_override {
            behaviour.float_override_placement
        } else {
            behaviour.float_rule_placement
        };
        let workspace = match self.focused_workspace_mut() {
            Ok(workspace) => workspace,
            Err(error) => {
                return Err(error);
            },
        };
        let previous = workspace.layer;
        let had_monocle = workspace.monocle_container.is_some();
        let center_spawned_floats = placement.should_center() && workspace.tile;
        let work_area = workspace.globals.work_area;
        workspace.floating_windows.elements.push(window);
        workspace.layer = WorkspaceLayer::Floating;
        if center_spawned_floats {
            let mut floating_window = window;
            match floating_window.center(
                &work_area,
                placement.should_resize(),
                context.settings.floating_window_toggle_aspect_ratio,
                &context.settings.animations,
                &screen.desktop,
                &mut screen.plan,
            ) {
                Ok(()) => {},
                Err(error) => {
                    return Err(error);
                },
            }
        } else {
            assert(screen@.followed_by(Seq::empty()).steps =~= screen@.steps);
        }
        screen.update(false, false);
        screen.ask(
            Resume::Event(EventStage::ShowFloated { pin, previous, had_monocle }, event),
        );
        Ok(())
    }

    fn add_new_tile(
        &mut self,
        event: WindowManagerEvent,
        behaviour: WindowContainerBehaviour,
        screen: &mut Screen,
    ) -> (r: Result<(), Error>)
        requires
            old(self)@.workspace() is Ok,
        ensures
            (Turn { manager: final(self)@, screen: final(screen)@, result: r }) == add_tile(
                old(self)@,
                old(screen)@,
                event,
                old(self)@.workspace()->Ok_0,
                behaviour,
            ),
    {
        proof {
            reveal(add_tile);
        }
        proof {
            window_manager::same_workspace(self@);
        }
        let window = event.window();
        let workspace = match self.focused_workspace_mut() {
            Ok(workspace) => workspace,
            Err(error) => {
                return Err(error);
            },
        };
        let previous = workspace.layer;
        match behaviour {
            WindowContainerBehaviour::Create => {
                workspace.new_container_for_window(window);
                workspace.set_layer(WorkspaceLayer::Tiling);
                screen.update(false, false);
            },
            WindowContainerBehaviour::Append => {
                match workspace.add_window_to_focused_container(window) {
                    Ok(()) => {},
                    Err(error) => {
                        return Err(error);
                    },
                }
                workspace.set_layer(WorkspaceLayer::Tiling);
                screen.update(true, false);
                screen.plan.send(Signal::UpdateStackbars);
            },
        }
        screen.ask(
            Resume::Event(EventStage::ShowAdded { previous, had_monocle: false }, event),
        );
        Ok(())
    }

    pub(crate) fn handle_floated(
        &mut self,
        event: WindowManagerEvent,
        pin: bool,
        previous: WorkspaceLayer,
        had_monocle: bool,
        context: &Context,
        screen: &mut Screen,
    ) -> (r: Result<(), Error>)
        ensures
            (Turn { manager: final(self)@, screen: final(screen)@, result: r }) == floated(
                old(self)@,
                old(screen)@,
                context@,
                event,
                pin,
                previous,
                had_monocle,
            ),
    {
        proof {
            reveal(floated);
        }
        if pin {
            match self.focused_monitor_mut() {
                Some(monitor) => {
                    monitor.pin_floating_window(event.hwnd());
                    let _ = monitor.apply_pin_visibility(context.settings, screen);
                },
                None => {},
            }
        }
        self.focus_added_window(event, previous, had_monocle, screen)
    }

    pub(crate) fn focus_added_window(
        &mut self,
        event: WindowManagerEvent,
        previous: WorkspaceLayer,
        had_monocle: bool,
        screen: &mut Screen,
    ) -> (r: Result<(), Error>)
        ensures
            (Turn { manager: final(self)@, screen: final(screen)@, result: r }) == added(
                old(self)@,
                old(screen)@,
                event,
                previous,
                had_monocle,
            ),
    {
        proof {
            reveal(added);
        }
        let window = event.window();
        if had_monocle {
            screen.update(true, true);
        } else {
            let focuses = if self.focus_new_windows {
                true
            } else {
                match self.focused_workspace() {
                    Ok(workspace) => {
                        let containers: usize = workspace.containers().len();
                        let floats: usize = workspace.floating_windows().len();
                        (containers == 1 && floats == 0) || (containers == 0 && floats == 1)
                    },
                    Err(error) => {
                        return Err(error);
                    },
                }
            };
            if focuses {
                window.focus(self.mouse_follows_focus, &screen.desktop, &mut screen.plan);
            }
        }
        screen.ask(Resume::Event(EventStage::ShowFocused { previous }, event));
        Ok(())
    }

    pub(crate) fn handle_show_focused(
        &mut self,
        event: WindowManagerEvent,
        previous: WorkspaceLayer,
        context: &Context,
        screen: &mut Screen,
    ) -> (r: Result<(), Error>)
        requires
            context@.wf(),
        ensures
            (Turn { manager: final(self)@, screen: final(screen)@, result: r }) == show_focused(
                old(self)@,
                old(screen)@,
                context@,
                event,
                previous,
            ),
    {
        proof {
            reveal(show_focused);
        }
        match self.focused_monitor() {
            Some(monitor) => match monitor.focused_workspace() {
                Some(workspace) => {
                    if previous != workspace.layer {
                        let _ = monitor.enforce_layer_stack(context.settings, screen);
                    }
                    if workspace.layer == WorkspaceLayer::Floating {
                        let _ = monitor.raise_pinned_windows(&screen.desktop, &mut screen.plan);
                    }
                },
                None => {
                    return Err(Error::NoWorkspace);
                },
            },
            None => {
                return Err(Error::NoMonitor);
            },
        }
        self.settle_event(event, context, screen)
    }
}

} // verus!
