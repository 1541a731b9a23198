//! The state of the window manager.

use std::collections::HashMap;
use std::collections::HashSet;
use vstd::prelude::*;

use crate::behaviour::FocusFollowsMouseImplementation;
use crate::behaviour::MonocleFocusBehaviour;
use crate::behaviour::MoveBehaviour;
use crate::behaviour::OperationBehaviour;
use crate::behaviour::Placement;
use crate::behaviour::WindowManagementBehaviour;
use crate::behaviour::WorkspaceLayerFocusBehaviour;
use crate::error::Error;
use crate::geometry::Rect;
use crate::monitor::Monitor;
use crate::monitor::MonitorView;
use crate::ring::Ring;
use crate::ring::RingView;
use crate::settings::DEFAULT_FOCUS_NEW_WINDOWS;
use crate::settings::DEFAULT_KEEP_MONOCLE_ON_WINDOW_CLOSE;
use crate::settings::DEFAULT_MOUSE_FOLLOWS_FOCUS;
use crate::settings::DEFAULT_RESIZE_DELTA;
use crate::workspace::WindowContainerBehaviour;
use crate::workspace::Workspace;
use crate::workspace::WorkspaceView;

verus! {

pub struct WindowManager {
    pub monitors: Ring<Monitor>,
    pub is_paused: bool,
    /// The virtual desktop on which windows are managed.
    pub virtual_desktop_id: Option<Vec<u8>>,
    /// The virtual desktop on which the last event or command was handled.
    pub last_virtual_desktop_id: Option<Vec<u8>>,
    pub work_area_offset: Option<Rect>,
    /// The indices of the monitor and the workspace of each managed window.
    pub known_hwnds: HashMap<isize, (usize, usize)>,
    /// The windows that a workspace rule has moved already.
    pub already_moved_window_handles: HashSet<isize>,
    /// The windows that will be uncloaked by an operation of the window manager itself.
    pub expected_uncloaks: HashSet<isize>,
    /// The monitor, workspace and window of a move with the mouse that has begun.
    pub pending_move_op: Option<(usize, usize, isize)>,
    pub has_pending_raise_op: bool,
    pub mouse_follows_focus: bool,
    pub focus_new_windows: bool,
    pub keep_monocle_on_window_close: bool,
    pub focus_follows_mouse: Option<FocusFollowsMouseImplementation>,
    pub resize_delta: i32,
    pub window_management_behaviour: WindowManagementBehaviour,
    pub workspace_layer_focus_behaviour: WorkspaceLayerFocusBehaviour,
    pub cross_monitor_move_behaviour: MoveBehaviour,
    pub monocle_focus_behaviour: MonocleFocusBehaviour,
    pub unmanaged_window_operation_behaviour: OperationBehaviour,
}

/// The state of the window manager, for contracts.
#[verifier::ext_equal]
pub struct ManagerView {
    pub monitors: RingView<MonitorView>,
    pub is_paused: bool,
    pub virtual_desktop_id: Option<Seq<u8>>,
    pub last_virtual_desktop_id: Option<Seq<u8>>,
    pub work_area_offset: Option<Rect>,
    pub known_hwnds: Map<isize, (usize, usize)>,
    pub already_moved_window_handles: Set<isize>,
    pub expected_uncloaks: Set<isize>,
    pub pending_move_op: Option<(usize, usize, isize)>,
    pub has_pending_raise_op: bool,
    pub mouse_follows_focus: bool,
    pub focus_new_windows: bool,
    pub keep_monocle_on_window_close: bool,
    pub focus_follows_mouse: Option<FocusFollowsMouseImplementation>,
    pub resize_delta: i32,
    pub window_management_behaviour: WindowManagementBehaviour,
    pub workspace_layer_focus_behaviour: WorkspaceLayerFocusBehaviour,
    pub cross_monitor_move_behaviour: MoveBehaviour,
    pub monocle_focus_behaviour: MonocleFocusBehaviour,
    pub unmanaged_window_operation_behaviour: OperationBehaviour,
}

/// The bytes of an identifier.
pub open spec fn bytes_of(id: Option<Vec<u8>>) -> Option<Seq<u8>> {
    match id {
        Some(bytes) => Some(bytes@),
        None => None,
    }
}

impl View for WindowManager {
    type V = ManagerView;

    open spec fn view(&self) -> ManagerView {
        ManagerView {
            monitors: self.monitors@,
            is_paused: self.is_paused,
            virtual_desktop_id: bytes_of(self.virtual_desktop_id),
            last_virtual_desktop_id: bytes_of(self.last_virtual_desktop_id),
            work_area_offset: self.work_area_offset,
            known_hwnds: self.known_hwnds@,
            already_moved_window_handles: self.already_moved_window_handles@,
            expected_uncloaks: self.expected_uncloaks@,
            pending_move_op: self.pending_move_op,
            has_pending_raise_op: self.has_pending_raise_op,
            mouse_follows_focus: self.mouse_follows_focus,
            focus_new_windows: self.focus_new_windows,
            keep_monocle_on_window_close: self.keep_monocle_on_window_close,
            focus_follows_mouse: self.focus_follows_mouse,
            resize_delta: self.resize_delta,
            window_management_behaviour: self.window_management_behaviour,
            workspace_layer_focus_behaviour: self.workspace_layer_focus_behaviour,
            cross_monitor_move_behaviour: self.cross_monitor_move_behaviour,
            monocle_focus_behaviour: self.monocle_focus_behaviour,
            unmanaged_window_operation_behaviour: self.unmanaged_window_operation_behaviour,
        }
    }
}

impl ManagerView {
    /// A manager that does not know any monitor yet.
    pub open spec fn initial() -> ManagerView {
        ManagerView {
            monitors: RingView::empty(),
            is_paused: false,
            virtual_desktop_id: None,
            last_virtual_desktop_id: None,
            work_area_offset: None,
            known_hwnds: Map::empty(),
            already_moved_window_handles: Set::empty(),
            expected_uncloaks: Set::empty(),
            pending_move_op: None,
            has_pending_raise_op: false,
            mouse_follows_focus: DEFAULT_MOUSE_FOLLOWS_FOCUS,
            focus_new_windows: DEFAULT_FOCUS_NEW_WINDOWS,
            keep_monocle_on_window_close: DEFAULT_KEEP_MONOCLE_ON_WINDOW_CLOSE,
            focus_follows_mouse: None,
            resize_delta: DEFAULT_RESIZE_DELTA,
            window_management_behaviour: WindowManagementBehaviour {
                current_behaviour: WindowContainerBehaviour::Create,
                float_override: false,
                floating_layer_override: false,
                floating_layer_placement: Placement::Center,
                float_override_placement: Placement::Unplaced,
                float_rule_placement: Placement::Unplaced,
            },
            workspace_layer_focus_behaviour: WorkspaceLayerFocusBehaviour::RespectLock,
            cross_monitor_move_behaviour: MoveBehaviour::Swap,
            monocle_focus_behaviour: MonocleFocusBehaviour::NoOp,
            unmanaged_window_operation_behaviour: OperationBehaviour::Op,
        }
    }

    /// The focused monitor.
    pub open spec fn monitor(self) -> Result<MonitorView, Error> {
        match self.monitors.focused_element() {
            Some(monitor) => Ok(monitor),
            None => Err(Error::NoMonitor),
        }
    }

    /// The focused workspace of the focused monitor.
    pub open spec fn workspace(self) -> Result<WorkspaceView, Error> {
        match self.monitors.focused_element() {
            Some(monitor) => match monitor.workspaces.focused_element() {
                Some(workspace) => Ok(workspace),
                None => Err(Error::NoWorkspace),
            },
            None => Err(Error::NoMonitor),
        }
    }

    /// The manager with another monitor at an index.
    pub open spec fn with_monitor(self, idx: int, monitor: MonitorView) -> ManagerView {
        ManagerView { monitors: self.monitors.updated(idx, monitor), ..self }
    }

    /// The manager with another focused monitor.
    pub open spec fn with_current_monitor(self, monitor: MonitorView) -> ManagerView {
        self.with_monitor(self.monitors.focused as int, monitor)
    }

    /// The manager with another focused workspace.
    pub open spec fn with_workspace(self, workspace: WorkspaceView) -> ManagerView {
        self.with_current_monitor(
            self.monitors.elements[self.monitors.focused as int].with_current(workspace),
        )
    }

    /// The manager with the focus on the workspace at an index of the focused monitor, which
    /// is created where there is none.
    pub open spec fn focusing_workspace(self, idx: usize) -> ManagerView {
        match self.monitors.focused_element() {
            Some(monitor) => self.with_current_monitor(monitor.focusing(idx)),
            None => self,
        }
    }

    /// The manager with the focus on the monitor at an index.
    pub open spec fn focusing_monitor(self, idx: int) -> ManagerView {
        ManagerView { monitors: self.monitors.focusing(idx), ..self }
    }

    /// Whether a switch is settling on one of the monitors.
    pub open spec fn any_settling(self, now_ms: u64) -> bool {
        exists|i: int|
            0 <= i < self.monitors.elements.len() && (#[trigger] self.monitors.elements[i]).settling(
                now_ms,
            )
    }

    /// Whether a workspace of one of the monitors holds a window.
    pub open spec fn manages(self, hwnd: isize) -> bool {
        exists|i: int|
            0 <= i < self.monitors.elements.len() && crate::monitor::any_has(
                (#[trigger] self.monitors.elements[i]).workspaces.elements,
                hwnd,
            )
    }

    /// Whether a window is pinned on one of the monitors.
    pub open spec fn pins(self, hwnd: isize) -> bool {
        exists|i: int|
            0 <= i < self.monitors.elements.len() && (
            #[trigger] self.monitors.elements[i]).pinned_floating.contains(hwnd)
    }
}

/// Putting the focused workspace where it is changes nothing.
pub proof fn same_workspace(manager: ManagerView)
    requires
        manager.workspace() is Ok,
    ensures
        manager.with_workspace(manager.workspace()->Ok_0) == manager,
{
    let monitor = manager.monitors.elements[manager.monitors.focused as int];
    let workspace = manager.workspace()->Ok_0;
    assert(monitor.with_current(workspace).workspaces.elements =~= monitor.workspaces.elements);
    assert(manager.with_workspace(workspace).monitors.elements =~= manager.monitors.elements);
}

/// Of two workspaces that take the place of the focused one, the last stays.
pub proof fn replaced_workspace(manager: ManagerView, first: WorkspaceView, second: WorkspaceView)
    requires
        manager.workspace() is Ok,
    ensures
        manager.with_workspace(first).workspace() == Ok::<WorkspaceView, Error>(first),
        manager.with_workspace(first).with_workspace(second) == manager.with_workspace(second),
{
    let at = manager.monitors.focused as int;
    let monitor = manager.monitors.elements[at];
    assert(monitor.with_current(first).with_current(second).workspaces.elements
        =~= monitor.with_current(second).workspaces.elements);
    assert(manager.with_workspace(first).with_workspace(second).monitors.elements
        =~= manager.with_workspace(second).monitors.elements);
}

impl WindowManager {
    /// A manager that does not know any monitor yet.
    pub fn new() -> (r: Self)
        ensures
            r@ == ManagerView::initial(),
    {
        broadcast use vstd::std_specs::hash::group_hash_axioms;

        let r = WindowManager {
            monitors: Ring::new(),
            is_paused: false,
            virtual_desktop_id: None,
            last_virtual_desktop_id: None,
            work_area_offset: None,
            known_hwnds: HashMap::new(),
            already_moved_window_handles: HashSet::new(),
            expected_uncloaks: HashSet::new(),
            pending_move_op: None,
            has_pending_raise_op: false,
            mouse_follows_focus: DEFAULT_MOUSE_FOLLOWS_FOCUS,
            focus_new_windows: DEFAULT_FOCUS_NEW_WINDOWS,
            keep_monocle_on_window_close: DEFAULT_KEEP_MONOCLE_ON_WINDOW_CLOSE,
            focus_follows_mouse: None,
            resize_delta: DEFAULT_RESIZE_DELTA,
            window_management_behaviour: WindowManagementBehaviour {
                current_behaviour: WindowContainerBehaviour::Create,
                float_override: false,
                floating_layer_override: false,
                floating_layer_placement: Placement::Center,
                float_override_placement: Placement::Unplaced,
                float_rule_placement: Placement::Unplaced,
            },
            workspace_layer_focus_behaviour: WorkspaceLayerFocusBehaviour::RespectLock,
            cross_monitor_move_behaviour: MoveBehaviour::Swap,
            monocle_focus_behaviour: MonocleFocusBehaviour::NoOp,
            unmanaged_window_operation_behaviour: OperationBehaviour::Op,
        };
        assert(r@ =~= ManagerView::initial());
        r
    }

    pub fn monitors(&self) -> (r: &Vec<Monitor>)
        ensures
            *r == self.monitors.elements,
            r@.map_values(|monitor: Monitor| monitor@) == self@.monitors.elements,
    {
        &self.monitors.elements
    }

    pub fn monitors_mut(&mut self) -> (r: &mut Vec<Monitor>)
        ensures
            *r == old(self).monitors.elements,
            final(self)@ == (ManagerView {
                monitors: old(self)@.monitors.with(
                    final(r)@.map_values(|monitor: Monitor| monitor@),
                ),
                ..old(self)@
            }),
    {
        self.monitors.elements_mut()
    }

    pub fn focused_monitor_idx(&self) -> (r: usize)
        ensures
            r == self@.monitors.focused,
    {
        self.monitors.focused_idx()
    }

    pub fn focused_monitor(&self) -> (r: Option<&Monitor>)
        ensures
            match r {
                Some(monitor) => self@.monitors.focused_element() == Some(monitor@),
                None => self@.monitors.focused_element() is None,
            },
    {
        self.monitors.focused()
    }

    pub fn focused_monitor_mut(&mut self) -> (r: Option<&mut Monitor>)
        ensures
            match r {
                Some(monitor) => old(self)@.monitors.focused_element() == Some(monitor@)
                    && final(self)@ == old(self)@.with_current_monitor(final(monitor)@),
                None => old(self)@.monitors.focused_element() is None && final(self)@ == old(
                    self)@,
            },
    {
        self.monitors.focused_mut()
    }

    pub fn focus_monitor(&mut self, idx: usize) -> (r: Result<(), Error>)
        ensures
            if idx < old(self)@.monitors.elements.len() {
                r is Ok && final(self)@ == old(self)@.focusing_monitor(idx as int)
            } else {
                r == Err::<(), Error>(Error::NoMonitorAt(idx)) && final(self)@ == old(self)@
            },
    {
        if idx < self.monitors.elements.len() {
            self.monitors.focus(idx);
            Ok(())
        } else {
            Err(Error::NoMonitorAt(idx))
        }
    }

    /// Focus the workspace at an index of the focused monitor. There is no room for a
    /// workspace at the last index of all.
    pub fn focus_workspace(&mut self, idx: usize) -> (r: Result<(), Error>)
        ensures
            if old(self)@.monitors.focused_element() is None {
                r == Err::<(), Error>(Error::NoMonitor) && final(self)@ == old(self)@
            } else if idx < usize::MAX {
                r is Ok && final(self)@ == old(self)@.focusing_workspace(idx)
            } else {
                r == Err::<(), Error>(Error::NoWorkspaceAt(idx)) && final(self)@ == old(self)@
            },
    {
        match self.focused_monitor_mut() {
            Some(monitor) => monitor.focus_workspace(idx),
            None => Err(Error::NoMonitor),
        }
    }

    pub fn focused_workspace(&self) -> (r: Result<&Workspace, Error>)
        ensures
            match r {
                Ok(workspace) => self@.workspace() == Ok::<WorkspaceView, Error>(workspace@),
                Err(error) => self@.workspace() == Err::<WorkspaceView, Error>(error),
            },
    {
        match self.focused_monitor() {
            Some(monitor) => match monitor.focused_workspace() {
                Some(workspace) => Ok(workspace),
                None => Err(Error::NoWorkspace),
            },
            None => Err(Error::NoMonitor),
        }
    }

    pub fn focused_workspace_mut(&mut self) -> (r: Result<&mut Workspace, Error>)
        ensures
            match r {
                Ok(workspace) => old(self)@.workspace() == Ok::<WorkspaceView, Error>(workspace@)
                    && final(self)@ == old(self)@.with_workspace(final(workspace)@),
                Err(error) => old(self)@.workspace() == Err::<WorkspaceView, Error>(error)
                    && final(self)@ == old(self)@,
            },
    {
        match self.focused_monitor_mut() {
            Some(monitor) => match monitor.focused_workspace_mut() {
                Some(workspace) => Ok(workspace),
                None => Err(Error::NoWorkspace),
            },
            None => Err(Error::NoMonitor),
        }
    }

    pub fn focused_workspace_idx(&self) -> (r: Result<usize, Error>)
        ensures
            r == (match self@.monitor() {
                Ok(monitor) => Ok::<usize, Error>(monitor.workspaces.focused),
                Err(error) => Err(error),
            }),
    {
        match self.focused_monitor() {
            Some(monitor) => Ok(monitor.focused_workspace_idx()),
            None => Err(Error::NoMonitor),
        }
    }

    /// Whether a switch is settling on one of the monitors.
    pub fn any_monitor_switch_settling(&self, now_ms: u64) -> (r: bool)
        ensures
            r == self@.any_settling(now_ms),
    {
        let mut i: usize = 0;
        while i < self.monitors.elements.len()
            invariant
                i <= self.monitors.elements@.len(),
                forall|k: int|
                    0 <= k < i ==> !(#[trigger] self@.monitors.elements[k]).settling(now_ms),
            decreases self.monitors.elements@.len() - i,
        {
            if self.monitors.elements[i].within_switch_stabilization(now_ms) {
                assert(self@.monitors.elements[i as int].settling(now_ms));
                return true;
            }
            i = i + 1;
        }
        false
    }

    /// Whether a workspace of one of the monitors holds a window.
    pub fn contains_window(&self, hwnd: isize) -> (r: bool)
        ensures
            r == self@.manages(hwnd),
    {
        let mut i: usize = 0;
        while i < self.monitors.elements.len()
            invariant
                i <= self.monitors.elements@.len(),
                forall|k: int|
                    0 <= k < i ==> !crate::monitor::any_has(
                        (#[trigger] self@.monitors.elements[k]).workspaces.elements,
                        hwnd,
                    ),
            decreases self.monitors.elements@.len() - i,
        {
            if self.monitors.elements[i].any_workspace_contains(hwnd) {
                assert(crate::monitor::any_has(
                    self@.monitors.elements[i as int].workspaces.elements,
                    hwnd,
                ));
                return true;
            }
            i = i + 1;
        }
        false
    }

    /// Whether a window is pinned on one of the monitors.
    pub fn is_pinned(&self, hwnd: isize) -> (r: bool)
        ensures
            r == self@.pins(hwnd),
    {
        let mut i: usize = 0;
        while i < self.monitors.elements.len()
            invariant
                i <= self.monitors.elements@.len(),
                forall|k: int|
                    0 <= k < i ==> !(
                    #[trigger] self@.monitors.elements[k]).pinned_floating.contains(hwnd),
            decreases self.monitors.elements@.len() - i,
        {
            if self.monitors.elements[i].is_pinned(hwnd) {
                assert(self@.monitors.elements[i as int].pinned_floating.contains(hwnd));
                return true;
            }
            i = i + 1;
        }
        false
    }

    /// The monitor and the workspace of a managed window.
    pub fn known(&self, hwnd: isize) -> (r: Option<(usize, usize)>)
        ensures
            r == (if self@.known_hwnds.contains_key(hwnd) {
                Some(self@.known_hwnds[hwnd])
            } else {
                None
            }),
    {
        broadcast use vstd::std_specs::hash::group_hash_axioms;

        match self.known_hwnds.get(&hwnd) {
            Some(pair) => Some(*pair),
            None => None,
        }
    }
}

} // verus!
