//! A monitor: its workspaces, its pinned windows, and how they are stacked.

use std::collections::HashMap;
use vstd::prelude::*;

use crate::apply_worker;
use crate::apply_worker::ApplyOpView;
use crate::apply_worker::Batch;
use crate::container;
use crate::container::Container;
use crate::container::ContainerView;
use crate::desktop::DesktopView;
use crate::error::Error;
use crate::geometry;
use crate::geometry::Layout;
use crate::geometry::OperationDirection;
use crate::geometry::Rect;
use crate::plan::Call;
use crate::plan::StepView;
use crate::ring::Ring;
use crate::ring::RingView;
use crate::settings::Settings;
use crate::wallpaper_worker::Wallpaper;
use crate::window;
use crate::window::Screen;
use crate::window::Window;
use crate::workspace;
use crate::workspace::FloatingLayerBehaviour;
use crate::workspace::Workspace;
use crate::workspace::WorkspaceView;
use crate::workspace::WorkspaceGlobals;

verus! {

/// How long, in milliseconds, the events that follow a switch take to settle.
pub const STABILIZATION_GRACE_MS: u64 = 400;

#[derive(Debug)]
pub struct Monitor {
    pub id: isize,
    pub name: String,
    pub device: String,
    pub device_id: String,
    pub serial_number_id: Option<String>,
    pub size: Rect,
    pub work_area_size: Rect,
    pub work_area_offset: Option<Rect>,
    pub window_based_work_area_offset: Option<Rect>,
    pub window_based_work_area_offset_limit: isize,
    pub workspaces: Ring<Workspace>,
    pub last_focused_workspace: Option<usize>,
    /// Epoch milliseconds of the last switch of the workspace or the monitor.
    pub last_switch_at: Option<u64>,
    pub workspace_names: HashMap<usize, String>,
    pub container_padding: Option<i32>,
    pub workspace_padding: Option<i32>,
    pub wallpaper: Option<Wallpaper>,
    pub floating_layer_behaviour: Option<FloatingLayerBehaviour>,
    /// The floating windows that are visible on all workspaces of the monitor. They
    /// belong to no workspace.
    pub pinned_floating: Vec<isize>,
    /// The pinned windows that stay above everything else. Only pinned windows are in it.
    pub pinned_always_on_top: Vec<isize>,
}

/// A monitor, for contracts.
#[verifier::ext_equal]
pub struct MonitorView {
    pub id: isize,
    pub name: String,
    pub device: String,
    pub device_id: String,
    pub serial_number_id: Option<String>,
    pub size: Rect,
    pub work_area_size: Rect,
    pub work_area_offset: Option<Rect>,
    pub window_based_work_area_offset: Option<Rect>,
    pub window_based_work_area_offset_limit: isize,
    pub workspaces: RingView<WorkspaceView>,
    pub last_focused_workspace: Option<usize>,
    pub last_switch_at: Option<u64>,
    pub workspace_names: Map<usize, String>,
    pub container_padding: Option<i32>,
    pub workspace_padding: Option<i32>,
    pub wallpaper: Option<Wallpaper>,
    pub floating_layer_behaviour: Option<FloatingLayerBehaviour>,
    pub pinned_floating: Seq<isize>,
    pub pinned_always_on_top: Seq<isize>,
}

impl View for Monitor {
    type V = MonitorView;

    open spec fn view(&self) -> MonitorView {
        MonitorView {
            id: self.id,
            name: self.name,
            device: self.device,
            device_id: self.device_id,
            serial_number_id: self.serial_number_id,
            size: self.size,
            work_area_size: self.work_area_size,
            work_area_offset: self.work_area_offset,
            window_based_work_area_offset: self.window_based_work_area_offset,
            window_based_work_area_offset_limit: self.window_based_work_area_offset_limit,
            workspaces: self.workspaces@,
            last_focused_workspace: self.last_focused_workspace,
            last_switch_at: self.last_switch_at,
            workspace_names: self.workspace_names@,
            container_padding: self.container_padding,
            workspace_padding: self.workspace_padding,
            wallpaper: self.wallpaper,
            floating_layer_behaviour: self.floating_layer_behaviour,
            pinned_floating: self.pinned_floating@,
            pinned_always_on_top: self.pinned_always_on_top@,
        }
    }
}

/// What identifies a monitor.
#[derive(Debug)]
pub struct MonitorInformation {
    pub id: isize,
    pub name: String,
    pub device: String,
    pub device_id: String,
    pub serial_number_id: Option<String>,
    pub size: Rect,
}

impl MonitorInformation {
    pub fn from_monitor(monitor: &Monitor) -> (r: Self)
        ensures
            r == (MonitorInformation {
                id: monitor.id,
                name: monitor.name,
                device: monitor.device,
                device_id: monitor.device_id,
                serial_number_id: monitor.serial_number_id,
                size: monitor.size,
            }),
    {
        MonitorInformation {
            id: monitor.id,
            name: monitor.name.clone(),
            device: monitor.device.clone(),
            device_id: monitor.device_id.clone(),
            serial_number_id: match &monitor.serial_number_id {
                Some(serial_number_id) => Some(serial_number_id.clone()),
                None => None,
            },
            size: monitor.size,
        }
    }
}

/// A monitor on which nothing has been configured, focused, pinned or named yet.
pub open spec fn unset(
    id: isize,
    size: Rect,
    work_area_size: Rect,
    name: String,
    device: String,
    device_id: String,
    serial_number_id: Option<String>,
    window_based_work_area_offset_limit: isize,
    workspaces: Seq<WorkspaceView>,
) -> MonitorView {
    MonitorView {
        id,
        name,
        device,
        device_id,
        serial_number_id,
        size,
        work_area_size,
        work_area_offset: None,
        window_based_work_area_offset: None,
        window_based_work_area_offset_limit,
        workspaces: RingView { elements: workspaces, focused: 0 },
        last_focused_workspace: None,
        last_switch_at: None,
        workspace_names: Map::empty(),
        container_padding: None,
        workspace_padding: None,
        wallpaper: None,
        floating_layer_behaviour: None,
        pinned_floating: Seq::empty(),
        pinned_always_on_top: Seq::empty(),
    }
}

/// A monitor with one empty workspace.
pub fn new(
    id: isize,
    size: Rect,
    work_area_size: Rect,
    name: String,
    device: String,
    device_id: String,
    serial_number_id: Option<String>,
) -> (r: Monitor)
    ensures
        r@ == unset(
            id,
            size,
            work_area_size,
            name,
            device,
            device_id,
            serial_number_id,
            1,
            seq![workspace::fresh()],
        ),
{
    let mut workspaces: Ring<Workspace> = Ring::new();
    workspaces.elements.push(Workspace::default());
    Monitor {
        id,
        name,
        device,
        device_id,
        serial_number_id,
        size,
        work_area_size,
        work_area_offset: None,
        window_based_work_area_offset: None,
        window_based_work_area_offset_limit: 1,
        workspaces,
        last_focused_workspace: None,
        last_switch_at: None,
        workspace_names: HashMap::new(),
        container_padding: None,
        workspace_padding: None,
        wallpaper: None,
        floating_layer_behaviour: None,
        pinned_floating: Vec::new(),
        pinned_always_on_top: Vec::new(),
    }
}

/// Handles as windows.
pub open spec fn as_windows(hwnds: Seq<isize>) -> Seq<Window> {
    hwnds.map_values(|hwnd: isize| Window { hwnd })
}

/// Raise windows one after the other: above the active window, or to the top of the
/// normal band.
pub open spec fn raise_each(climb: bool, windows: Seq<Window>, d: DesktopView) -> Seq<StepView> {
    windows.map_values(
        |window: Window|
            StepView::Apply(
                ApplyOpView::Windows(
                    if climb {
                        Batch::RaiseAboveActive
                    } else {
                        Batch::Raise
                    },
                    seq![apply_worker::captured(window, d)],
                ),
            ),
    )
}

/// Whether an unmanaged window belongs to the layer of ignored windows.
pub open spec fn ignored_candidate(
    is_managed: bool,
    is_normal: bool,
    is_fullscreen: bool,
    is_widget: bool,
) -> bool {
    !is_managed && (is_normal || is_fullscreen || is_widget)
}

/// Whether one of the workspaces holds a window.
pub open spec fn any_has(workspaces: Seq<WorkspaceView>, hwnd: isize) -> bool {
    exists|i: int| 0 <= i < workspaces.len() && (#[trigger] workspaces[i]).has(hwnd)
}

/// Whether a window may be moved together with the ignored windows: all but widgets in
/// the topmost band.
pub open spec fn demotable(hwnd: isize, d: DesktopView) -> bool {
    !(window::looks_like_widget(d.at(hwnd)) && window::is_topmost(d.at(hwnd)))
}

/// A workspace with the name that is configured for it, where one is.
pub open spec fn named(workspace: WorkspaceView, name: Option<String>) -> WorkspaceView {
    match name {
        Some(_) => WorkspaceView { name, ..workspace },
        None => workspace,
    }
}

/// Workspaces with as many new ones as it takes to have a number of them.
pub open spec fn extended(workspaces: Seq<WorkspaceView>, len: int) -> Seq<WorkspaceView> {
    if workspaces.len() < len {
        workspaces + Seq::new((len - workspaces.len()) as nat, |i: int| workspace::fresh())
    } else {
        workspaces
    }
}

impl MonitorView {
    /// Only pinned windows are always on top, and no window is pinned twice.
    pub open spec fn pins_wf(self) -> bool {
        &&& self.pinned_floating.no_duplicates()
        &&& self.pinned_always_on_top.no_duplicates()
        &&& forall|i: int|
            0 <= i < self.pinned_always_on_top.len() ==> self.pinned_floating.contains(
                #[trigger] self.pinned_always_on_top[i],
            )
    }

    /// The monitor with another workspace at an index.
    pub open spec fn with_workspace(self, idx: int, workspace: WorkspaceView) -> MonitorView {
        MonitorView { workspaces: self.workspaces.updated(idx, workspace), ..self }
    }

    /// The monitor with at least a number of workspaces.
    pub open spec fn extending(self, len: int) -> MonitorView {
        MonitorView {
            workspaces: self.workspaces.with(extended(self.workspaces.elements, len)),
            ..self
        }
    }

    /// The name that is configured for the workspace at an index.
    pub open spec fn configured_name(self, idx: usize) -> Option<String> {
        if self.workspace_names.contains_key(idx) {
            Some(self.workspace_names[idx])
        } else {
            None
        }
    }

    /// The monitor with the focus on the workspace at an index, which is created where
    /// there is none. It remembers the one that it focused before.
    pub open spec fn focusing(self, idx: usize) -> MonitorView {
        let ready = self.extending(idx + 1).workspaces;
        MonitorView {
            workspaces: ready.updated(
                idx as int,
                named(ready.elements[idx as int], self.configured_name(idx)),
            ).focusing(idx as int),
            last_focused_workspace: Some(self.workspaces.focused),
            ..self
        }
    }

    /// The workspace to which an operation applies: the one at an index, or the focused
    /// one.
    pub open spec fn chosen_workspace(self, idx: Option<usize>) -> Result<int, Error> {
        let len = self.workspaces.elements.len();
        match idx {
            Some(idx) => if idx < len {
                Ok(idx as int)
            } else {
                Err(Error::NoWorkspaceAt(idx))
            },
            None => if self.workspaces.focused < len {
                Ok(self.workspaces.focused as int)
            } else {
                Err(Error::NoWorkspace)
            },
        }
    }

    /// The monitor with a container added to one of its workspaces.
    pub open spec fn placing(
        self,
        idx: int,
        container: ContainerView,
        direction: Option<OperationDirection>,
    ) -> MonitorView {
        let workspace = self.workspaces.elements[idx];
        self.with_workspace(
            idx,
            workspace.adding_container(workspace.entry(direction), container),
        )
    }

    /// What the workspaces take over from the monitor.
    pub open spec fn globals(self, offset: Option<Rect>, settings: Settings) -> WorkspaceGlobals {
        WorkspaceGlobals {
            container_padding: if self.container_padding is Some {
                self.container_padding
            } else {
                Some(settings.default_container_padding)
            },
            workspace_padding: if self.workspace_padding is Some {
                self.workspace_padding
            } else {
                Some(settings.default_workspace_padding)
            },
            border_width: if settings.border.enabled {
                settings.border.width
            } else {
                0
            },
            border_offset: if settings.border.enabled {
                settings.border.offset
            } else {
                0
            },
            work_area: self.work_area_size,
            work_area_offset: if self.work_area_offset is Some {
                self.work_area_offset
            } else {
                offset
            },
            window_based_work_area_offset: self.window_based_work_area_offset,
            window_based_work_area_offset_limit: self.window_based_work_area_offset_limit,
            floating_layer_behaviour: self.floating_layer_behaviour,
        }
    }

    /// The monitor with the globals handed down to all workspaces.
    pub open spec fn with_globals(self, offset: Option<Rect>, settings: Settings) -> MonitorView {
        let globals = self.globals(offset, settings);
        MonitorView {
            workspaces: self.workspaces.with(
                self.workspaces.elements.map_values(
                    |workspace: WorkspaceView| WorkspaceView { globals, ..workspace },
                ),
            ),
            ..self
        }
    }

    /// The monitor with the globals handed down to the workspace at an index, where there
    /// is one.
    pub open spec fn with_globals_at(
        self,
        idx: int,
        offset: Option<Rect>,
        settings: Settings,
    ) -> MonitorView {
        if 0 <= idx < self.workspaces.elements.len() {
            self.with_workspace(
                idx,
                WorkspaceView {
                    globals: self.globals(offset, settings),
                    ..self.workspaces.elements[idx]
                },
            )
        } else {
            self
        }
    }
}

impl Monitor {
    pub fn new(
        id: isize,
        size: Rect,
        work_area_size: Rect,
        name: String,
        device: String,
        device_id: String,
        serial_number_id: Option<String>,
    ) -> (r: Self)
        ensures
            r@ == unset(
                id,
                size,
                work_area_size,
                name,
                device,
                device_id,
                serial_number_id,
                1,
                seq![workspace::fresh()],
            ),
    {
        new(id, size, work_area_size, name, device, device_id, serial_number_id)
    }

    /// A stand-in for a monitor that is not connected.
    pub fn placeholder() -> (r: Self)
        ensures
            r@ == unset(
                0,
                geometry::zero_rect(),
                geometry::zero_rect(),
                r.name,
                r.device,
                r.device_id,
                None,
                0,
                Seq::empty(),
            ),
            r.name@ == "PLACEHOLDER"@,
            r.device@ == ""@,
            r.device_id@ == ""@,
    {
        Monitor {
            id: 0,
            name: "PLACEHOLDER".to_owned(),
            device: "".to_owned(),
            device_id: "".to_owned(),
            serial_number_id: None,
            size: Rect::default(),
            work_area_size: Rect::default(),
            work_area_offset: None,
            window_based_work_area_offset: None,
            window_based_work_area_offset_limit: 0,
            workspaces: Ring::new(),
            last_focused_workspace: None,
            last_switch_at: None,
            workspace_names: HashMap::new(),
            container_padding: None,
            workspace_padding: None,
            wallpaper: None,
            floating_layer_behaviour: None,
            pinned_floating: Vec::new(),
            pinned_always_on_top: Vec::new(),
        }
    }

    pub fn workspaces(&self) -> (r: &Vec<Workspace>)
        ensures
            *r == self.workspaces.elements,
            r@.map_values(|workspace: Workspace| workspace@) == self@.workspaces.elements,
    {
        &self.workspaces.elements
    }

    pub fn workspaces_mut(&mut self) -> (r: &mut Vec<Workspace>)
        ensures
            *r == old(self).workspaces.elements,
            final(self)@ == (MonitorView {
                workspaces: old(self)@.workspaces.with(
                    final(r)@.map_values(|workspace: Workspace| workspace@),
                ),
                ..old(self)@
            }),
    {
        self.workspaces.elements_mut()
    }

    pub fn focused_workspace(&self) -> (r: Option<&Workspace>)
        ensures
            match r {
                Some(workspace) => self@.workspaces.focused_element() == Some(workspace@)
                    && self.workspaces.focused < self.workspaces.elements@.len() && *workspace
                    == self.workspaces.elements@[self.workspaces.focused as int],
                None => self@.workspaces.focused_element() is None,
            },
    {
        self.workspaces.focused()
    }

    pub fn focused_workspace_mut(&mut self) -> (r: Option<&mut Workspace>)
        ensures
            match r {
                Some(workspace) => old(self)@.workspaces.focused_element() == Some(workspace@)
                    && final(self)@ == old(self)@.with_workspace(
                    old(self)@.workspaces.focused as int,
                    final(workspace)@,
                ),
                None => old(self)@.workspaces.focused_element() is None && final(self)@ == old(
                    self)@,
            },
    {
        self.workspaces.focused_mut()
    }

    pub fn focused_workspace_idx(&self) -> (r: usize)
        ensures
            r == self@.workspaces.focused,
    {
        self.workspaces.focused_idx()
    }

    pub fn focused_workspace_name(&self) -> (r: Option<String>)
        ensures
            r == (match self@.workspaces.focused_element() {
                Some(workspace) => workspace.name,
                None => None,
            }),
    {
        match self.focused_workspace() {
            Some(workspace) => match &workspace.name {
                Some(name) => Some(name.clone()),
                None => None,
            },
            None => None,
        }
    }

    /// The layout of the focused workspace, where it tiles its windows.
    pub fn focused_workspace_layout(&self) -> (r: Option<Layout>)
        ensures
            r == (match self@.workspaces.focused_element() {
                Some(workspace) => if workspace.tile {
                    Some(workspace.layout)
                } else {
                    None
                },
                None => None,
            }),
    {
        match self.focused_workspace() {
            Some(workspace) => if workspace.tile {
                Some(workspace.layout)
            } else {
                None
            },
            None => None,
        }
    }

    fn current_globals(&self, offset: Option<Rect>, settings: &Settings) -> (r: WorkspaceGlobals)
        ensures
            r == self@.globals(offset, *settings),
    {
        WorkspaceGlobals {
            container_padding: if self.container_padding.is_some() {
                self.container_padding
            } else {
                Some(settings.default_container_padding)
            },
            workspace_padding: if self.workspace_padding.is_some() {
                self.workspace_padding
            } else {
                Some(settings.default_workspace_padding)
            },
            border_width: if settings.border.enabled {
                settings.border.width
            } else {
                0
            },
            border_offset: if settings.border.enabled {
                settings.border.offset
            } else {
                0
            },
            work_area: self.work_area_size,
            work_area_offset: if self.work_area_offset.is_some() {
                self.work_area_offset
            } else {
                offset
            },
            window_based_work_area_offset: self.window_based_work_area_offset,
            window_based_work_area_offset_limit: self.window_based_work_area_offset_limit,
            floating_layer_behaviour: self.floating_layer_behaviour,
        }
    }

    /// Hand the globals down to all workspaces.
    pub fn update_workspaces_globals(&mut self, offset: Option<Rect>, settings: &Settings)
        ensures
            final(self)@ == old(self)@.with_globals(offset, *settings),
    {
        let globals = self.current_globals(offset, settings);
        let ghost before = self@;
        let mut i: usize = 0;
        while i < self.workspaces.elements.len()
            invariant
                i <= self.workspaces.elements@.len(),
                self@ == (MonitorView { workspaces: self@.workspaces, ..before }),
                self@.workspaces.focused == before.workspaces.focused,
                self@.workspaces.elements.len() == before.workspaces.elements.len(),
                forall|k: int|
                    0 <= k < i ==> #[trigger] self@.workspaces.elements[k] == (WorkspaceView {
                        globals,
                        ..before.workspaces.elements[k]
                    }),
                forall|k: int|
                    i <= k < before.workspaces.elements.len()
                        ==> #[trigger] self@.workspaces.elements[k]
                        == before.workspaces.elements[k],
            decreases self.workspaces.elements@.len() - i,
        {
            let ghost workspaces = self@.workspaces.elements;
            self.workspaces.elements[i].globals = globals;
            assert(self@.workspaces.elements =~= workspaces.update(
                i as int,
                WorkspaceView { globals, ..workspaces[i as int] },
            ));
            i = i + 1;
        }
        assert(self@.workspaces.elements =~= before.with_globals(
            offset,
            *settings,
        ).workspaces.elements);
    }

    /// Hand the globals down to the workspace at an index, where there is one.
    pub fn update_workspace_globals(
        &mut self,
        workspace_idx: usize,
        offset: Option<Rect>,
        settings: &Settings,
    )
        ensures
            final(self)@ == old(self)@.with_globals_at(workspace_idx as int, offset, *settings),
    {
        let globals = self.current_globals(offset, settings);
        if workspace_idx < self.workspaces.elements.len() {
            self.workspaces.elements[workspace_idx].globals = globals;
            assert(self@.workspaces.elements =~= old(self)@.with_globals_at(
                workspace_idx as int,
                offset,
                *settings,
            ).workspaces.elements);
        }
    }

    fn chosen(&self, workspace_idx: Option<usize>) -> (r: Result<usize, Error>)
        ensures
            match r {
                Ok(at) => self@.chosen_workspace(workspace_idx) == Ok::<int, Error>(at as int),
                Err(error) => self@.chosen_workspace(workspace_idx) == Err::<int, Error>(error),
            },
    {
        let len: usize = self.workspaces.elements.len();
        match workspace_idx {
            Some(idx) => if idx < len {
                Ok(idx)
            } else {
                Err(Error::NoWorkspaceAt(idx))
            },
            None => if self.workspaces.focused < len {
                Ok(self.workspaces.focused)
            } else {
                Err(Error::NoWorkspace)
            },
        }
    }

    /// Add a container at the back of the workspace at an index, or of the focused one.
    pub fn add_container(&mut self, container: Container, workspace_idx: Option<usize>) -> (r:
        Result<(), Error>)
        ensures
            match old(self)@.chosen_workspace(workspace_idx) {
                Ok(at) => r is Ok && final(self)@ == old(self)@.placing(at, container@, None),
                Err(error) => r == Err::<(), Error>(error) && final(self)@ == old(self)@,
            },
    {
        match self.chosen(workspace_idx) {
            Ok(at) => {
                let ghost after = self@.placing(at as int, container@, None);
                self.workspaces.elements[at].add_container_to_back(container);
                assert(self@.workspaces.elements =~= after.workspaces.elements);
                Ok(())
            },
            Err(error) => Err(error),
        }
    }

    /// Add a container to the workspace at an index, or to the focused one, where it
    /// comes in from a direction. The direction is that of the move, from where the
    /// container was to where it goes.
    pub fn add_container_with_direction(
        &mut self,
        container: Container,
        workspace_idx: Option<usize>,
        direction: OperationDirection,
    ) -> (r: Result<(), Error>)
        ensures
            match old(self)@.chosen_workspace(workspace_idx) {
                Ok(at) => r is Ok && final(self)@ == old(self)@.placing(
                    at,
                    container@,
                    Some(direction),
                ),
                Err(error) => r == Err::<(), Error>(error) && final(self)@ == old(self)@,
            },
    {
        match self.chosen(workspace_idx) {
            Ok(at) => {
                let ghost after = self@.placing(at as int, container@, Some(direction));
                self.workspaces.elements[at].add_container_from(container, direction);
                assert(self@.workspaces.elements =~= after.workspaces.elements);
                Ok(())
            },
            Err(error) => Err(error),
        }
    }

    /// Take the workspace at an index out. Where there is none, the workspace before the
    /// index is focused, and a monitor without any workspace gets a new one.
    pub fn remove_workspace_by_idx(&mut self, idx: usize) -> (r: Option<Workspace>)
        ensures
            match r {
                Some(workspace) => idx < old(self)@.workspaces.elements.len() && workspace@
                    == old(self)@.workspaces.elements[idx as int] && final(self)@ == (
                MonitorView {
                    workspaces: old(self)@.workspaces.with(
                        old(self)@.workspaces.elements.remove(idx as int),
                    ),
                    ..old(self)@
                }),
                None => idx >= old(self)@.workspaces.elements.len() && final(self)@ == (if idx
                    == 0 {
                    old(self)@.extending(1)
                } else {
                    old(self)@.focusing((idx - 1) as usize)
                }),
            },
    {
        if idx < self.workspaces.elements.len() {
            let workspace = self.workspaces.elements.remove(idx);
            assert(self@.workspaces.elements =~= old(self)@.workspaces.elements.remove(
                idx as int,
            ));
            return Some(workspace);
        }
        if idx == 0 {
            self.ensure_workspace_count(1);
        } else {
            let _ = self.focus_workspace(idx - 1);
        }
        None
    }

    /// Create workspaces until there are as many as asked for.
    pub fn ensure_workspace_count(&mut self, ensure_count: usize)
        ensures
            final(self)@ == old(self)@.extending(ensure_count as int),
            final(self).workspaces.elements@.len() >= ensure_count,
    {
        let ghost before = self@;
        while self.workspaces.elements.len() < ensure_count
            invariant
                self@ == (MonitorView { workspaces: self@.workspaces, ..before }),
                self@.workspaces.focused == before.workspaces.focused,
                before.workspaces.elements.len() <= self@.workspaces.elements.len(),
                self@.workspaces.elements.len() <= ensure_count || self@.workspaces.elements.len()
                    == before.workspaces.elements.len(),
                forall|i: int|
                    0 <= i < before.workspaces.elements.len()
                        ==> #[trigger] self@.workspaces.elements[i]
                        == before.workspaces.elements[i],
                forall|i: int|
                    before.workspaces.elements.len() <= i < self@.workspaces.elements.len()
                        ==> #[trigger] self@.workspaces.elements[i] == workspace::fresh(),
            decreases ensure_count - self.workspaces.elements@.len(),
        {
            let ghost workspaces = self@.workspaces.elements;
            self.workspaces.elements.push(Workspace::default());
            assert(self@.workspaces.elements =~= workspaces.push(workspace::fresh()));
        }
        assert(self@.workspaces.elements =~= extended(
            before.workspaces.elements,
            ensure_count as int,
        ));
    }

    /// Take all workspaces out.
    pub fn remove_workspaces(&mut self) -> (r: Vec<Workspace>)
        ensures
            r@ == old(self).workspaces.elements@,
            final(self)@ == (MonitorView {
                workspaces: old(self)@.workspaces.with(Seq::empty()),
                ..old(self)@
            }),
    {
        let mut removed: Vec<Workspace> = Vec::new();
        removed.append(&mut self.workspaces.elements);
        assert(self@.workspaces.elements =~= Seq::<WorkspaceView>::empty());
        removed
    }

    /// Focus the workspace at an index. It is created where there is none, together with
    /// those before it, and gets the name that is configured for it. There is no room for
    /// a workspace at the last index of all.
    pub fn focus_workspace(&mut self, idx: usize) -> (r: Result<(), Error>)
        ensures
            if idx < usize::MAX {
                r is Ok && final(self)@ == old(self)@.focusing(idx)
            } else {
                r == Err::<(), Error>(Error::NoWorkspaceAt(idx)) && final(self)@ == old(self)@
            },
    {
        broadcast use vstd::std_specs::hash::group_hash_axioms;

        if idx == usize::MAX {
            return Err(Error::NoWorkspaceAt(idx));
        }
        self.ensure_workspace_count(idx + 1);
        self.last_focused_workspace = Some(self.workspaces.focused_idx());
        self.workspaces.focus(idx);
        let name = match self.workspace_names.get(&idx) {
            Some(name) => Some(name.clone()),
            None => None,
        };
        if name.is_some() {
            self.workspaces.elements[idx].name = name;
        }
        assert(self@.workspaces.elements =~= old(self)@.focusing(idx).workspaces.elements);
        Ok(())
    }

    /// The index that a new workspace gets.
    pub fn new_workspace_idx(&self) -> (r: usize)
        ensures
            r == self@.workspaces.elements.len(),
    {
        self.workspaces.elements.len()
    }

    /// Lay the focused workspace out anew, and look again at whether the pinned windows
    /// are shown: what was added or removed may have left it empty or not.
    pub fn update_focused_workspace(
        &mut self,
        offset: Option<Rect>,
        settings: &Settings,
        screen: &mut Screen,
    ) -> (r: Result<(), Error>)
        ensures
            if old(self)@.workspaces.focused_element() is Some {
                &&& r is Ok
                &&& final(self)@ == old(self)@.with_globals_at(
                    old(self)@.workspaces.focused as int,
                    offset,
                    *settings,
                )
                &&& final(screen)@ == old(self)@.updated_screen(old(screen)@, *settings)
            } else {
                &&& r == Err::<(), Error>(Error::NoWorkspace)
                &&& final(self)@ == old(self)@
                &&& final(screen)@ == old(screen)@
            },
    {
        let offset = if self.work_area_offset.is_some() {
            self.work_area_offset
        } else {
            offset
        };
        let focused_workspace_idx: usize = self.focused_workspace_idx();
        let ghost before = self@;
        self.update_workspace_globals(focused_workspace_idx, offset, settings);
        if focused_workspace_idx >= self.workspaces.elements.len() {
            assert(self@ == before);
            return Err(Error::NoWorkspace);
        }
        let call = Call::UpdateWorkspace { monitor: self.id, workspace: focused_workspace_idx };
        let ghost steps = screen@.steps;
        screen.plan.call(call);
        assert(screen@.steps =~= steps + seq![StepView::Do(call)]);
        self.ask_for_pins(settings, screen);
        Ok(())
    }
}

/// Focusing a workspace by its index leads to it: it has the focus then, the one that had it
/// is remembered, and all workspaces that were there keep what they hold. Where there was
/// none, empty ones are created up to it.
pub proof fn workspaces_are_focused_where_they_are(monitor: MonitorView, idx: usize)
    ensures
        ({
            let before = monitor.workspaces.elements;
            let after = monitor.focusing(idx).workspaces.elements;
            &&& monitor.focusing(idx).workspaces.focused == idx
            &&& monitor.focusing(idx).last_focused_workspace == Some(monitor.workspaces.focused)
            &&& after.len() == if idx < before.len() {
                before.len() as int
            } else {
                idx + 1
            }
            &&& forall|w: int|
                0 <= w < before.len() ==> (#[trigger] after[w]).containers == before[w].containers
                    && after[w].floating_windows == before[w].floating_windows
                    && after[w].monocle_container == before[w].monocle_container
                    && after[w].maximized_window == before[w].maximized_window
                    && after[w].layer == before[w].layer
            &&& forall|w: int|
                before.len() <= w < after.len() ==> (
                #[trigger] after[w]).containers.elements.len() == 0
                    && after[w].floating_windows.elements.len() == 0
                    && after[w].monocle_container is None && after[w].maximized_window is None
            &&& monitor.workspace_names.contains_key(idx) ==> after[idx as int].name == Some(
                monitor.workspace_names[idx],
            )
            &&& monitor.focusing(idx).pinned_floating == monitor.pinned_floating
            &&& monitor.focusing(idx).pinned_always_on_top == monitor.pinned_always_on_top
        }),
{
}

/// A container that is added to a workspace is there then and has the focus, and all other
/// containers stay in their order. Without a direction it comes last, from above or below it
/// takes the place of the focused one.
pub proof fn added_containers_are_there(
    monitor: MonitorView,
    idx: int,
    container: ContainerView,
    direction: Option<OperationDirection>,
)
    requires
        0 <= idx < monitor.workspaces.elements.len(),
        monitor.workspaces.elements[idx].containers.elements.len() < usize::MAX,
    ensures
        ({
            let before = monitor.workspaces.elements[idx].containers;
            let added = monitor.placing(idx, container, direction);
            let after = added.workspaces.elements[idx].containers;
            let at = after.focused as int;
            &&& 0 <= at <= before.elements.len()
            &&& after.elements == before.elements.insert(at, container)
            &&& after.elements[at] == container
            &&& direction is None ==> at == before.elements.len()
            &&& (direction == Some(OperationDirection::Up) || direction == Some(
                OperationDirection::Down,
            )) && before.focused < before.elements.len() ==> at == before.focused
            &&& added.workspaces.focused == monitor.workspaces.focused
            &&& forall|w: int|
                0 <= w < monitor.workspaces.elements.len() && w != idx
                    ==> #[trigger] added.workspaces.elements[w] == monitor.workspaces.elements[w]
        }),
{
}

/// What a workspace takes over from its monitor: the monitor's own values, and those for all
/// monitors where it has none.
pub proof fn workspaces_take_over_from_their_monitor(
    monitor: MonitorView,
    offset: Option<Rect>,
    settings: Settings,
    w: int,
)
    requires
        0 <= w < monitor.workspaces.elements.len(),
    ensures
        ({
            let globals = monitor.with_globals(offset, settings).workspaces.elements[w].globals;
            &&& monitor.with_globals_at(w, offset, settings).workspaces.elements[w].globals
                == globals
            &&& globals.work_area == monitor.work_area_size
            &&& monitor.container_padding is Some ==> globals.container_padding
                == monitor.container_padding
            &&& monitor.container_padding is None ==> globals.container_padding == Some(
                settings.default_container_padding,
            )
            &&& monitor.workspace_padding is Some ==> globals.workspace_padding
                == monitor.workspace_padding
            &&& monitor.workspace_padding is None ==> globals.workspace_padding == Some(
                settings.default_workspace_padding,
            )
            &&& monitor.work_area_offset is Some ==> globals.work_area_offset
                == monitor.work_area_offset
            &&& monitor.work_area_offset is None ==> globals.work_area_offset == offset
            &&& settings.border.enabled ==> globals.border_width == settings.border.width
                && globals.border_offset == settings.border.offset
            &&& !settings.border.enabled ==> globals.border_width == 0 && globals.border_offset
                == 0
        }),
{
}

} // verus!
