//! A workspace: tiled containers, floating windows, and what is maximized above them.

use vstd::prelude::*;

use crate::container;
use crate::container::Container;
use crate::container::ContainerView;
use crate::error::Error;
use crate::geometry;
use crate::geometry::DefaultLayout;
use crate::geometry::Layout;
use crate::geometry::OperationDirection;
use crate::geometry::Rect;
use crate::ring::Ring;
use crate::ring::RingView;
use crate::window::Screen;
use crate::window::ScreenView;
use crate::window::Window;

verus! {

/// Which windows of a workspace are on top.
#[derive(Clone, Copy, Debug, PartialEq, Eq, Structural)]
pub enum WorkspaceLayer {
    Tiling,
    Floating,
}

/// What happens to new windows while the floating layer is on top.
#[derive(Clone, Copy, Debug, PartialEq, Eq, Structural)]
pub enum FloatingLayerBehaviour {
    Tile,
    Float,
}

/// What happens to new windows in the tiling layer.
#[derive(Clone, Copy, Debug, PartialEq, Eq, Structural)]
pub enum WindowContainerBehaviour {
    /// They get a container of their own.
    Create,
    /// They join the focused container.
    Append,
}

/// What a workspace takes over from its monitor when it is laid out.
#[derive(Clone, Copy, Debug, PartialEq, Eq, Structural)]
pub struct WorkspaceGlobals {
    pub container_padding: Option<i32>,
    pub workspace_padding: Option<i32>,
    pub border_width: i32,
    pub border_offset: i32,
    pub work_area: Rect,
    pub work_area_offset: Option<Rect>,
    pub window_based_work_area_offset: Option<Rect>,
    pub window_based_work_area_offset_limit: isize,
    pub floating_layer_behaviour: Option<FloatingLayerBehaviour>,
}

/// How a workspace scrolls through its containers.
#[derive(Clone, Copy, Debug, PartialEq, Eq, Structural)]
pub struct ScrollingLayoutOptions {
    /// How many columns are visible.
    pub columns: usize,
    pub center_focused_column: Option<bool>,
}

/// The grid and the ratios of a layout, kept by the layout engine under a handle.
#[derive(Clone, Copy, Debug, PartialEq, Eq, Structural)]
pub struct LayoutRatios {
    pub handle: u64,
}

#[derive(Clone, Copy, Debug, PartialEq, Eq, Structural)]
pub struct LayoutOptions {
    pub scrolling: Option<ScrollingLayoutOptions>,
    pub ratios: Option<LayoutRatios>,
}

#[derive(Debug)]
pub struct Workspace {
    pub name: Option<String>,
    pub containers: Ring<Container>,
    /// The container that fills the workspace, and the index to which it returns.
    pub monocle_container: Option<Container>,
    pub monocle_container_restore_idx: Option<usize>,
    /// The window that is maximized natively.
    pub maximized_window: Option<Window>,
    pub floating_windows: Ring<Window>,
    pub layout: Layout,
    pub layer: WorkspaceLayer,
    /// The layer was chosen by a command and is kept when the focus changes.
    pub layer_lock: bool,
    pub tile: bool,
    pub globals: WorkspaceGlobals,
    /// The rectangles of the containers as they were laid out last.
    pub latest_layout: Vec<Rect>,
    pub last_focused_hwnd: Option<isize>,
    /// The float, own or pinned, that was used last.
    pub last_focused_floating_hwnd: Option<isize>,
    pub last_focused_cycle_window_hwnd: Option<isize>,
    /// The unmanaged windows were raised above the managed ones by a command.
    pub ignored_windows_above_managed: bool,
    pub preselected_container_idx: Option<usize>,
    pub work_area_offset: Option<Rect>,
    pub apply_window_based_work_area_offset: bool,
    pub window_container_behaviour: Option<WindowContainerBehaviour>,
    pub float_override: Option<bool>,
    pub container_padding: Option<i32>,
    pub workspace_padding: Option<i32>,
    pub layout_options: Option<LayoutOptions>,
    /// The layouts that the workspace gets from a number of containers on.
    pub layout_rules: Vec<(usize, Layout)>,
    /// By how much each container was resized.
    pub resize_dimensions: Vec<Option<Rect>>,
}

/// A workspace, for contracts.
#[verifier::ext_equal]
pub struct WorkspaceView {
    pub name: Option<String>,
    pub containers: RingView<ContainerView>,
    pub monocle_container: Option<ContainerView>,
    pub monocle_container_restore_idx: Option<usize>,
    pub maximized_window: Option<Window>,
    pub floating_windows: RingView<Window>,
    pub layout: Layout,
    pub layer: WorkspaceLayer,
    pub layer_lock: bool,
    pub tile: bool,
    pub globals: WorkspaceGlobals,
    pub latest_layout: Seq<Rect>,
    pub last_focused_hwnd: Option<isize>,
    pub last_focused_floating_hwnd: Option<isize>,
    pub last_focused_cycle_window_hwnd: Option<isize>,
    pub ignored_windows_above_managed: bool,
    pub preselected_container_idx: Option<usize>,
    pub work_area_offset: Option<Rect>,
    pub apply_window_based_work_area_offset: bool,
    pub window_container_behaviour: Option<WindowContainerBehaviour>,
    pub float_override: Option<bool>,
    pub container_padding: Option<i32>,
    pub workspace_padding: Option<i32>,
    pub layout_options: Option<LayoutOptions>,
    pub layout_rules: Seq<(usize, Layout)>,
    pub resize_dimensions: Seq<Option<Rect>>,
}

impl View for Workspace {
    type V = WorkspaceView;

    open spec fn view(&self) -> WorkspaceView {
        WorkspaceView {
            name: self.name,
            containers: self.containers@,
            monocle_container: match self.monocle_container {
                Some(monocle) => Some(monocle@),
                None => None,
            },
            monocle_container_restore_idx: self.monocle_container_restore_idx,
            maximized_window: self.maximized_window,
            floating_windows: RingView {
                elements: self.floating_windows.elements@,
                focused: self.floating_windows.focused,
            },
            layout: self.layout,
            layer: self.layer,
            layer_lock: self.layer_lock,
            tile: self.tile,
            globals: self.globals,
            latest_layout: self.latest_layout@,
            last_focused_hwnd: self.last_focused_hwnd,
            last_focused_floating_hwnd: self.last_focused_floating_hwnd,
            last_focused_cycle_window_hwnd: self.last_focused_cycle_window_hwnd,
            ignored_windows_above_managed: self.ignored_windows_above_managed,
            preselected_container_idx: self.preselected_container_idx,
            work_area_offset: self.work_area_offset,
            apply_window_based_work_area_offset: self.apply_window_based_work_area_offset,
            window_container_behaviour: self.window_container_behaviour,
            float_override: self.float_override,
            container_padding: self.container_padding,
            workspace_padding: self.workspace_padding,
            layout_options: self.layout_options,
            layout_rules: self.layout_rules@,
            resize_dimensions: self.resize_dimensions@,
        }
    }
}

/// The globals before a monitor has set them.
pub open spec fn unset_globals() -> WorkspaceGlobals {
    WorkspaceGlobals {
        container_padding: None,
        workspace_padding: None,
        border_width: 0,
        border_offset: 0,
        work_area: geometry::zero_rect(),
        work_area_offset: None,
        window_based_work_area_offset: None,
        window_based_work_area_offset_limit: 0,
        floating_layer_behaviour: None,
    }
}

/// A workspace as it is created.
pub open spec fn fresh() -> WorkspaceView {
    WorkspaceView {
        name: None,
        containers: RingView::empty(),
        monocle_container: None,
        monocle_container_restore_idx: None,
        maximized_window: None,
        floating_windows: RingView::empty(),
        layout: Layout::Default(DefaultLayout::BSP),
        layer: WorkspaceLayer::Tiling,
        layer_lock: false,
        tile: true,
        globals: unset_globals(),
        latest_layout: Seq::empty(),
        last_focused_hwnd: None,
        last_focused_floating_hwnd: None,
        last_focused_cycle_window_hwnd: None,
        ignored_windows_above_managed: false,
        preselected_container_idx: None,
        work_area_offset: None,
        apply_window_based_work_area_offset: true,
        window_container_behaviour: None,
        float_override: None,
        container_padding: None,
        workspace_padding: None,
        layout_options: None,
        layout_rules: Seq::empty(),
        resize_dimensions: Seq::empty(),
    }
}

impl Default for Workspace {
    fn default() -> (r: Self)
        ensures
            r@ == fresh(),
    {
        Workspace {
            name: None,
            containers: Ring::new(),
            monocle_container: None,
            monocle_container_restore_idx: None,
            maximized_window: None,
            floating_windows: Ring::new(),
            layout: Layout::Default(DefaultLayout::BSP),
            layer: WorkspaceLayer::Tiling,
            layer_lock: false,
            tile: true,
            globals: WorkspaceGlobals {
                container_padding: None,
                workspace_padding: None,
                border_width: 0,
                border_offset: 0,
                work_area: Rect { left: 0, top: 0, right: 0, bottom: 0 },
                work_area_offset: None,
                window_based_work_area_offset: None,
                window_based_work_area_offset_limit: 0,
                floating_layer_behaviour: None,
            },
            latest_layout: Vec::new(),
            last_focused_hwnd: None,
            last_focused_floating_hwnd: None,
            last_focused_cycle_window_hwnd: None,
            ignored_windows_above_managed: false,
            preselected_container_idx: None,
            work_area_offset: None,
            apply_window_based_work_area_offset: true,
            window_container_behaviour: None,
            float_override: None,
            container_padding: None,
            workspace_padding: None,
            layout_options: None,
            layout_rules: Vec::new(),
            resize_dimensions: Vec::new(),
        }
    }
}

/// Whether one of the containers holds a window.
pub open spec fn tiled(containers: Seq<ContainerView>, hwnd: isize) -> bool {
    exists|i: int| 0 <= i < containers.len() && (#[trigger] containers[i]).has(hwnd)
}

/// The windows that the containers show, in order.
pub open spec fn fronts(containers: Seq<ContainerView>) -> Seq<Window>
    decreases containers.len(),
{
    if containers.len() == 0 {
        Seq::empty()
    } else {
        let before = fronts(containers.drop_last());
        match containers.last().front() {
            Some(window) => before.push(window),
            None => before,
        }
    }
}

/// The window as a list.
pub open spec fn one(window: Option<Window>) -> Seq<Window> {
    match window {
        Some(window) => seq![window],
        None => Seq::empty(),
    }
}

/// The contents of containers.
pub open spec fn contents(containers: Seq<Container>) -> Seq<ContainerView> {
    containers.map_values(|container: Container| container@)
}

/// The windows that the containers show, in order.
pub fn front_windows(containers: &Vec<Container>) -> (r: Vec<Window>)
    ensures
        r@ == fronts(contents(containers@)),
{
    let mut windows: Vec<Window> = Vec::new();
    let mut i: usize = 0;
    let ghost all = contents(containers@);
    while i < containers.len()
        invariant
            i <= containers@.len(),
            all == contents(containers@),
            windows@ == fronts(all.take(i as int)),
        decreases containers@.len() - i,
    {
        assert(all.take(i + 1).drop_last() =~= all.take(i as int));
        match containers[i].focused_window() {
            Some(window) => {
                windows.push(*window);
            },
            None => {},
        }
        i = i + 1;
    }
    assert(all.take(i as int) =~= all);
    windows
}

/// Whether a container is the first one that holds a window.
pub open spec fn is_first_with(containers: Seq<ContainerView>, at: int, hwnd: isize) -> bool {
    &&& 0 <= at < containers.len()
    &&& containers[at].has(hwnd)
    &&& forall|k: int| 0 <= k < at ==> !(#[trigger] containers[k]).has(hwnd)
}

/// The index of the first container that holds a window.
pub open spec fn first_with(containers: Seq<ContainerView>, hwnd: isize) -> int {
    choose|at: int| is_first_with(containers, at, hwnd)
}

/// There is one first container that holds a window.
pub proof fn first_with_is_first(containers: Seq<ContainerView>, at: int, hwnd: isize)
    requires
        is_first_with(containers, at, hwnd),
    ensures
        first_with(containers, hwnd) == at,
{
    let first = first_with(containers, hwnd);
    assert(is_first_with(containers, first, hwnd));
    if first < at {
        assert(!containers[first].has(hwnd));
    }
    if at < first {
        assert(!containers[at].has(hwnd));
    }
}

/// The screen once the tiles and the floating windows of a workspace are shown again.
pub open spec fn shown_again(screen: ScreenView, workspace: WorkspaceView) -> ScreenView {
    screen.showing_all(fronts(workspace.containers.elements)).showing_all(
        workspace.floating_windows.elements,
    )
}

impl WorkspaceView {
    /// Whether the workspace holds a window in a container, as the maximized window or in
    /// the monocle container.
    pub open spec fn manages(self, hwnd: isize) -> bool {
        ||| tiled(self.containers.elements, hwnd)
        ||| self.maximized_window == Some(Window { hwnd })
        ||| self.monocle_has(hwnd)
    }

    /// Whether the monocle container holds a window.
    pub open spec fn monocle_has(self, hwnd: isize) -> bool {
        self.monocle_container matches Some(monocle) && monocle.has(hwnd)
    }

    /// Whether the workspace holds a floating window.
    pub open spec fn floats(self, hwnd: isize) -> bool {
        container::holds(self.floating_windows.elements, hwnd)
    }

    /// Whether the workspace holds a window anywhere.
    pub open spec fn has(self, hwnd: isize) -> bool {
        self.manages(hwnd) || self.floats(hwnd)
    }

    /// Whether the workspace holds nothing.
    pub open spec fn empty(self) -> bool {
        &&& self.containers.elements.len() == 0
        &&& self.monocle_container is None
        &&& self.maximized_window is None
        &&& self.floating_windows.elements.len() == 0
    }

    /// The window that the monocle container shows.
    pub open spec fn monocle_front(self) -> Option<Window> {
        match self.monocle_container {
            Some(monocle) => monocle.front(),
            None => None,
        }
    }

    /// The windows that are visible while the workspace is focused.
    pub open spec fn visible(self) -> Seq<Window> {
        one(self.maximized_window) + one(self.monocle_front()) + fronts(self.containers.elements)
            + self.floating_windows.elements
    }

    /// The workspace in its tiling layer, which no command has chosen.
    pub open spec fn in_tiling_layer(self) -> WorkspaceView {
        WorkspaceView { layer: WorkspaceLayer::Tiling, layer_lock: false, ..self }
    }

    /// The workspace with one more container at an index, which gets the focus.
    pub open spec fn adding_container(self, at: int, container: ContainerView) -> WorkspaceView {
        WorkspaceView { containers: self.containers.inserted(at, container), ..self }
    }

    /// The workspace without its focused container.
    pub open spec fn without_focused_container(self) -> WorkspaceView {
        WorkspaceView {
            containers: self.containers.removed(self.containers.focused as int),
            ..self
        }
    }

    /// The workspace with the focused window of its focused container in a container of
    /// its own, behind the one that it left.
    pub open spec fn splitting_stack(self) -> WorkspaceView {
        let focused = self.containers.focused as int;
        let stack = self.containers.elements[focused];
        WorkspaceView {
            containers: self.containers.updated(focused, stack.without_front()).inserted(
                focused + 1,
                container::single(stack.front()->0),
            ),
            ..self
        }
    }

    /// The workspace with its monocle container back among the others, at the index from
    /// which it came.
    pub open spec fn returning_monocle(self) -> WorkspaceView {
        WorkspaceView {
            containers: self.containers.inserted(
                self.containers.clamped(self.monocle_container_restore_idx->0 as int),
                self.monocle_container->0,
            ),
            monocle_container: None,
            monocle_container_restore_idx: None,
            ..self
        }
    }

    /// The workspace with a window in a container of its own, behind the focused one.
    pub open spec fn containing(self, window: Window) -> WorkspaceView {
        self.adding_container(
            self.containers.clamped(self.containers.focused + 1),
            container::single(window),
        )
    }

    /// The workspace with a window added to its focused container.
    pub open spec fn stacking(self, window: Window) -> WorkspaceView {
        let focused = self.containers.focused as int;
        WorkspaceView {
            containers: self.containers.updated(
                focused,
                self.containers.elements[focused].adding(window),
            ),
            ..self
        }
    }

    /// The workspace with the focus on a window in a container.
    pub open spec fn focusing_window(self, hwnd: isize) -> WorkspaceView {
        let at = first_with(self.containers.elements, hwnd);
        let container = self.containers.elements[at];
        WorkspaceView {
            containers: self.containers.updated(
                at,
                container.focusing(container::first_position(container.windows.elements, hwnd)),
            ).focusing(at),
            last_focused_hwnd: Some(hwnd),
            ..self
        }
    }

    /// The workspace with the focus on the floating window at an index.
    pub open spec fn focusing_float(self, idx: int) -> WorkspaceView {
        let hwnd = self.floating_windows.elements[idx].hwnd;
        WorkspaceView {
            floating_windows: self.floating_windows.focusing(idx),
            last_focused_floating_hwnd: Some(hwnd),
            last_focused_cycle_window_hwnd: Some(hwnd),
            ..self
        }
    }

    /// The workspace without a floating window.
    pub open spec fn without_float(self, hwnd: isize) -> WorkspaceView {
        WorkspaceView {
            floating_windows: self.floating_windows.with(
                container::without(self.floating_windows.elements, hwnd),
            ),
            ..self
        }
    }

    /// The workspace with one more floating window.
    pub open spec fn floating(self, window: Window) -> WorkspaceView {
        WorkspaceView {
            floating_windows: self.floating_windows.with(
                self.floating_windows.elements.push(window),
            ),
            ..self
        }
    }

    /// The workspace once a window has been taken out of the first place that holds it:
    /// the floating windows, the monocle container, the maximized window, the containers.
    /// A container that is left empty goes with the window.
    pub open spec fn without_window(self, hwnd: isize) -> WorkspaceView {
        if self.floats(hwnd) {
            self.without_float(hwnd)
        } else if self.monocle_has(hwnd) {
            let left = self.monocle_container->0.without(hwnd);
            if left.windows.elements.len() == 0 {
                WorkspaceView {
                    monocle_container: None,
                    monocle_container_restore_idx: None,
                    ..self
                }
            } else {
                WorkspaceView { monocle_container: Some(left), ..self }
            }
        } else if self.maximized_window == Some(Window { hwnd }) {
            WorkspaceView { maximized_window: None, ..self }
        } else if tiled(self.containers.elements, hwnd) {
            let at = first_with(self.containers.elements, hwnd);
            let left = self.containers.elements[at].without(hwnd);
            WorkspaceView {
                containers: if left.windows.elements.len() == 0 {
                    self.containers.removed(at)
                } else {
                    self.containers.updated(at, left)
                },
                ..self
            }
        } else {
            self
        }
    }

    /// The workspace with two containers in each other's place. The focus goes with the
    /// first one.
    pub open spec fn swapping(self, from: int, to: int) -> WorkspaceView {
        let all = self.containers.elements;
        if 0 <= from < all.len() && 0 <= to < all.len() {
            WorkspaceView {
                containers: self.containers.updated(from, all[to]).updated(to, all[from]).focusing(
                    to,
                ),
                ..self
            }
        } else {
            self
        }
    }

    /// The index at which a container comes in from a direction: at the far side of
    /// where it moves, as the layout has it, or at the focused container. A container
    /// that comes from nowhere goes to the back.
    pub open spec fn entry(self, direction: Option<OperationDirection>) -> int {
        let len = self.containers.elements.len() as int;
        match direction {
            None => len,
            Some(OperationDirection::Left) => match self.layout {
                Layout::Default(DefaultLayout::RightMainVerticalStack) => 0,
                Layout::Default(DefaultLayout::UltrawideVerticalStack) => if len == 1 {
                    0
                } else {
                    len
                },
                _ => len,
            },
            Some(OperationDirection::Right) => match self.layout {
                Layout::Default(layout) => if (layout == DefaultLayout::RightMainVerticalStack
                    || layout == DefaultLayout::UltrawideVerticalStack) && len == 1 {
                    len
                } else {
                    layout.leftmost(len)
                },
                Layout::Custom(_) => 0,
            },
            Some(OperationDirection::Up) | Some(OperationDirection::Down) =>
            self.containers.clamped(self.containers.focused as int),
        }
    }

    /// The workspace once a container has come to it from a direction. A monocle
    /// container goes back among the others first.
    pub open spec fn receiving(
        self,
        container: ContainerView,
        direction: Option<OperationDirection>,
    ) -> WorkspaceView {
        let ready = if self.monocle_container is Some {
            self.returning_monocle()
        } else {
            self
        };
        ready.in_tiling_layer().adding_container(ready.entry(direction), container)
    }
}

impl Workspace {
    pub fn containers(&self) -> (r: &Vec<Container>)
        ensures
            *r == self.containers.elements,
            contents(r@) == self@.containers.elements,
    {
        &self.containers.elements
    }

    pub fn containers_mut(&mut self) -> (r: &mut Vec<Container>)
        ensures
            *r == old(self).containers.elements,
            final(self)@ == (WorkspaceView {
                containers: old(self)@.containers.with(contents(final(r)@)),
                ..old(self)@
            }),
    {
        self.containers.elements_mut()
    }

    pub fn floating_windows(&self) -> (r: &Vec<Window>)
        ensures
            *r == self.floating_windows.elements,
            r@ == self@.floating_windows.elements,
    {
        &self.floating_windows.elements
    }

    pub fn floating_windows_mut(&mut self) -> (r: &mut Vec<Window>)
        ensures
            *r == old(self).floating_windows.elements,
            final(self)@ == (WorkspaceView {
                floating_windows: old(self)@.floating_windows.with(final(r)@),
                ..old(self)@
            }),
    {
        self.floating_windows.elements_mut()
    }

    pub fn focused_container(&self) -> (r: Option<&Container>)
        ensures
            match r {
                Some(container) => self@.containers.focused_element() == Some(container@),
                None => self@.containers.focused_element() is None,
            },
    {
        self.containers.focused()
    }

    pub fn focused_container_idx(&self) -> (r: usize)
        ensures
            r == self@.containers.focused,
    {
        self.containers.focused_idx()
    }

    pub fn focus_container(&mut self, idx: usize)
        ensures
            final(self)@ == (WorkspaceView {
                containers: old(self)@.containers.focusing(idx as int),
                ..old(self)@
            }),
    {
        self.containers.focus(idx);
    }

    pub fn focused_floating_window(&self) -> (r: Option<&Window>)
        ensures
            match r {
                Some(window) => self@.floating_windows.focused_element() == Some(*window),
                None => self@.floating_windows.focused_element() is None,
            },
    {
        self.floating_windows.focused()
    }

    pub fn focused_floating_window_idx(&self) -> (r: usize)
        ensures
            r == self@.floating_windows.focused,
    {
        self.floating_windows.focused_idx()
    }

    /// Focus a floating window, and remember it as the one that was used last. Tells
    /// whether there is one at the index.
    pub fn focus_floating_window(&mut self, idx: usize) -> (r: bool)
        ensures
            r == (idx < old(self)@.floating_windows.elements.len()),
            final(self)@ == (if r {
                old(self)@.focusing_float(idx as int)
            } else {
                old(self)@
            }),
    {
        if idx < self.floating_windows.elements.len() {
            let hwnd: isize = self.floating_windows.elements[idx].hwnd;
            self.floating_windows.focus(idx);
            self.last_focused_floating_hwnd = Some(hwnd);
            self.last_focused_cycle_window_hwnd = Some(hwnd);
            true
        } else {
            false
        }
    }

    pub fn is_empty(&self) -> (r: bool)
        ensures
            r == self@.empty(),
    {
        self.containers.elements.len() == 0 && self.monocle_container.is_none()
            && self.maximized_window.is_none() && self.floating_windows.elements.len() == 0
    }

    /// The index of the container that holds a window.
    pub fn container_idx_for_window(&self, hwnd: isize) -> (r: Option<usize>)
        ensures
            match r {
                Some(i) => is_first_with(self@.containers.elements, i as int, hwnd)
                    && first_with(self@.containers.elements, hwnd) == i,
                None => !tiled(self@.containers.elements, hwnd),
            },
            r is Some == tiled(self@.containers.elements, hwnd),
    {
        let ghost all = self@.containers.elements;
        let mut i: usize = 0;
        while i < self.containers.elements.len()
            invariant
                i <= self.containers.elements@.len(),
                all == self@.containers.elements,
                forall|k: int| 0 <= k < i ==> !(#[trigger] all[k]).has(hwnd),
            decreases self.containers.elements@.len() - i,
        {
            if self.containers.elements[i].contains_window(hwnd) {
                assert(all[i as int].has(hwnd));
                proof {
                    first_with_is_first(all, i as int, hwnd);
                }
                return Some(i);
            }
            i = i + 1;
        }
        None
    }

    pub fn contains_managed_window(&self, hwnd: isize) -> (r: bool)
        ensures
            r == self@.manages(hwnd),
    {
        if self.container_idx_for_window(hwnd).is_some() {
            return true;
        }
        match self.maximized_window {
            Some(window) => {
                if window.hwnd == hwnd {
                    return true;
                }
            },
            None => {},
        }
        match &self.monocle_container {
            Some(monocle) => monocle.contains_window(hwnd),
            None => false,
        }
    }

    /// Whether a window floats on the workspace.
    pub fn contains_float(&self, hwnd: isize) -> (r: bool)
        ensures
            r == self@.floats(hwnd),
    {
        container::position_in(&self.floating_windows.elements, hwnd).is_some()
    }

    pub fn contains_window(&self, hwnd: isize) -> (r: bool)
        ensures
            r == self@.has(hwnd),
    {
        self.contains_managed_window(hwnd) || self.contains_float(hwnd)
    }

    pub fn visible_windows(&self) -> (r: Vec<Window>)
        ensures
            r@ == self@.visible(),
    {
        let mut windows: Vec<Window> = Vec::new();
        match self.maximized_window {
            Some(window) => {
                windows.push(window);
            },
            None => {},
        }
        assert(windows@ =~= one(self.maximized_window));
        match &self.monocle_container {
            Some(monocle) => match monocle.focused_window() {
                Some(window) => {
                    windows.push(*window);
                },
                None => {},
            },
            None => {},
        }
        let ghost above = one(self.maximized_window) + one(self@.monocle_front());
        assert(windows@ =~= above);
        let mut tiles = front_windows(&self.containers.elements);
        windows.append(&mut tiles);
        let ghost tiles = fronts(self@.containers.elements);
        let mut i: usize = 0;
        while i < self.floating_windows.elements.len()
            invariant
                i <= self.floating_windows.elements@.len(),
                windows@ == above + tiles + self.floating_windows.elements@.take(i as int),
            decreases self.floating_windows.elements@.len() - i,
        {
            windows.push(self.floating_windows.elements[i]);
            i = i + 1;
            assert(windows@ =~= above + tiles + self.floating_windows.elements@.take(i as int));
        }
        assert(self.floating_windows.elements@.take(i as int)
            =~= self.floating_windows.elements@);
        windows
    }

    /// Add a container behind the others, and focus it.
    pub fn add_container_to_back(&mut self, container: Container)
        ensures
            final(self)@ == old(self)@.adding_container(
                old(self)@.containers.elements.len() as int,
                container@,
            ),
    {
        let last: usize = self.containers.elements.len();
        self.containers.insert(last, container);
    }

    /// Add a container before the others, and focus it.
    pub fn add_container_to_front(&mut self, container: Container)
        ensures
            final(self)@ == old(self)@.adding_container(0, container@),
    {
        self.containers.insert(0, container);
    }

    /// Add a container at an index, or at the back where there are fewer containers, and
    /// focus it.
    pub fn insert_container_at_idx(&mut self, idx: usize, container: Container)
        ensures
            final(self)@ == old(self)@.adding_container(
                old(self)@.containers.clamped(idx as int),
                container@,
            ),
    {
        let at: usize = if idx <= self.containers.elements.len() {
            idx
        } else {
            self.containers.elements.len()
        };
        self.containers.insert(at, container);
    }

    /// Take the focused container out. The focus goes to the container before it.
    pub fn remove_focused_container(&mut self) -> (r: Option<Container>)
        ensures
            match r {
                Some(container) => old(self)@.containers.focused_element() == Some(container@)
                    && final(self)@ == old(self)@.without_focused_container(),
                None => old(self)@.containers.focused_element() is None && final(self)@ == old(
                    self)@,
            },
    {
        let focused: usize = self.containers.focused;
        if focused < self.containers.elements.len() {
            Some(self.containers.remove(focused))
        } else {
            None
        }
    }

    /// Give the focused window of the focused container a container of its own, behind
    /// the one that it leaves, and focus it.
    pub fn new_container_for_focused_window(&mut self) -> (r: Result<(), Error>)
        ensures
            match old(self)@.containers.focused_element() {
                None => r == Err::<(), Error>(Error::NoContainer) && final(self)@ == old(self)@,
                Some(stack) => if stack.front() is None {
                    r == Err::<(), Error>(Error::NoWindow) && final(self)@ == old(self)@
                } else {
                    r is Ok && final(self)@ == old(self)@.splitting_stack()
                },
            },
    {
        let focused: usize = self.containers.focused;
        if focused >= self.containers.elements.len() {
            return Err(Error::NoContainer);
        }
        let ghost before = self@.containers;
        match self.containers.elements[focused].remove_focused_window() {
            None => {
                assert(self@.containers.elements =~= before.elements);
                Err(Error::NoWindow)
            },
            Some(window) => {
                assert(self@.containers =~= before.updated(
                    focused as int,
                    before.elements[focused as int].without_front(),
                ));
                let mut container = Container::default();
                container.add_window(window);
                assert(container@ =~= container::single(window));
                self.containers.insert(focused + 1, container);
                Ok(())
            },
        }
    }

    /// Put the monocle container back to the index from which it came, or to the back
    /// where there are fewer containers, and focus it.
    pub fn reintegrate_monocle_container(&mut self) -> (r: Result<(), Error>)
        ensures
            if old(self)@.monocle_container is None {
                r == Err::<(), Error>(Error::NoContainer) && final(self)@ == old(self)@
            } else if old(self)@.monocle_container_restore_idx is None {
                r == Err::<(), Error>(Error::NoMonocleRestoreIndex) && final(self)@ == old(self)@
            } else {
                r is Ok && final(self)@ == old(self)@.returning_monocle()
            },
    {
        let idx: usize = match (
            self.monocle_container.is_some(),
            self.monocle_container_restore_idx,
        ) {
            (false, _) => {
                return Err(Error::NoContainer);
            },
            (true, None) => {
                return Err(Error::NoMonocleRestoreIndex);
            },
            (true, Some(idx)) => idx,
        };
        match self.monocle_container.take() {
            Some(monocle) => {
                self.monocle_container_restore_idx = None;
                self.insert_container_at_idx(idx, monocle);
                Ok(())
            },
            None => Err(Error::NoContainer),
        }
    }

    /// Give a new window a container of its own, behind the focused one, and focus it.
    pub fn new_container_for_window(&mut self, window: Window)
        ensures
            final(self)@ == old(self)@.containing(window),
    {
        let mut container = Container::default();
        container.add_window(window);
        assert(container@ =~= container::single(window));
        let len: usize = self.containers.elements.len();
        let at: usize = if self.containers.focused < len {
            self.containers.focused + 1
        } else {
            len
        };
        self.insert_container_at_idx(at, container);
    }

    /// Add a window to the focused container, where there is one.
    pub fn add_window_to_focused_container(&mut self, window: Window) -> (r: Result<(), Error>)
        ensures
            if old(self)@.containers.focused_element() is Some {
                r is Ok && final(self)@ == old(self)@.stacking(window)
            } else {
                r == Err::<(), Error>(Error::NoContainer) && final(self)@ == old(self)@
            },
    {
        let focused: usize = self.containers.focused;
        if focused < self.containers.elements.len() {
            let ghost before = self@.containers;
            self.containers.elements[focused].add_window(window);
            assert(self@.containers =~= before.updated(
                focused as int,
                before.elements[focused as int].adding(window),
            ));
            Ok(())
        } else {
            Err(Error::NoContainer)
        }
    }

    /// Focus the container that holds a window, and the window in it, and remember the
    /// window as the one that was focused last.
    pub fn focus_container_by_window(&mut self, hwnd: isize) -> (r: Result<(), Error>)
        ensures
            if tiled(old(self)@.containers.elements, hwnd) {
                r is Ok && final(self)@ == old(self)@.focusing_window(hwnd)
            } else {
                r == Err::<(), Error>(Error::NoWindow) && final(self)@ == old(self)@
            },
    {
        match self.container_idx_for_window(hwnd) {
            Some(at) => {
                let ghost before = self@.containers;
                match self.containers.elements[at].idx_for_window(hwnd) {
                    Some(idx) => {
                        self.containers.elements[at].focus_window(idx);
                        assert(self@.containers =~= before.updated(
                            at as int,
                            before.elements[at as int].focusing(idx as int),
                        ));
                    },
                    None => {},
                }
                self.containers.focus(at);
                self.last_focused_hwnd = Some(hwnd);
                Ok(())
            },
            None => Err(Error::NoWindow),
        }
    }

    /// Take a window out of the workspace: from the floating windows, else from the
    /// monocle container, else as the maximized window, else from its container. What is
    /// left empty goes with it.
    pub fn remove_window(&mut self, hwnd: isize) -> (r: Result<(), Error>)
        ensures
            r == (if old(self)@.has(hwnd) {
                Ok::<(), Error>(())
            } else {
                Err(Error::NoWindow)
            }),
            final(self)@ == old(self)@.without_window(hwnd),
    {
        if self.contains_float(hwnd) {
            container::take_out(&mut self.floating_windows.elements, hwnd);
            return Ok(());
        }
        let in_monocle = match &self.monocle_container {
            Some(monocle) => monocle.contains_window(hwnd),
            None => false,
        };
        if in_monocle {
            match self.monocle_container.take() {
                Some(mut monocle) => {
                    monocle.remove_window(hwnd);
                    if monocle.windows.elements.len() == 0 {
                        self.monocle_container_restore_idx = None;
                    } else {
                        self.monocle_container = Some(monocle);
                    }
                },
                None => {},
            }
            return Ok(());
        }
        match self.maximized_window {
            Some(window) => {
                if window.hwnd == hwnd {
                    self.maximized_window = None;
                    return Ok(());
                }
            },
            None => {},
        }
        match self.container_idx_for_window(hwnd) {
            Some(at) => {
                let ghost before = self@.containers;
                self.containers.elements[at].remove_window(hwnd);
                let ghost left = before.elements[at as int].without(hwnd);
                assert(self@.containers =~= before.updated(at as int, left));
                if self.containers.elements[at].windows.elements.len() == 0 {
                    let _ = self.containers.remove(at);
                    assert(self@.containers =~= before.removed(at as int));
                }
                Ok(())
            },
            None => Err(Error::NoWindow),
        }
    }

    /// Let two containers change places. The focus goes with the first one.
    pub fn swap_containers(&mut self, from: usize, to: usize)
        ensures
            final(self)@ == old(self)@.swapping(from as int, to as int),
    {
        let len: usize = self.containers.elements.len();
        if from < len && to < len {
            let ghost all = self@.containers;
            if from != to {
                let low: usize = if from < to {
                    from
                } else {
                    to
                };
                let high: usize = if from < to {
                    to
                } else {
                    from
                };
                swap_last(&mut self.containers.elements, high);
                swap_last(&mut self.containers.elements, low);
                swap_last(&mut self.containers.elements, high);
            }
            assert(self@.containers =~= all.updated(from as int, all.elements[to as int]).updated(
                to as int,
                all.elements[from as int],
            ));
            self.containers.focus(to);
        }
    }

    /// Add a container where it comes in from a direction, and focus it.
    pub fn add_container_from(&mut self, container: Container, direction: OperationDirection)
        ensures
            final(self)@ == old(self)@.adding_container(
                old(self)@.entry(Some(direction)),
                container@,
            ),
    {
        let len: usize = self.containers.elements.len();
        match direction {
            OperationDirection::Left => match self.layout {
                Layout::Default(DefaultLayout::RightMainVerticalStack) => {
                    self.add_container_to_front(container);
                },
                Layout::Default(DefaultLayout::UltrawideVerticalStack) => {
                    if len == 1 {
                        self.insert_container_at_idx(0, container);
                    } else {
                        self.add_container_to_back(container);
                    }
                },
                _ => {
                    self.add_container_to_back(container);
                },
            },
            OperationDirection::Right => match self.layout {
                Layout::Default(layout) => {
                    let target_index: usize = layout.leftmost_index(len);
                    if (layout == DefaultLayout::RightMainVerticalStack || layout
                        == DefaultLayout::UltrawideVerticalStack) && len == 1 {
                        self.add_container_to_back(container);
                    } else {
                        self.insert_container_at_idx(target_index, container);
                    }
                },
                Layout::Custom(_) => {
                    self.add_container_to_front(container);
                },
            },
            OperationDirection::Up | OperationDirection::Down => {
                self.insert_container_at_idx(self.containers.focused, container);
            },
        }
    }

    /// Take in a container that comes from another workspace. A monocle container goes
    /// back among the others first, and the windows that it covered are shown again.
    pub fn receive_container(
        &mut self,
        container: Container,
        direction: Option<OperationDirection>,
        screen: &mut Screen,
    ) -> (r: Result<(), Error>)
        ensures
            final(screen)@ == (if old(self)@.monocle_container is Some {
                shown_again(old(screen)@, old(self)@)
            } else {
                old(screen)@
            }),
            if old(self)@.monocle_container is Some && old(self)@.monocle_container_restore_idx
                is None {
                r == Err::<(), Error>(Error::NoMonocleRestoreIndex) && final(self)@ == old(self)@
            } else {
                r is Ok && final(self)@ == old(self)@.receiving(container@, direction)
            },
    {
        if self.monocle_container.is_some() {
            self.show_again(screen);
            match self.reintegrate_monocle_container() {
                Ok(()) => {},
                Err(error) => {
                    return Err(error);
                },
            }
        }
        self.layer = WorkspaceLayer::Tiling;
        self.layer_lock = false;
        match direction {
            Some(direction) => {
                self.add_container_from(container, direction);
            },
            None => {
                self.add_container_to_back(container);
            },
        }
        Ok(())
    }

    /// Show the tiles and the floating windows again.
    pub fn show_again(&self, screen: &mut Screen)
        ensures
            final(screen)@ == shown_again(old(screen)@, self@),
    {
        let windows = front_windows(&self.containers.elements);
        container::restore_all(&windows, screen);
        container::restore_all(&self.floating_windows.elements, screen);
    }
}

/// Let the last element and another one change places.
fn swap_last(containers: &mut Vec<Container>, idx: usize)
    requires
        idx < old(containers)@.len(),
    ensures
        ({
            let all = old(containers)@;
            final(containers)@ == all.update(idx as int, all.last()).update(
                all.len() - 1,
                all[idx as int],
            )
        }),
{
    let ghost all = containers@;
    let taken = containers.swap_remove(idx);
    containers.push(taken);
    assert(containers@ =~= all.update(idx as int, all.last()).update(
        all.len() - 1,
        all[idx as int],
    ));
}

impl WorkspaceView {
    /// Whether the workspace holds a window in at most one place: as a floating window, in
    /// the monocle container, as the maximized window, or in one of the containers.
    pub open spec fn holds_once(self, hwnd: isize) -> bool {
        &&& self.floats(hwnd) ==> !self.monocle_has(hwnd) && self.maximized_window != Some(
            Window { hwnd },
        ) && !tiled(self.containers.elements, hwnd)
        &&& self.monocle_has(hwnd) ==> self.maximized_window != Some(Window { hwnd }) && !tiled(
            self.containers.elements,
            hwnd,
        )
        &&& self.maximized_window == Some(Window { hwnd }) ==> !tiled(
            self.containers.elements,
            hwnd,
        )
        &&& forall|i: int, j: int|
            0 <= i < j < self.containers.elements.len() ==> !((
            #[trigger] self.containers.elements[i]).has(hwnd) && (
            #[trigger] self.containers.elements[j]).has(hwnd))
    }
}

/// What a workspace holds: the windows of its containers, the maximized window, those of
/// the monocle container, and the floating ones. It is empty where there is no place for
/// any.
pub proof fn windows_of_a_workspace(workspace: WorkspaceView, hwnd: isize)
    ensures
        workspace.floats(hwnd) <==> exists|i: int|
            0 <= i < workspace.floating_windows.elements.len()
                && #[trigger] workspace.floating_windows.elements[i] == (Window { hwnd }),
        workspace.monocle_has(hwnd) <==> workspace.monocle_container is Some && exists|i: int|
            0 <= i < workspace.monocle_container->0.windows.elements.len()
                && #[trigger] workspace.monocle_container->0.windows.elements[i] == (Window {
                hwnd,
            }),
        tiled(workspace.containers.elements, hwnd) <==> exists|c: int, i: int|
            0 <= c < workspace.containers.elements.len() && 0 <= i
                < workspace.containers.elements[c].windows.elements.len()
                && #[trigger] workspace.containers.elements[c].windows.elements[i] == (Window {
                hwnd,
            }),
        workspace.has(hwnd) <==> tiled(workspace.containers.elements, hwnd)
            || workspace.maximized_window == Some(Window { hwnd }) || workspace.monocle_has(hwnd)
            || workspace.floats(hwnd),
        workspace.manages(hwnd) <==> tiled(workspace.containers.elements, hwnd)
            || workspace.maximized_window == Some(Window { hwnd }) || workspace.monocle_has(hwnd),
        workspace.empty() <==> workspace.containers.elements == Seq::<ContainerView>::empty()
            && workspace.monocle_container is None && workspace.maximized_window is None
            && workspace.floating_windows.elements == Seq::<Window>::empty(),
{
    let all = workspace.containers.elements;
    if tiled(all, hwnd) {
        let c = choose|c: int| 0 <= c < all.len() && (#[trigger] all[c]).has(hwnd);
        let windows = all[c].windows.elements;
        let i = choose|i: int| 0 <= i < windows.len() && (#[trigger] windows[i]).hwnd == hwnd;
        assert(all[c].windows.elements[i] == (Window { hwnd }));
    }
    if exists|c: int, i: int|
        0 <= c < all.len() && 0 <= i < all[c].windows.elements.len()
            && #[trigger] all[c].windows.elements[i] == (Window { hwnd }) {
        let (c, i) = choose|c: int, i: int|
            0 <= c < all.len() && 0 <= i < all[c].windows.elements.len()
                && #[trigger] all[c].windows.elements[i] == (Window { hwnd });
        assert(all[c].has(hwnd));
    }
    if workspace.monocle_container is Some {
        let windows = workspace.monocle_container->0.windows.elements;
        assert(forall|i: int|
            0 <= i < windows.len() ==> ((#[trigger] windows[i]).hwnd == hwnd) == (windows[i]
                == (Window { hwnd })));
    }
    if workspace.containers.elements.len() == 0 {
        assert(workspace.containers.elements =~= Seq::<ContainerView>::empty());
    }
    if workspace.floating_windows.elements.len() == 0 {
        assert(workspace.floating_windows.elements =~= Seq::<Window>::empty());
    }
}

proof fn container_goes(containers: Seq<ContainerView>, at: int, other: isize)
    requires
        0 <= at < containers.len(),
    ensures
        tiled(containers, other) == (tiled(containers.remove(at), other) || containers[at].has(
            other,
        )),
{
    let left = containers.remove(at);
    if tiled(containers, other) && !containers[at].has(other) {
        let i = choose|i: int| 0 <= i < containers.len() && (#[trigger] containers[i]).has(other);
        if i < at {
            assert(left[i].has(other));
        } else {
            assert(left[i - 1].has(other));
        }
    }
    if tiled(left, other) {
        let i = choose|i: int| 0 <= i < left.len() && (#[trigger] left[i]).has(other);
        assert(containers[if i < at { i } else { i + 1 }].has(other));
    }
}

proof fn container_thins(
    containers: Seq<ContainerView>,
    at: int,
    thinner: ContainerView,
    other: isize,
)
    requires
        0 <= at < containers.len(),
        thinner.has(other) == containers[at].has(other),
    ensures
        tiled(containers.update(at, thinner), other) == tiled(containers, other),
{
    let after = containers.update(at, thinner);
    if tiled(containers, other) {
        let i = choose|i: int| 0 <= i < containers.len() && (#[trigger] containers[i]).has(other);
        assert(after[i].has(other));
    }
    if tiled(after, other) {
        let i = choose|i: int| 0 <= i < after.len() && (#[trigger] after[i]).has(other);
        assert(containers[i].has(other));
    }
}

/// The first container with a window, where there is one.
proof fn some_first_with(containers: Seq<ContainerView>, hwnd: isize, at: int)
    requires
        0 <= at < containers.len(),
        containers[at].has(hwnd),
    ensures
        is_first_with(containers, first_with(containers, hwnd), hwnd),
    decreases at,
{
    if exists|k: int| 0 <= k < at && (#[trigger] containers[k]).has(hwnd) {
        let k = choose|k: int| 0 <= k < at && (#[trigger] containers[k]).has(hwnd);
        some_first_with(containers, hwnd, k);
    } else {
        assert(is_first_with(containers, at, hwnd));
    }
}

/// A window that is taken out of a workspace that holds it in one place is gone from it,
/// and every other window is still there. The container of a window that was alone in it
/// goes with the window, and otherwise there are as many containers as before.
pub proof fn windows_that_are_taken_out_are_gone(
    workspace: WorkspaceView,
    hwnd: isize,
    other: isize,
)
    requires
        workspace.holds_once(hwnd),
    ensures
        ({
            let left = workspace.without_window(hwnd);
            let all = workspace.containers.elements;
            &&& !left.has(hwnd)
            &&& other != hwnd ==> left.has(other) == workspace.has(other) && left.manages(other)
                == workspace.manages(other) && left.floats(other) == workspace.floats(other)
            &&& left.containers.elements.len() == all.len() - (if exists|c: int|
                0 <= c < all.len() && (#[trigger] all[c]).has(hwnd) && all[c].without(
                    hwnd,
                ).windows.elements.len() == 0 {
                1int
            } else {
                0int
            })
            &&& !workspace.has(hwnd) ==> left == workspace
            &&& left.layer == workspace.layer && left.tile == workspace.tile && left.name
                == workspace.name && left.layout == workspace.layout
        }),
{
    container::taken_out(workspace.floating_windows.elements, hwnd, other);
    if workspace.monocle_has(hwnd) {
        let monocle = workspace.monocle_container->0;
        container::taken_out(monocle.windows.elements, hwnd, other);
        let left = monocle.without(hwnd);
        if left.windows.elements.len() == 0 {
            assert(!left.has(other));
        }
    }
    let all = workspace.containers.elements;
    if tiled(all, hwnd) {
        let c = choose|c: int| 0 <= c < all.len() && (#[trigger] all[c]).has(hwnd);
        some_first_with(all, hwnd, c);
        let at = first_with(all, hwnd);
        let left = all[at].without(hwnd);
        container::taken_out(all[at].windows.elements, hwnd, other);
        assert forall|i: int| 0 <= i < all.len() && i != at implies !(#[trigger] all[i]).has(
            hwnd,
        ) by {
            if i < at {
                assert(!(all[i].has(hwnd) && all[at].has(hwnd)));
            } else {
                assert(!(all[at].has(hwnd) && all[i].has(hwnd)));
            }
        }
        container_goes(all, at, other);
        container_goes(all, at, hwnd);
        if other != hwnd {
            container_thins(all, at, left, other);
        }
        let after = workspace.without_window(hwnd).containers.elements;
        assert(!tiled(after, hwnd)) by {
            if tiled(after, hwnd) {
                let i = choose|i: int| 0 <= i < after.len() && (#[trigger] after[i]).has(hwnd);
                if left.windows.elements.len() == 0 {
                    assert(all[if i < at { i } else { i + 1 }].has(hwnd));
                } else {
                    assert(all[i].has(hwnd));
                }
            }
        }
        if left.windows.elements.len() == 0 {
            assert(all[at].has(hwnd));
            assert(!left.has(other));
        }
    }
}

} // verus!
