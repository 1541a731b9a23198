//! How the window manager behaves where there is a choice.

use vstd::prelude::*;

use crate::workspace::WindowContainerBehaviour;

verus! {

/// What focusing a tiled window does to a workspace in its floating layer.
#[derive(Clone, Copy, Debug, PartialEq, Eq, Structural)]
pub enum WorkspaceLayerFocusBehaviour {
    /// The tiling layer comes up, unless a command has chosen the layer.
    RespectLock,
    /// The tiling layer comes up.
    SwitchLayer,
    /// The tiling layer comes up, and only the focused window is raised above the
    /// floating ones.
    SwitchLayerOverlay,
}

/// Where a new floating window is placed.
#[derive(Clone, Copy, Debug, PartialEq, Eq, Structural)]
pub enum Placement {
    /// Where it appeared.
    Unplaced,
    Center,
    CenterAndResize,
}

impl Placement {
    pub open spec fn centers(self) -> bool {
        self is Center || self is CenterAndResize
    }

    pub fn should_center(&self) -> (r: bool)
        ensures
            r == self.centers(),
    {
        match self {
            Placement::Unplaced => false,
            Placement::Center | Placement::CenterAndResize => true,
        }
    }

    pub fn should_resize(&self) -> (r: bool)
        ensures
            r == (self is CenterAndResize),
    {
        match self {
            Placement::CenterAndResize => true,
            Placement::Unplaced | Placement::Center => false,
        }
    }
}

/// What happens to new windows.
#[derive(Clone, Copy, Debug, PartialEq, Eq, Structural)]
pub struct WindowManagementBehaviour {
    pub current_behaviour: WindowContainerBehaviour,
    /// New windows float.
    pub float_override: bool,
    /// New windows float because the floating layer is on top.
    pub floating_layer_override: bool,
    pub floating_layer_placement: Placement,
    pub float_override_placement: Placement,
    pub float_rule_placement: Placement,
}

/// Who lets the focus follow the mouse.
#[derive(Clone, Copy, Debug, PartialEq, Eq, Structural)]
pub enum FocusFollowsMouseImplementation {
    Komorebi,
    Windows,
}

/// What a move does at the edge of a monitor.
#[derive(Clone, Copy, Debug, PartialEq, Eq, Structural)]
pub enum MoveBehaviour {
    Swap,
    Insert,
    NoOp,
}

/// What a focus command does while a container is in monocle mode.
#[derive(Clone, Copy, Debug, PartialEq, Eq, Structural)]
pub enum MonocleFocusBehaviour {
    Cycle,
    NoOp,
}

/// What a command does on an unmanaged window.
#[derive(Clone, Copy, Debug, PartialEq, Eq, Structural)]
pub enum OperationBehaviour {
    Op,
    NoOp,
}

/// Who draws the borders.
#[derive(Clone, Copy, Debug, PartialEq, Eq, Structural)]
pub enum BorderImplementation {
    Komorebi,
    Windows,
}

} // verus!
