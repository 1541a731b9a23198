//! Operations on the state of the window manager that are carried out elsewhere: laying
//! out workspaces, and moving the focus and the windows by the layout.

use vstd::prelude::*;

use crate::geometry::Axis;
use crate::geometry::CycleDirection;
use crate::geometry::DefaultLayout;
use crate::geometry::OperationDirection;
use crate::geometry::Sizing;

verus! {

#[derive(Debug)]
pub enum ManagerOp {
    /// Lay out all workspaces that are shown, and keep what was resized or not.
    RetileAll(bool),
    /// Lay out one workspace, and keep what was resized or not.
    RetileWorkspace { monitor: usize, workspace: usize, keep_resizes: bool },
    EnforceWorkspaceRules,
    EnforceStackRules,
    /// Lay the focused workspace out, let the mouse follow the focus, and focus its
    /// window.
    UpdateFocusedWorkspace { follow_focus: bool, trigger_focus: bool },
    /// Lay the focused workspace out, and nothing else.
    LayOutFocusedWorkspace,
    /// Take a window as the maximized one of its workspace, where it was maximized
    /// natively. The answer says whether it was.
    CaptureNativeMaximize(isize),
    /// Move a window from a monitor and workspace to the place of a container on another
    /// monitor.
    TransferWindow { origin: (usize, usize, isize), target: (usize, usize, usize) },
    ResizeWindow {
        direction: OperationDirection,
        sizing: Sizing,
        delta: i32,
        update: bool,
    },
    /// Move the focused window to the container at an index.
    MoveWindowToContainer(usize),
    /// Remember when the floating windows were raised last.
    NoteOverlayMaintenance,
    /// For a while, do not take a change of the focus for a change of the layer.
    SuppressLayerFlips,
    /// Write down where each managed window is.
    UpdateKnownHwnds,
    PromoteContainerToFront,
    PromoteContainerSwap,
    PromoteFocusToFront,
    FocusContainerInDirection(OperationDirection),
    FocusFloatingWindowInDirection(OperationDirection),
    FocusContainerInCycleDirection(CycleDirection, Option<bool>),
    FocusFloatingWindowInCycleDirection(CycleDirection),
    /// Focus the window at an index of the focused container.
    FocusContainerWindow(usize),
    PreselectContainerInDirection(OperationDirection),
    CancelPreselect,
    MoveContainerInDirection(OperationDirection),
    MoveFloatingWindowInDirection(OperationDirection),
    MoveContainerInCycleDirection(CycleDirection),
    AddWindowToContainer(OperationDirection),
    RemoveWindowFromContainer,
    StackAll,
    /// Take all stacks apart, and lay the workspace out or not.
    UnstackAll(bool),
    CycleContainerWindowInDirection(CycleDirection),
    CycleContainerWindowIndexInDirection(CycleDirection),
    RestoreMinimizedWindows,
    RestoreLastMinimizedWindow,
    ToggleLock,
    /// Let the focused window float or tile, even where it is not managed or not.
    ToggleFloat(bool),
    TogglePinFloatingWindow,
    TogglePinAlwaysOnTop,
    ToggleMonocle,
    ToggleMaximize,
    SetContainerPadding(usize, usize, i32),
    SetWorkspacePadding(usize, usize, i32),
    AdjustContainerPadding(Sizing, i32),
    AdjustWorkspacePadding(Sizing, i32),
    /// Move the focused container to a workspace of the focused monitor, and go with it or
    /// not.
    MoveContainerToWorkspace { workspace: usize, follow: bool },
    /// Move the focused container to a workspace of a monitor, its focused one where none
    /// is given, and go with it or not. It enters from the side from which it comes.
    MoveContainerToMonitor { monitor: usize, to: Option<usize>, follow: bool },
    SwapFocusedMonitor(usize),
    MoveWorkspaceToMonitor(usize),
    ToggleTiling,
    FlipLayout(Axis),
    ChangeWorkspaceLayout(DefaultLayout),
    CycleLayout(CycleDirection),
    /// Give the focused workspace the layout in a file.
    ChangeWorkspaceCustomLayout(String),
    SetWorkspaceLayoutCustom(usize, usize, String),
    SetWorkspaceTiling(usize, usize, bool),
    SetWorkspaceLayout(usize, usize, DefaultLayout),
    /// From a number of containers on, give a workspace a layout.
    AddWorkspaceLayoutRule(usize, usize, usize, DefaultLayout),
    AddWorkspaceLayoutCustomRule(usize, usize, usize, String),
    ClearWorkspaceLayoutRules(usize, usize),
    /// Give the focused workspace the ratios of the command that is handled.
    SetLayoutRatios,
    /// Make a primary column five percent wider or narrower than the one of the custom
    /// layout of the focused workspace: the one of this layout itself, or the one of the
    /// custom layout of the layout rule at an index.
    ResizePrimaryColumn { rule: Option<usize>, sizing: Sizing },
    /// Focus a workspace of the focused monitor and show it.
    FocusWorkspace(usize),
    /// Lower the floating windows and the pinned ones below the tiled ones.
    LowerFloatingOverlay,
    LowerIgnoredWindows,
    /// End the window manager, and leave the windows where they are or not.
    Stop(bool),
    EnsureWorkspaces(usize, usize),
    /// See to it that a monitor has workspaces with the names of the command that is
    /// handled.
    EnsureNamedWorkspaces(usize),
    NewWorkspace,
    SetWorkspaceName(usize, usize, String),
    ManageFocusedWindow,
    UnmanageFocusedWindow,
    RemoveAllAccents,
    ReloadConfiguration,
    ReloadStaticConfiguration(String),
    WatchConfiguration(bool),
    /// The answer says whether the file of the command that is handled is a valid
    /// configuration.
    CheckConfiguration,
    /// Show all windows, also those of workspaces that are not shown, and keep their
    /// rectangles or not.
    RestoreAllWindows(bool),
    /// Go on with a manager made from the configuration of the command that is handled,
    /// and start the bars anew.
    ReplaceManager,
    /// Apply the theme of the command that is handled.
    ApplyTheme,
    /// Take over the state of the command that is handled.
    ApplyState,
    /// Write down by how much the containers of the focused workspace were resized, to a
    /// file or to the place for quick saves.
    SaveResizeDimensions(Option<String>),
    /// Read what was written down.
    LoadResizeDimensions(Option<String>),
    /// Connect to the named pipe of a subscriber.
    ConnectPipe(String),
}

} // verus!
