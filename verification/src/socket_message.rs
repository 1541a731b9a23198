//! The commands that the window manager takes.

use vstd::prelude::*;

use crate::animation::settings::AnimationPrefix;
use crate::animation::settings::AnimationStyle;
use crate::behaviour::BorderImplementation;
use crate::behaviour::FocusFollowsMouseImplementation;
use crate::behaviour::MonocleFocusBehaviour;
use crate::behaviour::MoveBehaviour;
use crate::behaviour::OperationBehaviour;
use crate::geometry::Axis;
use crate::geometry::CycleDirection;
use crate::geometry::DefaultLayout;
use crate::geometry::OperationDirection;
use crate::geometry::Rect;
use crate::geometry::Sizing;
use crate::rules::ApplicationIdentifier;
use crate::window::HidingBehaviour;

verus! {

/// In which direction the focus goes, and whether it may go on to another monitor.
#[derive(Clone, Copy, Debug, PartialEq, Eq, Structural)]
pub enum CycleFocusWindowContent {
    DirectionOnly(CycleDirection),
    DirectionWithOverride(CycleDirection, Option<bool>),
}

/// What a client can ask of the state.
#[derive(Clone, Copy, Debug, PartialEq, Eq, Structural)]
pub enum StateQuery {
    FocusedMonitorIndex,
    FocusedWorkspaceIndex,
    FocusedContainerIndex,
    FocusedWindowIndex,
    FocusedWorkspaceName,
    Version,
    FocusedWorkspaceLayout,
    FocusedContainerKind,
}

/// For which windows a border is drawn.
#[derive(Clone, Copy, Debug, PartialEq, Eq, Structural)]
pub enum WindowKind {
    Single,
    Stack,
    Monocle,
    Unfocused,
    UnfocusedLocked,
    Floating,
    Pinned,
}

#[derive(Clone, Copy, Debug, PartialEq, Eq, Structural)]
pub enum BorderStyle {
    System,
    Rounded,
    Square,
}

#[derive(Clone, Copy, Debug, PartialEq, Eq, Structural)]
pub enum StackbarMode {
    Always,
    Never,
    OnStack,
}

#[derive(Clone, Copy, Debug, PartialEq, Eq, Structural)]
pub enum StackbarLabel {
    Process,
    Title,
}

/// What a subscriber wants to be told.
#[derive(Clone, Copy, Debug, PartialEq, Eq, Structural)]
pub struct SubscribeOptions {
    /// Only what changed the state.
    pub filter_state_changes: bool,
}

/// A command. Where a command carries ratios, a theme, a state or a list of names, what
/// carries the command out takes them from where the command came from.
#[derive(Debug)]
pub enum SocketMessage {
    // Windows and containers
    FocusWindow(OperationDirection),
    MoveWindow(OperationDirection),
    PreselectDirection(OperationDirection),
    CancelPreselect,
    CycleFocusWindow(CycleFocusWindowContent),
    CycleMoveWindow(CycleDirection),
    StackWindow(OperationDirection),
    UnstackWindow,
    CycleStack(CycleDirection),
    CycleStackIndex(CycleDirection),
    FocusStackWindow(usize),
    StackAll,
    UnstackAll,
    ResizeWindowEdge(OperationDirection, Sizing),
    ResizeWindowAxis(Axis, Sizing),
    MoveContainerToLastWorkspace,
    SendContainerToLastWorkspace,
    MoveContainerToMonitorNumber(usize),
    CycleMoveContainerToMonitor(CycleDirection),
    MoveContainerToWorkspaceNumber(usize),
    MoveContainerToNamedWorkspace(String),
    CycleMoveContainerToWorkspace(CycleDirection),
    SendContainerToMonitorNumber(usize),
    CycleSendContainerToMonitor(CycleDirection),
    SendContainerToWorkspaceNumber(usize),
    SendContainerToNamedWorkspace(String),
    CycleSendContainerToWorkspace(CycleDirection),
    SendContainerToMonitorWorkspaceNumber(usize, usize),
    MoveContainerToMonitorWorkspaceNumber(usize, usize),
    MoveWorkspaceToMonitorNumber(usize),
    CycleMoveWorkspaceToMonitor(CycleDirection),
    SwapWorkspacesToMonitorNumber(usize),
    ForceFocus,
    Close,
    Minimize,
    ReclaimMinimizedWindows,
    ReclaimLastMinimizedWindow,
    Promote,
    PromoteFocus,
    PromoteSwap,
    PromoteWindow(OperationDirection),
    EagerFocus(String),
    LockMonitorWorkspaceContainer(usize, usize, usize),
    UnlockMonitorWorkspaceContainer(usize, usize, usize),
    ToggleLock,
    ToggleFloat,
    TogglePin,
    TogglePinAlwaysOnTop,
    ToggleMonocle,
    ToggleMaximize,
    ToggleWindowContainerBehaviour,
    ToggleFloatOverride,
    WindowHidingBehaviour(HidingBehaviour),
    ToggleCrossMonitorMoveBehaviour,
    CrossMonitorMoveBehaviour(MoveBehaviour),
    ToggleMonocleFocusBehaviour,
    MonocleFocusBehaviour(MonocleFocusBehaviour),
    UnmanagedWindowOperationBehaviour(OperationBehaviour),
    ManageFocusedWindow,
    UnmanageFocusedWindow,
    // The focused workspace
    AdjustContainerPadding(Sizing, i32),
    AdjustWorkspacePadding(Sizing, i32),
    FocusedWorkspaceContainerPadding(i32),
    FocusedWorkspacePadding(i32),
    ChangeLayout(DefaultLayout),
    CycleLayout(CycleDirection),
    LayoutRatios,
    ScrollingLayoutColumns(usize),
    ChangeLayoutCustom(String),
    FlipLayout(Axis),
    ToggleWorkspaceWindowContainerBehaviour,
    ToggleWorkspaceFloatOverride,
    ToggleWorkspaceLayer,
    ToggleIgnoredWindowLayer,
    ToggleTiling,
    // Monitors and workspaces
    MonitorIndexPreference(usize, i32, i32, i32, i32),
    DisplayIndexPreference(usize, String),
    EnsureWorkspaces(usize, usize),
    EnsureNamedWorkspaces(usize),
    NewWorkspace,
    TogglePause,
    Stop,
    StopIgnoreRestore,
    Retile,
    RetileWithResizeDimensions,
    QuickSave,
    QuickLoad,
    Save(String),
    Load(String),
    CycleFocusMonitor(CycleDirection),
    CycleFocusWorkspace(CycleDirection),
    CycleFocusEmptyWorkspace(CycleDirection),
    FocusMonitorNumber(usize),
    FocusMonitorAtCursor,
    FocusLastWorkspace,
    CloseWorkspace,
    FocusWorkspaceNumber(usize),
    FocusWorkspaceNumbers(usize),
    FocusMonitorWorkspaceNumber(usize, usize),
    FocusNamedWorkspace(String),
    ContainerPadding(usize, usize, i32),
    NamedWorkspaceContainerPadding(String, i32),
    WorkspacePadding(usize, usize, i32),
    NamedWorkspacePadding(String, i32),
    WorkspaceTiling(usize, usize, bool),
    NamedWorkspaceTiling(String, bool),
    WorkspaceName(usize, usize, String),
    WorkspaceLayout(usize, usize, DefaultLayout),
    NamedWorkspaceLayout(String, DefaultLayout),
    WorkspaceLayoutCustom(usize, usize, String),
    NamedWorkspaceLayoutCustom(String, String),
    WorkspaceLayoutRule(usize, usize, usize, DefaultLayout),
    NamedWorkspaceLayoutRule(String, usize, DefaultLayout),
    WorkspaceLayoutCustomRule(usize, usize, usize, String),
    NamedWorkspaceLayoutCustomRule(String, usize, String),
    ClearWorkspaceLayoutRules(usize, usize),
    ClearNamedWorkspaceLayoutRules(String),
    // Configuration
    ReloadConfiguration,
    ReplaceConfiguration(String),
    ReloadStaticConfiguration(String),
    WatchConfiguration(bool),
    CompleteConfiguration,
    AltFocusHack(bool),
    Theme,
    ApplyState,
    Animation(bool, Option<AnimationPrefix>),
    AnimationDuration(u64, Option<AnimationPrefix>),
    AnimationFps(u64),
    AnimationStyle(AnimationStyle, Option<AnimationPrefix>),
    Border(bool),
    BorderColour(WindowKind, u32, u32, u32),
    BorderStyle(BorderStyle),
    BorderWidth(i32),
    BorderOffset(i32),
    BorderImplementation(BorderImplementation),
    Transparency(bool),
    ToggleTransparency,
    TransparencyAlpha(u8),
    TransparencyFloating(bool),
    ToggleTransparencyFloating,
    TransparencyMonocle(bool),
    ToggleTransparencyMonocle,
    InvisibleBorders(Rect),
    StackbarMode(StackbarMode),
    StackbarLabel(StackbarLabel),
    StackbarFocusedTextColour(u32, u32, u32),
    StackbarUnfocusedTextColour(u32, u32, u32),
    StackbarBackgroundColour(u32, u32, u32),
    StackbarHeight(i32),
    StackbarTabWidth(i32),
    StackbarFontSize(i32),
    StackbarFontFamily(Option<String>),
    WorkAreaOffset(Rect),
    MonitorWorkAreaOffset(usize, Rect),
    WorkspaceWorkAreaOffset(usize, usize, Rect),
    ToggleWindowBasedWorkAreaOffset,
    ResizeDelta(i32),
    // Rules
    InitialWorkspaceRule(ApplicationIdentifier, String, usize, usize),
    InitialNamedWorkspaceRule(ApplicationIdentifier, String, String),
    WorkspaceRule(ApplicationIdentifier, String, usize, usize),
    NamedWorkspaceRule(ApplicationIdentifier, String, String),
    ClearWorkspaceRules(usize, usize),
    ClearNamedWorkspaceRules(String),
    ClearAllWorkspaceRules,
    EnforceWorkspaceRules,
    EnforceStackRules,
    SessionFloatRule,
    SessionFloatRules,
    ClearSessionFloatRules,
    IgnoreRule(ApplicationIdentifier, String),
    ManageRule(ApplicationIdentifier, String),
    IdentifyObjectNameChangeApplication(ApplicationIdentifier, String),
    IdentifyTrayApplication(ApplicationIdentifier, String),
    IdentifyLayeredApplication(ApplicationIdentifier, String),
    IdentifyBorderOverflowApplication(ApplicationIdentifier, String),
    RemoveTitleBar(ApplicationIdentifier, String),
    ToggleTitleBars,
    // Questions
    State,
    GlobalState,
    VisibleWindows,
    MonitorInformation,
    Query(StateQuery),
    DebugWindow(isize),
    ApplicationSpecificConfigurationSchema,
    NotificationSchema,
    SocketSchema,
    StaticConfigSchema,
    GenerateStaticConfig,
    // The mouse
    FocusFollowsMouse(FocusFollowsMouseImplementation, bool),
    ToggleFocusFollowsMouse(FocusFollowsMouseImplementation),
    MouseFollowsFocus(bool),
    ToggleMouseFollowsFocus,
    // Subscribers
    AddSubscriberSocket(String),
    AddSubscriberSocketWithOptions(String, SubscribeOptions),
    RemoveSubscriberSocket(String),
    AddSubscriberPipe(String),
    RemoveSubscriberPipe(String),
}

} // verus!
