//! What the window system is asked to do, as a list of steps in order.

use vstd::prelude::*;

use crate::animation::settings::AnimationStyle;
use crate::apply_worker::ApplyOp;
use crate::apply_worker::ApplyOpView;
use crate::behaviour::FocusFollowsMouseImplementation;
use crate::geometry::Rect;
use crate::manager_op::ManagerOp;
use crate::reply::Reply;
use crate::reply::ReplyView;
use crate::wallpaper_worker::Wallpaper;
use crate::window_manager_event::WindowManagerEvent;
use crate::workspace::WorkspaceLayer;

verus! {

/// One call into the window system.
#[derive(Debug)]
pub enum Call {
    HideWindow(isize),
    MinimizeWindow(isize),
    CloakWindow(isize),
    UncloakWindow(isize),
    RestoreWindowSync(isize),
    MaximizeWindow(isize),
    /// Maximize the window once the movement animations have come down to the given
    /// number again, or have been waited for long enough.
    MaximizeWindowAfterMovement(isize, usize),
    UnmaximizeWindow(isize),
    CloseWindow(isize),
    HideBorder(isize),
    ShowBorder(isize),
    RaiseWindow(isize),
    RaiseWindowSync(isize),
    /// Raise above the active window by way of the topmost band.
    RaiseWindowAboveActive(isize),
    MakeTopmostWindow(isize),
    ClearTopmostWindow(isize),
    LowerWindow(isize),
    LowerWindowSync(isize),
    /// Raise the first window immediately below the second.
    RaiseWindowBelow(isize, isize),
    BringWindowToTop(isize),
    RaiseAndFocusWindow(isize),
    RaiseAndFocusDesktop,
    /// Move the cursor to the centre of where the window is by then.
    CenterCursorOnWindow(isize),
    CenterCursorInRect(Rect),
    LeftClick,
    PositionWindow { hwnd: isize, rect: Rect, top: bool },
    PositionWindowAsync { hwnd: isize, rect: Rect, top: bool, send_changing: bool },
    InvalidateRect(isize),
    AnimateMovement {
        hwnd: isize,
        start: Rect,
        target: Rect,
        top: bool,
        duration_ms: u64,
        style: AnimationStyle,
    },
    AnimateTransparency {
        hwnd: isize,
        is_opaque: bool,
        from_alpha: u8,
        to_alpha: u8,
        duration_ms: u64,
        style: AnimationStyle,
    },
    SetTransparent(isize, u8),
    UpdateStyle(isize, u32),
    UpdateExStyle(isize, u32),
    SetWindowAccent(isize, Option<u32>),
    /// Forget what was cached of a window that is gone.
    InvalidateWindowMetadata(isize),
    EnableFocusFollowsMouse,
    DisableFocusFollowsMouse,
    DestroyAllBorders,
    /// Wait for so many milliseconds.
    Sleep(u64),
    /// Lay a workspace out.
    UpdateWorkspace { monitor: isize, workspace: usize },
    /// Show the windows of a workspace, and its wallpaper, or that of its monitor where it
    /// has none of its own.
    RestoreWorkspace {
        monitor: isize,
        workspace: usize,
        mouse_follows_focus: bool,
        trigger_focus: bool,
        monitor_wallpaper: Option<Wallpaper>,
    },
    /// Hide the windows of a workspace.
    HideWorkspace { monitor: isize, workspace: usize },
}

/// A workspace, by the index of its monitor and its own.
#[derive(Clone, Copy, Debug, PartialEq, Eq, Structural)]
pub struct Place {
    pub monitor: usize,
    pub workspace: usize,
}

/// How far the handling of an event has come.
#[derive(Clone, Copy, Debug, PartialEq, Eq, Structural)]
pub enum EventStage {
    /// The window is managed, and its application had the time that it needs.
    Arrive,
    /// The windows are managed again after another virtual desktop was left.
    Enter,
    /// The workspace rules are enforced.
    Handle,
    /// The window on which something was dropped is managed, and its application had the
    /// time that it needs.
    Dropped,
    /// The window is raised.
    Raised,
    /// The workspace that the window left is laid out again.
    Removed,
    /// The workspace that a hidden window left is laid out again.
    Gone,
    /// The focused workspace is laid out before the focus is taken over.
    FocusUpdated { is_pinned: bool },
    /// The window of the monocle container is focused.
    FocusLayer { previous: WorkspaceLayer, flips_suppressed: bool },
    /// The focus is taken over, and the layers are to follow.
    FocusOverlay {
        previous: WorkspaceLayer,
        own_float: bool,
        is_pinned: bool,
        keep_overlay: bool,
        flips_suppressed: bool,
    },
    /// It is known whether the window was maximized natively.
    Captured,
    /// It is known whether the window that was moved was maximized natively.
    MoveCaptured,
    /// The window that is moved is on top.
    MoveStarted,
    /// The window is on the other monitor.
    Transferred { origin: Place, target: Place },
    /// The workspace that the window left is laid out again.
    OriginUpdated { target: Place },
    /// The workspace to which the window came is laid out again.
    TargetUpdated,
    /// The workspace of a window that is known already has the focus.
    Reconciled,
    /// The workspace is laid out with a new floating window.
    ShowFloated { pin: bool, previous: WorkspaceLayer, had_monocle: bool },
    /// The new window is on its workspace.
    ShowAdded { previous: WorkspaceLayer, had_monocle: bool },
    /// The new window has the focus, where it gets it.
    ShowFocused { previous: WorkspaceLayer },
    /// Everything but the report is done.
    Settled,
    /// The windows are known at their places.
    Report,
}

/// Where the manager is asked again, once the steps before have been taken and the window
/// system has answered anew.
#[derive(Clone, Copy, Debug, PartialEq, Eq, Structural)]
pub enum Resume {
    /// Stack the layers of the monitor with this handle after a switch.
    RestackAfterSwitch(isize),
    /// Lay the focused workspace of the monitor with this handle out.
    UpdateMonitor(isize),
    /// Show or hide the pinned windows of the monitor with this handle as they should be.
    SettlePins(isize),
    /// Go on with an event.
    Event(EventStage, WindowManagerEvent),
}

/// How far the handling of a command has come.
#[derive(Clone, Copy, Debug, PartialEq, Eq, Structural)]
pub enum CommandStage {
    /// The command is carried out, but for what follows every command.
    Finish { force_borders: bool },
    /// The window that was looked for has the focus, and its workspace is to be shown.
    LoadFocused,
    /// The focused monitor is to remember which workspace it showed before.
    NoteLastWorkspace(usize),
    /// The monitors before an index show the workspace with an index of their own.
    SwitchNext { workspace: usize, monitor: usize },
    /// The floating layer is up, and a window of it has the focus.
    LayerShown { focus: Option<isize>, lower_ignored: bool },
    /// The window system lets the focus follow the mouse, or does not any more.
    NoteFocusFollowsMouse(Option<FocusFollowsMouseImplementation>),
    /// It is known whether there is a configuration that can be used.
    ConfigurationChecked,
    /// The pipe of a subscriber is connected.
    PipeConnected,
    /// The resized rectangles are read.
    ResizeLoaded,
    /// A window that a new rule sends away has left its workspace.
    Purge,
}

/// What subscribers are told of.
#[derive(Clone, Copy, Debug, PartialEq, Eq, Structural)]
pub enum Notice {
    Event(WindowManagerEvent),
    /// The command that is being handled.
    Command,
    EnteredAssociatedVirtualDesktop,
    LeftAssociatedVirtualDesktop,
}

/// A message to another part of the window manager. It is sent without waiting and
/// never fails.
#[derive(Clone, Copy, Debug, PartialEq, Eq, Structural)]
pub enum Signal {
    UpdateBorders(Option<isize>),
    ForceUpdateBorders,
    UpdateTransparency,
    UpdateStackbars,
    DisableStackbars,
    EnableStackbars,
    FollowFocus(isize, Option<Rect>),
    WakeAnimations,
}

/// One step of a plan.
pub enum Step {
    /// Make the call. Where it fails, the rest of the plan is given up.
    Do(Call),
    /// Make the call, and where it succeeds the second one. A failure is only noted.
    Try(Call, Option<Call>),
    /// Lower all windows in one deferred pass. A failure is only noted.
    LowerAll(Vec<isize>),
    /// Raise all windows in one deferred pass. A failure is only noted.
    RaiseAll(Vec<isize>),
    /// Hand the operation to the apply worker.
    Apply(ApplyOp),
    Send(Signal),
    /// Carry out an operation on the state of the window manager. Where it fails, the
    /// rest of the plan is given up.
    Manage(ManagerOp),
    /// Keep the state of the window manager for a comparison later on.
    RememberState,
    /// Tell the subscribers, and whether the state has changed.
    Notify(Notice, bool),
    /// Ask the manager again.
    Continue(Resume),
    /// Answer to the client that sent the command.
    Reply(Reply),
    /// Ask the manager again about the command that is handled.
    ContinueCommand(CommandStage),
}

/// One step of a plan, for contracts.
pub enum StepView {
    Do(Call),
    Try(Call, Option<Call>),
    LowerAll(Seq<isize>),
    RaiseAll(Seq<isize>),
    Apply(ApplyOpView),
    Send(Signal),
    Manage(ManagerOp),
    RememberState,
    Notify(Notice, bool),
    Continue(Resume),
    Reply(ReplyView),
    ContinueCommand(CommandStage),
}

impl View for Step {
    type V = StepView;

    open spec fn view(&self) -> StepView {
        match self {
            Step::Do(call) => StepView::Do(*call),
            Step::Try(call, next) => StepView::Try(*call, *next),
            Step::LowerAll(hwnds) => StepView::LowerAll(hwnds@),
            Step::RaiseAll(hwnds) => StepView::RaiseAll(hwnds@),
            Step::Apply(op) => StepView::Apply(op@),
            Step::Send(signal) => StepView::Send(*signal),
            Step::Manage(op) => StepView::Manage(*op),
            Step::RememberState => StepView::RememberState,
            Step::Notify(notice, modified) => StepView::Notify(*notice, *modified),
            Step::Continue(resume) => StepView::Continue(*resume),
            Step::Reply(reply) => StepView::Reply(reply@),
            Step::ContinueCommand(stage) => StepView::ContinueCommand(*stage),
        }
    }
}

/// Steps in the order in which they are to be taken.
pub struct Plan {
    pub steps: Vec<Step>,
}

impl View for Plan {
    type V = Seq<StepView>;

    open spec fn view(&self) -> Seq<StepView> {
        self.steps@.map_values(|step: Step| step@)
    }
}

impl Plan {
    pub fn new() -> (r: Self)
        ensures
            r@ == Seq::<StepView>::empty(),
    {
        let r = Plan { steps: Vec::new() };
        assert(r@ =~= Seq::<StepView>::empty());
        r
    }

    pub fn push(&mut self, step: Step)
        ensures
            final(self)@ == old(self)@.push(step@),
    {
        self.steps.push(step);
        assert(self@ =~= old(self)@.push(step@));
    }

    /// Make a call.
    pub fn call(&mut self, call: Call)
        ensures
            final(self)@ == old(self)@.push(StepView::Do(call)),
    {
        self.push(Step::Do(call));
    }

    /// Carry out an operation on the state of the window manager.
    pub fn manage(&mut self, op: ManagerOp)
        ensures
            final(self)@ == old(self)@.push(StepView::Manage(op)),
    {
        self.push(Step::Manage(op));
    }

    /// Ask the manager again.
    pub fn ask(&mut self, resume: Resume)
        ensures
            final(self)@ == old(self)@.push(StepView::Continue(resume)),
    {
        self.push(Step::Continue(resume));
    }

    /// Send a message.
    pub fn send(&mut self, signal: Signal)
        ensures
            final(self)@ == old(self)@.push(StepView::Send(signal)),
    {
        self.push(Step::Send(signal));
    }
}

} // verus!
