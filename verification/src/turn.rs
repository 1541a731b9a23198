//! What the window manager goes by when it is asked, and what it answers.

use vstd::prelude::*;

use crate::behaviour::WindowManagementBehaviour;
use crate::error::Error;
use crate::geometry::Rect;
use crate::manager_op::ManagerOp;
use crate::plan::Resume;
use crate::plan::Step;
use crate::plan::StepView;
use crate::rule_set::RuleSet;
use crate::settings::Settings;
use crate::window::Screen;
use crate::window::ScreenView;
use crate::window_manager::ManagerView;

verus! {

/// What is observed around the windows when the manager is asked.
pub struct Observations {
    /// The index of the monitor under the cursor.
    pub cursor_monitor: Option<usize>,
    /// For each monitor, the container under the cursor on its focused workspace.
    pub cursor_containers: Vec<Option<usize>>,
    /// The index of the monitor on which the window of the event is.
    pub event_monitor: Option<usize>,
    /// The virtual desktop that is shown.
    pub virtual_desktop: Option<Vec<u8>>,
    /// A display is being connected or disconnected.
    pub display_changing: bool,
    /// A change of the focus follows from an operation of the window manager itself.
    pub flips_suppressed: bool,
    /// The floating windows were raised a short time ago.
    pub overlay_suppressed: bool,
    /// What happens to new windows on the focused workspace.
    pub behaviour: WindowManagementBehaviour,
    /// The windows that are dimmed.
    pub dimmed_hwnds: Vec<isize>,
    /// What the last operation answered.
    pub answer: bool,
    /// The state differs from the one that was remembered.
    pub modified: bool,
    /// Someone wants to be notified.
    pub has_subscribers: bool,
    /// Whether the window system lets the focus follow the mouse, where it tells.
    pub system_focus_follows_mouse: Option<bool>,
    /// By how much containers were resized, as it was read from a file.
    pub resize_dimensions: Vec<Option<Rect>>,
}

/// What is observed, for contracts.
pub struct ObservationsView {
    pub cursor_monitor: Option<usize>,
    pub cursor_containers: Seq<Option<usize>>,
    pub event_monitor: Option<usize>,
    pub virtual_desktop: Option<Seq<u8>>,
    pub display_changing: bool,
    pub flips_suppressed: bool,
    pub overlay_suppressed: bool,
    pub behaviour: WindowManagementBehaviour,
    pub dimmed_hwnds: Seq<isize>,
    pub answer: bool,
    pub modified: bool,
    pub has_subscribers: bool,
    pub system_focus_follows_mouse: Option<bool>,
    pub resize_dimensions: Seq<Option<Rect>>,
}

impl View for Observations {
    type V = ObservationsView;

    open spec fn view(&self) -> ObservationsView {
        ObservationsView {
            cursor_monitor: self.cursor_monitor,
            cursor_containers: self.cursor_containers@,
            event_monitor: self.event_monitor,
            virtual_desktop: crate::window_manager::bytes_of(self.virtual_desktop),
            display_changing: self.display_changing,
            flips_suppressed: self.flips_suppressed,
            overlay_suppressed: self.overlay_suppressed,
            behaviour: self.behaviour,
            dimmed_hwnds: self.dimmed_hwnds@,
            answer: self.answer,
            modified: self.modified,
            has_subscribers: self.has_subscribers,
            system_focus_follows_mouse: self.system_focus_follows_mouse,
            resize_dimensions: self.resize_dimensions@,
        }
    }
}

impl ObservationsView {
    /// The container under the cursor on the focused workspace of a monitor.
    pub open spec fn cursor_container(self, monitor_idx: int) -> Option<usize> {
        if 0 <= monitor_idx < self.cursor_containers.len() {
            self.cursor_containers[monitor_idx]
        } else {
            None
        }
    }
}

impl Observations {
    /// The container under the cursor on the focused workspace of a monitor.
    pub fn cursor_container(&self, monitor_idx: usize) -> (r: Option<usize>)
        ensures
            r == self@.cursor_container(monitor_idx as int),
    {
        if monitor_idx < self.cursor_containers.len() {
            self.cursor_containers[monitor_idx]
        } else {
            None
        }
    }
}

/// Rules, settings and observations.
pub struct Context<'a> {
    pub rules: &'a RuleSet,
    pub settings: &'a Settings,
    pub seen: &'a Observations,
}

/// Rules, settings and observations, for contracts.
pub struct ContextView {
    pub rules: RuleSet,
    pub settings: Settings,
    pub seen: ObservationsView,
}

impl<'a> View for Context<'a> {
    type V = ContextView;

    open spec fn view(&self) -> ContextView {
        ContextView { rules: *self.rules, settings: *self.settings, seen: self.seen@ }
    }
}

impl ContextView {
    pub open spec fn wf(self) -> bool {
        self.rules.wf()
    }
}

/// What comes of asking the manager: its state, what is on the screen and what is asked
/// of the window system, and whether it failed. The plan is carried out also where it
/// failed.
pub struct Turn {
    pub manager: ManagerView,
    pub screen: ScreenView,
    pub result: Result<(), Error>,
}

/// A turn that succeeds.
pub open spec fn done(manager: ManagerView, screen: ScreenView) -> Turn {
    Turn { manager, screen, result: Ok(()) }
}

/// A turn that fails.
pub open spec fn failed(manager: ManagerView, screen: ScreenView, error: Error) -> Turn {
    Turn { manager, screen, result: Err(error) }
}

impl ScreenView {
    /// Carry out an operation on the state of the window manager.
    pub open spec fn managing(self, op: ManagerOp) -> ScreenView {
        self.taking(StepView::Manage(op))
    }

    /// Lay the focused workspace out.
    pub open spec fn updating(self, follow_focus: bool, trigger_focus: bool) -> ScreenView {
        self.managing(ManagerOp::UpdateFocusedWorkspace { follow_focus, trigger_focus })
    }

    /// Ask the manager again.
    pub open spec fn asking(self, resume: Resume) -> ScreenView {
        self.taking(StepView::Continue(resume))
    }
}

impl Screen {
    /// Carry out an operation on the state of the window manager.
    pub fn manage(&mut self, op: ManagerOp)
        ensures
            final(self)@ == old(self)@.managing(op),
    {
        self.plan.manage(op);
    }

    /// Lay the focused workspace out.
    pub fn update(&mut self, follow_focus: bool, trigger_focus: bool)
        ensures
            final(self)@ == old(self)@.updating(follow_focus, trigger_focus),
    {
        self.plan.manage(ManagerOp::UpdateFocusedWorkspace { follow_focus, trigger_focus });
    }

    /// Ask the manager again.
    pub fn ask(&mut self, resume: Resume)
        ensures
            final(self)@ == old(self)@.asking(resume),
    {
        self.plan.ask(resume);
    }

    /// Take a step.
    pub fn take_step(&mut self, step: Step)
        ensures
            final(self)@ == old(self)@.taking(step@),
    {
        self.plan.push(step);
    }
}

/// Whether two lists of bytes are the same.
pub fn same_bytes(a: &Vec<u8>, b: &Vec<u8>) -> (r: bool)
    ensures
        r == (a@ == b@),
{
    if a.len() != b.len() {
        return false;
    }
    let mut i: usize = 0;
    while i < a.len()
        invariant
            a@.len() == b@.len(),
            i <= a@.len(),
            forall|k: int| 0 <= k < i ==> a@[k] == b@[k],
        decreases a@.len() - i,
    {
        if a[i] != b[i] {
            return false;
        }
        i = i + 1;
    }
    assert(a@ =~= b@);
    true
}

} // verus!
