//! Which windows are dimmed.

use vstd::prelude::*;

use crate::container::Container;
use crate::container::ContainerView;
use crate::desktop::Desktop;
use crate::desktop::DesktopView;
use crate::monitor;
use crate::monitor::Monitor;
use crate::monitor::MonitorView;
use crate::pins;
use crate::plan::Plan;
use crate::plan::Signal;
use crate::plan::StepView;
use crate::rule_set::RuleSet;
use crate::rules;
use crate::rules::WindowTexts;
use crate::settings::TransparencySettings;
use crate::window;
use crate::window::Window;
use crate::window_manager::ManagerView;
use crate::window_manager::WindowManager;
use crate::workspace::Workspace;
use crate::workspace::WorkspaceLayer;
use crate::workspace::WorkspaceView;

verus! {

/// The least time, in milliseconds, between two passes.
pub const SETTLE_DURATION_MS: u64 = 50;

/// The handles with one more, where it is not among them already.
pub open spec fn remembered(known: Seq<isize>, hwnd: isize) -> Seq<isize> {
    if known.contains(hwnd) {
        known
    } else {
        known.push(hwnd)
    }
}

/// Ask for the dimming to follow what has changed.
pub fn send_notification(plan: &mut Plan)
    ensures
        final(plan)@ == old(plan)@.push(StepView::Send(Signal::UpdateTransparency)),
{
    plan.send(Signal::UpdateTransparency);
}

/// The windows that are dimmed.
pub fn known_hwnds(known: &Vec<isize>) -> (r: Vec<isize>)
    ensures
        r@ == known@,
{
    let mut copy: Vec<isize> = Vec::new();
    let mut i: usize = 0;
    while i < known.len()
        invariant
            i <= known@.len(),
            copy@ == known@.take(i as int),
        decreases known@.len() - i,
    {
        copy.push(known[i]);
        i = i + 1;
        assert(copy@ =~= known@.take(i as int));
    }
    assert(known@.take(i as int) =~= known@);
    copy
}

/// Remember that a window is transparent, so that it can be restored later.
pub fn track_transparent_hwnd(known: &mut Vec<isize>, hwnd: isize)
    ensures
        final(known)@ == remembered(old(known)@, hwnd),
{
    if window::position_of(known, hwnd).is_none() {
        known.push(hwnd);
    }
}

/// Forget a window once it is opaque.
pub fn untrack_opaque_hwnd(known: &mut Vec<isize>, hwnd: isize)
    ensures
        final(known)@ == pins::without_hwnd(old(known)@, hwnd),
{
    pins::drop_hwnd(known, hwnd);
}

/// Whether a rule keeps a window from being dimmed. A window whose texts are not known
/// is dimmed.
pub open spec fn blacklisted(hwnd: isize, rules: RuleSet, d: DesktopView) -> bool {
    let facts = d.at(hwnd);
    match (facts.title, facts.exe, facts.class, facts.path) {
        (Some(title), Some(exe), Some(class), Some(path)) => rules::last_match(
            rules.transparency_blacklist@,
            WindowTexts { title: title@, exe: exe@, class: class@, path: path@ },
            rules.regex_identifiers@,
        ) is Some,
        _ => false,
    }
}

/// Whether a rule keeps a window from being dimmed.
pub fn is_transparency_blacklisted(window: &Window, rules: &RuleSet, desktop: &Desktop) -> (r: bool)
    requires
        rules.wf(),
    ensures
        r == blacklisted(window.hwnd, *rules, desktop@),
{
    match desktop.facts(window.hwnd) {
        Some(facts) => match (&facts.title, &facts.exe, &facts.class, &facts.path) {
            (Some(title), Some(exe), Some(class), Some(path)) => rules::should_act(
                title.as_str(),
                exe.as_str(),
                class.as_str(),
                path.as_str(),
                &rules.transparency_blacklist,
                &rules.regex_identifiers,
            ).is_some(),
            _ => false,
        },
        None => false,
    }
}

/// The windows to dim and to restore so far, and those that are remembered as dimmed.
#[verifier::ext_equal]
pub struct Targets {
    pub transparent: Seq<isize>,
    pub opaque: Seq<isize>,
    pub known: Seq<isize>,
}

impl Targets {
    /// Dim or restore one more window.
    pub open spec fn painting(self, hwnd: isize, transparent: bool) -> Targets {
        if transparent {
            Targets { transparent: self.transparent.push(hwnd), ..self }
        } else {
            Targets { opaque: self.opaque.push(hwnd), ..self }
        }
    }

    /// Remember one more window.
    pub open spec fn tracking(self, hwnd: isize) -> Targets {
        Targets { known: remembered(self.known, hwnd), ..self }
    }

    /// Restore some more windows.
    pub open spec fn restoring(self, hwnds: Seq<isize>) -> Targets {
        Targets { opaque: self.opaque + hwnds, ..self }
    }

    /// Dim or restore some more windows.
    pub open spec fn painting_each(self, windows: Seq<Window>, dims: spec_fn(isize) -> bool) -> Targets
        decreases windows.len(),
    {
        if windows.len() == 0 {
            self
        } else {
            self.painting_each(windows.drop_last(), dims).painting(
                windows.last().hwnd,
                dims(windows.last().hwnd),
            )
        }
    }
}

/// What one pass goes by.
pub struct PassView {
    pub focused_monitor: int,
    /// The foreground is not to be trusted because a switch is settling.
    pub settling: bool,
    pub foreground: isize,
    pub is_maximized: bool,
    pub settings: TransparencySettings,
    pub rules: RuleSet,
    pub d: DesktopView,
}

impl PassView {
    /// Whether a window has the foreground for certain.
    pub open spec fn is_foreground(self, hwnd: isize) -> bool {
        !self.settling && hwnd == self.foreground
    }

    /// Whether a window that is not focused stays opaque.
    pub open spec fn exempt(self, hwnd: isize) -> bool {
        blacklisted(hwnd, self.rules, self.d) || self.is_foreground(hwnd)
    }

    /// Whether a floating window is dimmed.
    pub open spec fn dims_float(self, hwnd: isize) -> bool {
        self.settings.floating && !self.exempt(hwnd)
    }

    /// The first windows of a container. Only the one that is shown is dimmed or
    /// restored, the others are remembered.
    pub open spec fn container(
        self,
        targets: Targets,
        container: ContainerView,
        in_background: bool,
        len: int,
    ) -> Targets
        decreases len,
    {
        if len <= 0 {
            targets
        } else {
            let before = self.container(targets, container, in_background, len - 1);
            let hwnd = container.windows.elements[len - 1].hwnd;
            if len - 1 == container.windows.focused {
                before.painting(hwnd, in_background && !self.exempt(hwnd))
            } else {
                before.tracking(hwnd)
            }
        }
    }

    /// Whether a container is in the background: it is not the focused one of the
    /// focused monitor, or the floating layer is on top.
    pub open spec fn in_background(
        self,
        workspace: WorkspaceView,
        idx: int,
        monitor_idx: int,
    ) -> bool {
        idx != workspace.containers.focused || monitor_idx != self.focused_monitor
            || workspace.layer == WorkspaceLayer::Floating
    }

    /// The first containers of a workspace.
    pub open spec fn containers(
        self,
        targets: Targets,
        workspace: WorkspaceView,
        monitor_idx: int,
        len: int,
    ) -> Targets
        decreases len,
    {
        if len <= 0 {
            targets
        } else {
            let container = workspace.containers.elements[len - 1];
            self.container(
                self.containers(targets, workspace, monitor_idx, len - 1),
                container,
                self.in_background(workspace, len - 1, monitor_idx),
                container.windows.elements.len() as int,
            )
        }
    }

    /// The focused workspace of a monitor.
    ///
    /// Where it does not tile, everything on it is opaque. A monocle container is dimmed
    /// only on a monitor that is not focused. Below a maximized foreground window nothing
    /// is looked at.
    pub open spec fn workspace(
        self,
        targets: Targets,
        workspace: WorkspaceView,
        monitor_idx: int,
    ) -> Targets {
        if !workspace.tile {
            targets.restoring(hwnds_of(workspace.visible()))
        } else if workspace.monocle_container is Some {
            match workspace.monocle_front() {
                Some(window) => targets.painting(
                    window.hwnd,
                    self.settings.monocle && monitor_idx != self.focused_monitor && !blacklisted(
                        window.hwnd,
                        self.rules,
                        self.d,
                    ),
                ),
                None => targets,
            }
        } else if self.is_maximized && !self.settling && monitor_idx == self.focused_monitor {
            targets.painting(self.foreground, false)
        } else {
            self.containers(
                targets,
                workspace,
                monitor_idx,
                workspace.containers.elements.len() as int,
            ).painting_each(
                workspace.floating_windows.elements,
                |hwnd: isize| self.dims_float(hwnd),
            )
        }
    }

    /// One monitor. Its pinned windows are always opaque, and workspaces that are not
    /// focused are left as they are.
    pub open spec fn monitor(
        self,
        targets: Targets,
        monitor: MonitorView,
        monitor_idx: int,
    ) -> Targets {
        let pinned = targets.restoring(monitor.pinned_floating);
        match monitor.workspaces.focused_element() {
            Some(workspace) => self.workspace(pinned, workspace, monitor_idx),
            None => pinned,
        }
    }

    /// The first monitors.
    pub open spec fn monitors(
        self,
        targets: Targets,
        monitors: Seq<MonitorView>,
        len: int,
    ) -> Targets
        decreases len,
    {
        if len <= 0 {
            targets
        } else {
            self.monitor(
                self.monitors(targets, monitors, len - 1),
                monitors[len - 1],
                len - 1,
            )
        }
    }
}

/// The handles of windows.
pub open spec fn hwnds_of(windows: Seq<Window>) -> Seq<isize> {
    windows.map_values(|window: Window| window.hwnd)
}

/// The handles in the order in which each occurs first.
pub open spec fn deduplicated(hwnds: Seq<isize>) -> Seq<isize>
    decreases hwnds.len(),
{
    if hwnds.len() == 0 {
        hwnds
    } else {
        remembered(deduplicated(hwnds.drop_last()), hwnds.last())
    }
}

/// The handles that are not among others.
pub open spec fn except(hwnds: Seq<isize>, others: Seq<isize>) -> Seq<isize> {
    hwnds.filter(|hwnd: isize| !others.contains(hwnd))
}

/// What a pass goes by.
struct PassInput<'a> {
    focused_monitor: usize,
    settling: bool,
    foreground: isize,
    is_maximized: bool,
    settings: &'a TransparencySettings,
    rules: &'a RuleSet,
    desktop: &'a Desktop,
}

/// The targets of a pass so far.
struct Found {
    transparent: Vec<isize>,
    opaque: Vec<isize>,
    known: Vec<isize>,
}

impl Found {
    spec fn view(&self) -> Targets {
        Targets {
            transparent: self.transparent@,
            opaque: self.opaque@,
            known: self.known@,
        }
    }

    fn paint(&mut self, hwnd: isize, transparent: bool)
        ensures
            final(self)@ == old(self)@.painting(hwnd, transparent),
    {
        if transparent {
            self.transparent.push(hwnd);
        } else {
            self.opaque.push(hwnd);
        }
    }
}

impl<'a> PassInput<'a> {
    spec fn view(&self) -> PassView {
        PassView {
            focused_monitor: self.focused_monitor as int,
            settling: self.settling,
            foreground: self.foreground,
            is_maximized: self.is_maximized,
            settings: *self.settings,
            rules: *self.rules,
            d: self.desktop@,
        }
    }

    fn is_exempt(&self, window: &Window) -> (r: bool)
        requires
            self.rules.wf(),
        ensures
            r == self@.exempt(window.hwnd),
    {
        is_transparency_blacklisted(window, self.rules, self.desktop) || (!self.settling
            && window.hwnd == self.foreground)
    }

    fn look_at_container(&self, found: &mut Found, container: &Container, in_background: bool)
        requires
            self.rules.wf(),
        ensures
            final(found)@ == self@.container(
                old(found)@,
                container@,
                in_background,
                container@.windows.elements.len() as int,
            ),
    {
        let ghost before = found@;
        let mut i: usize = 0;
        while i < container.windows.elements.len()
            invariant
                self.rules.wf(),
                i <= container.windows.elements@.len(),
                found@ == self@.container(before, container@, in_background, i as int),
            decreases container.windows.elements@.len() - i,
        {
            let window = container.windows.elements[i];
            if i == container.windows.focused {
                let transparent = in_background && !self.is_exempt(&window);
                found.paint(window.hwnd, transparent);
            } else {
                track_transparent_hwnd(&mut found.known, window.hwnd);
            }
            i = i + 1;
        }
    }

    fn look_at_containers(&self, found: &mut Found, workspace: &Workspace, monitor_idx: usize)
        requires
            self.rules.wf(),
        ensures
            final(found)@ == self@.containers(
                old(found)@,
                workspace@,
                monitor_idx as int,
                workspace@.containers.elements.len() as int,
            ),
    {
        let ghost before = found@;
        let mut i: usize = 0;
        while i < workspace.containers.elements.len()
            invariant
                self.rules.wf(),
                i <= workspace.containers.elements@.len(),
                found@ == self@.containers(before, workspace@, monitor_idx as int, i as int),
            decreases workspace.containers.elements@.len() - i,
        {
            let in_background = i != workspace.containers.focused || monitor_idx
                != self.focused_monitor || workspace.layer == WorkspaceLayer::Floating;
            assert(workspace@.containers.elements[i as int]
                == workspace.containers.elements@[i as int]@);
            self.look_at_container(found, &workspace.containers.elements[i], in_background);
            i = i + 1;
        }
    }

    fn look_at_floats(&self, found: &mut Found, windows: &Vec<Window>)
        requires
            self.rules.wf(),
        ensures
            final(found)@ == old(found)@.painting_each(
                windows@,
                |hwnd: isize| self@.dims_float(hwnd),
            ),
    {
        let ghost before = found@;
        let ghost dims = |hwnd: isize| self@.dims_float(hwnd);
        let mut i: usize = 0;
        while i < windows.len()
            invariant
                self.rules.wf(),
                i <= windows@.len(),
                dims == (|hwnd: isize| self@.dims_float(hwnd)),
                found@ == before.painting_each(windows@.take(i as int), dims),
            decreases windows@.len() - i,
        {
            assert(windows@.take(i + 1).drop_last() =~= windows@.take(i as int));
            let window = windows[i];
            let transparent = self.settings.floating && !self.is_exempt(&window);
            assert(dims(window.hwnd) == transparent);
            found.paint(window.hwnd, transparent);
            i = i + 1;
        }
        assert(windows@.take(i as int) =~= windows@);
    }

    fn look_at_workspace(&self, found: &mut Found, workspace: &Workspace, monitor_idx: usize)
        requires
            self.rules.wf(),
        ensures
            final(found)@ == self@.workspace(old(found)@, workspace@, monitor_idx as int),
    {
        if !workspace.tile {
            let windows = workspace.visible_windows();
            let ghost before = found.opaque@;
            let mut i: usize = 0;
            assert(before + hwnds_of(windows@.take(0)) =~= before);
            while i < windows.len()
                invariant
                    i <= windows@.len(),
                    found.opaque@ == before + hwnds_of(windows@.take(i as int)),
                    found.transparent == old(found).transparent,
                    found.known == old(found).known,
                decreases windows@.len() - i,
            {
                found.opaque.push(windows[i].hwnd);
                i = i + 1;
                assert(found.opaque@ =~= before + hwnds_of(windows@.take(i as int)));
            }
            assert(windows@.take(i as int) =~= windows@);
            return;
        }
        match &workspace.monocle_container {
            Some(monocle) => {
                match monocle.focused_window() {
                    Some(window) => {
                        let transparent = self.settings.monocle && monitor_idx
                            != self.focused_monitor && !is_transparency_blacklisted(
                            window,
                            self.rules,
                            self.desktop,
                        );
                        found.paint(window.hwnd, transparent);
                    },
                    None => {},
                }
                return;
            },
            None => {},
        }
        if self.is_maximized && !self.settling && monitor_idx == self.focused_monitor {
            found.paint(self.foreground, false);
            return;
        }
        self.look_at_containers(found, workspace, monitor_idx);
        self.look_at_floats(found, &workspace.floating_windows.elements);
    }

    fn look_at_monitor(&self, found: &mut Found, monitor: &Monitor, monitor_idx: usize)
        requires
            self.rules.wf(),
        ensures
            final(found)@ == self@.monitor(old(found)@, monitor@, monitor_idx as int),
    {
        let ghost before = found@;
        let mut i: usize = 0;
        assert(before.restoring(monitor.pinned_floating@.take(0)) =~= before);
        while i < monitor.pinned_floating.len()
            invariant
                i <= monitor.pinned_floating@.len(),
                found@ == before.restoring(monitor.pinned_floating@.take(i as int)),
            decreases monitor.pinned_floating@.len() - i,
        {
            found.opaque.push(monitor.pinned_floating[i]);
            i = i + 1;
            assert(found@ =~= before.restoring(monitor.pinned_floating@.take(i as int)));
        }
        assert(monitor.pinned_floating@.take(i as int) =~= monitor.pinned_floating@);
        match monitor.focused_workspace() {
            Some(workspace) => {
                self.look_at_workspace(found, workspace, monitor_idx);
            },
            None => {},
        }
    }
}

/// What a pass goes by, as the window manager and the window system have it.
pub open spec fn pass_of(
    state: ManagerView,
    foreground: isize,
    is_maximized: bool,
    settings: TransparencySettings,
    rules: RuleSet,
    d: DesktopView,
) -> PassView {
    PassView {
        focused_monitor: state.monitors.focused as int,
        settling: state.any_settling(d.now_ms),
        foreground,
        is_maximized,
        settings,
        rules,
        d,
    }
}

/// All targets of a pass.
pub open spec fn targets_of(pass: PassView, state: ManagerView, known: Seq<isize>) -> Targets {
    pass.monitors(
        Targets { transparent: Seq::empty(), opaque: Seq::empty(), known },
        state.monitors.elements,
        state.monitors.elements.len() as int,
    )
}

/// The windows to dim and the windows to restore, as handles. A window that is to be
/// restored is never dimmed in the same pass.
pub fn decide_targets(
    state: &WindowManager,
    known_hwnds: &mut Vec<isize>,
    foreground_hwnd: isize,
    is_maximized: bool,
    settings: &TransparencySettings,
    rules: &RuleSet,
    desktop: &Desktop,
) -> (r: (Vec<isize>, Vec<isize>))
    requires
        rules.wf(),
    ensures
        ({
            let pass = pass_of(
                state@,
                foreground_hwnd,
                is_maximized,
                *settings,
                *rules,
                desktop@,
            );
            let targets = targets_of(pass, state@, old(known_hwnds)@);
            &&& r.0@ == except(targets.transparent, targets.opaque)
            &&& r.1@ == deduplicated(targets.opaque)
            &&& final(known_hwnds)@ == targets.known
        }),
{
    let mut known: Vec<isize> = Vec::new();
    known.append(known_hwnds);
    assert(known@ =~= old(known_hwnds)@);
    let input = PassInput {
        focused_monitor: state.focused_monitor_idx(),
        settling: state.any_monitor_switch_settling(desktop.now_ms),
        foreground: foreground_hwnd,
        is_maximized,
        settings,
        rules,
        desktop,
    };
    let mut found = Found { transparent: Vec::new(), opaque: Vec::new(), known };
    let ghost start = found@;
    let mut i: usize = 0;
    while i < state.monitors.elements.len()
        invariant
            input.rules.wf(),
            i <= state.monitors.elements@.len(),
            found@ == input@.monitors(start, state@.monitors.elements, i as int),
        decreases state.monitors.elements@.len() - i,
    {
        assert(state@.monitors.elements[i as int] == state.monitors.elements@[i as int]@);
        input.look_at_monitor(&mut found, &state.monitors.elements[i], i);
        i = i + 1;
    }
    let opaque = deduplicate(&found.opaque);
    let transparent = leave_out(&found.transparent, &found.opaque);
    *known_hwnds = found.known;
    (transparent, opaque)
}

fn deduplicate(hwnds: &Vec<isize>) -> (r: Vec<isize>)
    ensures
        r@ == deduplicated(hwnds@),
{
    let mut unique: Vec<isize> = Vec::new();
    let mut i: usize = 0;
    while i < hwnds.len()
        invariant
            i <= hwnds@.len(),
            unique@ == deduplicated(hwnds@.take(i as int)),
        decreases hwnds@.len() - i,
    {
        assert(hwnds@.take(i + 1).drop_last() =~= hwnds@.take(i as int));
        track_transparent_hwnd(&mut unique, hwnds[i]);
        i = i + 1;
    }
    assert(hwnds@.take(i as int) =~= hwnds@);
    unique
}

fn leave_out(hwnds: &Vec<isize>, others: &Vec<isize>) -> (r: Vec<isize>)
    ensures
        r@ == except(hwnds@, others@),
{
    let mut left: Vec<isize> = Vec::new();
    let mut i: usize = 0;
    proof {
        reveal(Seq::filter);
    }
    while i < hwnds.len()
        invariant
            i <= hwnds@.len(),
            left@ == except(hwnds@.take(i as int), others@),
        decreases hwnds@.len() - i,
    {
        proof {
            reveal(Seq::filter);
            assert(hwnds@.take(i + 1).drop_last() =~= hwnds@.take(i as int));
        }
        if window::position_of(others, hwnds[i]).is_none() {
            left.push(hwnds[i]);
        }
        i = i + 1;
    }
    assert(hwnds@.take(i as int) =~= hwnds@);
    left
}

/// One thing to do to a window.
#[derive(Clone, Copy, Debug, PartialEq, Eq, Structural)]
pub enum Job {
    MakeOpaque(isize),
    MakeTransparent(isize),
}

/// How long, in milliseconds, to wait before a pass, so that a rapid change of the focus
/// is painted once. Restoring all windows does not wait.
pub fn wait_before_pass(enabled: bool, since_last_pass_ms: u64) -> (r: u64)
    ensures
        r == (if enabled && since_last_pass_ms < SETTLE_DURATION_MS {
            SETTLE_DURATION_MS - since_last_pass_ms
        } else {
            0
        }),
{
    if enabled && since_last_pass_ms < SETTLE_DURATION_MS {
        SETTLE_DURATION_MS - since_last_pass_ms
    } else {
        0
    }
}

/// A pass over the windows, one job at a time.
pub struct Pass {
    pub jobs: Vec<Job>,
    pub next: usize,
    /// Dimming is off, and every window that was dimmed is restored.
    pub restores_all: bool,
}

/// The jobs that restore windows.
pub open spec fn opaque_jobs(hwnds: Seq<isize>) -> Seq<Job> {
    hwnds.map_values(|hwnd: isize| Job::MakeOpaque(hwnd))
}

/// The jobs that dim windows.
pub open spec fn transparent_jobs(hwnds: Seq<isize>) -> Seq<Job> {
    hwnds.map_values(|hwnd: isize| Job::MakeTransparent(hwnd))
}

/// Whether a job can be done: on a window that is there and, unless all windows are
/// restored, whose thread answers, and a window is dimmed only where it can be seen.
pub open spec fn doable(job: Job, restores_all: bool, d: DesktopView) -> bool {
    match job {
        Job::MakeOpaque(hwnd) => {
            let facts = d.at(hwnd);
            facts.is_window && (restores_all || facts.is_responding)
        },
        Job::MakeTransparent(hwnd) => {
            let facts = d.at(hwnd);
            facts.is_window && !facts.is_minimized && facts.is_visible && facts.is_responding
        },
    }
}

fn is_doable(job: Job, restores_all: bool, desktop: &Desktop) -> (r: bool)
    ensures
        r == doable(job, restores_all, desktop@),
{
    match job {
        Job::MakeOpaque(hwnd) => match desktop.facts(hwnd) {
            Some(facts) => facts.is_window && (restores_all || facts.is_responding),
            None => false,
        },
        Job::MakeTransparent(hwnd) => match desktop.facts(hwnd) {
            Some(facts) => facts.is_window && !facts.is_minimized && facts.is_visible
                && facts.is_responding,
            None => false,
        },
    }
}

fn push_opaque_jobs(jobs: &mut Vec<Job>, hwnds: &Vec<isize>)
    ensures
        final(jobs)@ == old(jobs)@ + opaque_jobs(hwnds@),
{
    let ghost before = jobs@;
    let mut i: usize = 0;
    assert(before + opaque_jobs(hwnds@.take(0)) =~= before);
    while i < hwnds.len()
        invariant
            i <= hwnds@.len(),
            jobs@ == before + opaque_jobs(hwnds@.take(i as int)),
        decreases hwnds@.len() - i,
    {
        jobs.push(Job::MakeOpaque(hwnds[i]));
        i = i + 1;
        assert(jobs@ =~= before + opaque_jobs(hwnds@.take(i as int)));
    }
    assert(hwnds@.take(i as int) =~= hwnds@);
}

fn push_transparent_jobs(jobs: &mut Vec<Job>, hwnds: &Vec<isize>)
    ensures
        final(jobs)@ == old(jobs)@ + transparent_jobs(hwnds@),
{
    let ghost before = jobs@;
    let mut i: usize = 0;
    assert(before + transparent_jobs(hwnds@.take(0)) =~= before);
    while i < hwnds.len()
        invariant
            i <= hwnds@.len(),
            jobs@ == before + transparent_jobs(hwnds@.take(i as int)),
        decreases hwnds@.len() - i,
    {
        jobs.push(Job::MakeTransparent(hwnds[i]));
        i = i + 1;
        assert(jobs@ =~= before + transparent_jobs(hwnds@.take(i as int)));
    }
    assert(hwnds@.take(i as int) =~= hwnds@);
}

impl Pass {
    /// Start a pass: where dimming is on, restore and then dim what is decided, and where
    /// it is off, restore every window that was dimmed, on hidden workspaces too.
    pub fn start(
        state: &WindowManager,
        known_hwnds: &mut Vec<isize>,
        settings: &TransparencySettings,
        rules: &RuleSet,
        desktop: &Desktop,
    ) -> (r: Self)
        requires
            rules.wf(),
        ensures
            r.next == 0,
            r.restores_all == !settings.enabled,
            ({
                let foreground = match desktop@.foreground {
                    Some(foreground) => foreground,
                    None => 0,
                };
                let pass = pass_of(
                    state@,
                    foreground,
                    desktop@.at(foreground).is_maximized,
                    *settings,
                    *rules,
                    desktop@,
                );
                let targets = targets_of(pass, state@, old(known_hwnds)@);
                if settings.enabled {
                    &&& r.jobs@ == opaque_jobs(deduplicated(targets.opaque)) + transparent_jobs(
                        except(targets.transparent, targets.opaque),
                    )
                    &&& final(known_hwnds)@ == targets.known
                } else {
                    &&& r.jobs@ == opaque_jobs(old(known_hwnds)@)
                    &&& final(known_hwnds)@ == old(known_hwnds)@
                }
            }),
    {
        let mut jobs: Vec<Job> = Vec::new();
        if !settings.enabled {
            push_opaque_jobs(&mut jobs, known_hwnds);
            assert(jobs@ =~= opaque_jobs(known_hwnds@));
            return Pass { jobs, next: 0, restores_all: true };
        }
        let foreground: isize = match desktop.foreground {
            Some(foreground) => foreground,
            None => 0,
        };
        let is_maximized = Window { hwnd: foreground }.is_maximized(desktop);
        let (transparent, opaque) = decide_targets(
            state,
            known_hwnds,
            foreground,
            is_maximized,
            settings,
            rules,
            desktop,
        );
        push_opaque_jobs(&mut jobs, &opaque);
        push_transparent_jobs(&mut jobs, &transparent);
        assert(jobs@ =~= opaque_jobs(opaque@) + transparent_jobs(transparent@));
        Pass { jobs, next: 0, restores_all: false }
    }

    /// The next job that can be done. Those before it that cannot be done are left out.
    pub fn next_job(&mut self, desktop: &Desktop) -> (r: Option<Job>)
        requires
            old(self).next <= old(self).jobs@.len(),
        ensures
            final(self).jobs == old(self).jobs,
            final(self).restores_all == old(self).restores_all,
            old(self).next <= final(self).next <= final(self).jobs@.len(),
            ({
                let skipped = if r is Some {
                    final(self).next - 1
                } else {
                    final(self).next as int
                };
                forall|i: int|
                    old(self).next <= i < skipped ==> !doable(
                        #[trigger] old(self).jobs@[i],
                        old(self).restores_all,
                        desktop@,
                    )
            }),
            match r {
                Some(job) => old(self).next < final(self).next && job == old(
                    self).jobs@[final(self).next - 1] && doable(
                    job,
                    old(self).restores_all,
                    desktop@,
                ),
                None => final(self).next == old(self).jobs@.len(),
            },
    {
        while self.next < self.jobs.len()
            invariant
                self.jobs == old(self).jobs,
                self.restores_all == old(self).restores_all,
                old(self).next <= self.next <= self.jobs@.len(),
                forall|i: int|
                    old(self).next <= i < self.next ==> !doable(
                        #[trigger] old(self).jobs@[i],
                        old(self).restores_all,
                        desktop@,
                    ),
            decreases self.jobs@.len() - self.next,
        {
            let job = self.jobs[self.next];
            self.next = self.next + 1;
            if is_doable(job, self.restores_all, desktop) {
                return Some(job);
            }
        }
        None
    }

    /// Note how a job went. A window that could not be painted is looked at again in the
    /// next pass.
    pub fn finish_job(&self, job: Job, succeeded: bool, known_hwnds: &mut Vec<isize>)
        ensures
            final(known_hwnds)@ == (if self.restores_all || !succeeded {
                old(known_hwnds)@
            } else {
                match job {
                    Job::MakeOpaque(hwnd) => pins::without_hwnd(old(known_hwnds)@, hwnd),
                    Job::MakeTransparent(hwnd) => remembered(old(known_hwnds)@, hwnd),
                }
            }),
    {
        if !self.restores_all && succeeded {
            match job {
                Job::MakeOpaque(hwnd) => untrack_opaque_hwnd(known_hwnds, hwnd),
                Job::MakeTransparent(hwnd) => track_transparent_hwnd(known_hwnds, hwnd),
            }
        }
    }

    /// End the pass: forget the windows that are gone, or all of them where all were
    /// restored.
    pub fn end(&self, known_hwnds: &mut Vec<isize>, desktop: &Desktop)
        ensures
            final(known_hwnds)@ == (if self.restores_all {
                Seq::empty()
            } else {
                old(known_hwnds)@.filter(|hwnd: isize| desktop@.at(hwnd).is_window)
            }),
    {
        let ghost all = known_hwnds@;
        let mut left: Vec<isize> = Vec::new();
        if !self.restores_all {
            let ghost stays = |hwnd: isize| desktop@.at(hwnd).is_window;
            let mut i: usize = 0;
            proof {
                reveal(Seq::filter);
            }
            while i < known_hwnds.len()
                invariant
                    known_hwnds@ == all,
                    stays == (|hwnd: isize| desktop@.at(hwnd).is_window),
                    i <= all.len(),
                    left@ == all.take(i as int).filter(stays),
                decreases all.len() - i,
            {
                proof {
                    reveal(Seq::filter);
                    assert(all.take(i + 1).drop_last() =~= all.take(i as int));
                }
                if desktop.is_window(known_hwnds[i]) {
                    left.push(known_hwnds[i]);
                }
                i = i + 1;
            }
            assert(all.take(i as int) =~= all);
        }
        *known_hwnds = left;
    }
}

/// The targets only grow, and the foreground window is not dimmed on the way.
spec fn grown(pass: PassView, before: Targets, after: Targets) -> bool {
    &&& before.opaque.is_prefix_of(after.opaque)
    &&& before.known.is_prefix_of(after.known)
    &&& !pass.settling && !pass.settings.monocle && !before.transparent.contains(pass.foreground)
        ==> !after.transparent.contains(pass.foreground)
}

proof fn grown_further(pass: PassView, before: Targets, between: Targets, after: Targets)
    requires
        grown(pass, before, between),
        grown(pass, between, after),
    ensures
        grown(pass, before, after),
{
    assert(before.opaque =~= after.opaque.subrange(0, before.opaque.len() as int));
    assert(before.known =~= after.known.subrange(0, before.known.len() as int));
}

proof fn except_has(hwnds: Seq<isize>, others: Seq<isize>, hwnd: isize)
    ensures
        except(hwnds, others).contains(hwnd) == (hwnds.contains(hwnd) && !others.contains(hwnd)),
    decreases hwnds.len(),
{
    reveal(Seq::filter);
    if hwnds.len() > 0 {
        let before = hwnds.drop_last();
        except_has(before, others, hwnd);
        assert(hwnds =~= before.push(hwnds.last()));
        pins::added(before, hwnds.last(), hwnd);
        pins::added(except(before, others), hwnds.last(), hwnd);
    }
}

proof fn painting_grows(pass: PassView, targets: Targets, hwnd: isize, transparent: bool)
    requires
        transparent && !pass.settling && !pass.settings.monocle ==> hwnd != pass.foreground,
    ensures
        grown(pass, targets, targets.painting(hwnd, transparent)),
{
    pins::added(targets.transparent, hwnd, pass.foreground);
}

proof fn container_grows(
    pass: PassView,
    targets: Targets,
    container: ContainerView,
    in_background: bool,
    len: int,
)
    ensures
        grown(pass, targets, pass.container(targets, container, in_background, len)),
    decreases len,
{
    if len > 0 {
        container_grows(pass, targets, container, in_background, len - 1);
        let before = pass.container(targets, container, in_background, len - 1);
        let hwnd = container.windows.elements[len - 1].hwnd;
        if len - 1 == container.windows.focused {
            painting_grows(pass, before, hwnd, in_background && !pass.exempt(hwnd));
        }
    }
}

proof fn containers_grow(
    pass: PassView,
    targets: Targets,
    workspace: WorkspaceView,
    monitor_idx: int,
    len: int,
)
    ensures
        grown(pass, targets, pass.containers(targets, workspace, monitor_idx, len)),
    decreases len,
{
    if len > 0 {
        containers_grow(pass, targets, workspace, monitor_idx, len - 1);
        let container = workspace.containers.elements[len - 1];
        container_grows(
            pass,
            pass.containers(targets, workspace, monitor_idx, len - 1),
            container,
            pass.in_background(workspace, len - 1, monitor_idx),
            container.windows.elements.len() as int,
        );
    }
}

proof fn floats_grow(pass: PassView, targets: Targets, windows: Seq<Window>)
    ensures
        grown(
            pass,
            targets,
            targets.painting_each(windows, |hwnd: isize| pass.dims_float(hwnd)),
        ),
    decreases windows.len(),
{
    if windows.len() > 0 {
        let dims = |hwnd: isize| pass.dims_float(hwnd);
        floats_grow(pass, targets, windows.drop_last());
        let hwnd = windows.last().hwnd;
        painting_grows(
            pass,
            targets.painting_each(windows.drop_last(), dims),
            hwnd,
            dims(hwnd),
        );
    }
}

proof fn monitor_grows(pass: PassView, targets: Targets, monitor: MonitorView, monitor_idx: int)
    ensures
        grown(pass, targets, pass.monitor(targets, monitor, monitor_idx)),
        targets.restoring(monitor.pinned_floating).opaque.is_prefix_of(
            pass.monitor(targets, monitor, monitor_idx).opaque,
        ),
{
    let pinned = targets.restoring(monitor.pinned_floating);
    let after = pass.monitor(targets, monitor, monitor_idx);
    assert(grown(pass, targets, pinned));
    match monitor.workspaces.focused_element() {
        Some(workspace) => {
            if !workspace.tile {
                assert(grown(pass, pinned, after));
            } else if workspace.monocle_container is Some {
                match workspace.monocle_front() {
                    Some(window) => {
                        let transparent = pass.settings.monocle && monitor_idx
                            != pass.focused_monitor && !blacklisted(
                            window.hwnd,
                            pass.rules,
                            pass.d,
                        );
                        painting_grows(pass, pinned, window.hwnd, transparent);
                    },
                    None => {},
                }
            } else if pass.is_maximized && !pass.settling && monitor_idx == pass.focused_monitor {
                painting_grows(pass, pinned, pass.foreground, false);
            } else {
                let len = workspace.containers.elements.len() as int;
                let tiled = pass.containers(pinned, workspace, monitor_idx, len);
                containers_grow(pass, pinned, workspace, monitor_idx, len);
                floats_grow(pass, tiled, workspace.floating_windows.elements);
                grown_further(pass, pinned, tiled, after);
            }
        },
        None => {},
    }
    grown_further(pass, targets, pinned, after);
}

proof fn monitors_grow(pass: PassView, targets: Targets, monitors: Seq<MonitorView>, len: int)
    ensures
        grown(pass, targets, pass.monitors(targets, monitors, len)),
    decreases len,
{
    if len > 0 {
        monitors_grow(pass, targets, monitors, len - 1);
        monitor_grows(
            pass,
            pass.monitors(targets, monitors, len - 1),
            monitors[len - 1],
            len - 1,
        );
    }
}

proof fn pins_are_restored(
    pass: PassView,
    targets: Targets,
    monitors: Seq<MonitorView>,
    len: int,
    idx: int,
    hwnd: isize,
)
    requires
        0 <= idx < len,
        monitors[idx].pinned_floating.contains(hwnd),
    ensures
        pass.monitors(targets, monitors, len).opaque.contains(hwnd),
    decreases len,
{
    let before = pass.monitors(targets, monitors, len - 1);
    let after = pass.monitors(targets, monitors, len);
    monitor_grows(pass, before, monitors[len - 1], len - 1);
    if idx < len - 1 {
        pins_are_restored(pass, targets, monitors, len - 1, idx, hwnd);
        let i = choose|i: int| 0 <= i < before.opaque.len() && before.opaque[i] == hwnd;
        assert(after.opaque[i] == hwnd);
    } else {
        let pins = monitors[idx].pinned_floating;
        let i = choose|i: int| 0 <= i < pins.len() && pins[i] == hwnd;
        assert(before.restoring(pins).opaque[before.opaque.len() + i] == hwnd);
        assert(after.opaque[before.opaque.len() + i] == hwnd);
    }
}

/// The windows to restore are named once each.
pub proof fn targets_are_unique(hwnds: Seq<isize>)
    ensures
        deduplicated(hwnds).no_duplicates(),
        forall|hwnd: isize| #[trigger]
            deduplicated(hwnds).contains(hwnd) == hwnds.contains(hwnd),
    decreases hwnds.len(),
{
    if hwnds.len() > 0 {
        let before = hwnds.drop_last();
        targets_are_unique(before);
        assert(hwnds =~= before.push(hwnds.last()));
        assert forall|hwnd: isize| #[trigger] deduplicated(hwnds).contains(hwnd)
            == hwnds.contains(hwnd) by {
            pins::added(before, hwnds.last(), hwnd);
            pins::added(deduplicated(before), hwnds.last(), hwnd);
        }
    }
}

/// A window is dimmed exactly where it is to be dimmed and not to be restored.
pub proof fn dimmed_and_not_restored(transparent: Seq<isize>, opaque: Seq<isize>, hwnd: isize)
    ensures
        except(transparent, opaque).contains(hwnd) == (transparent.contains(hwnd)
            && !opaque.contains(hwnd)),
{
    except_has(transparent, opaque, hwnd);
}

/// No window is both dimmed and restored in one pass.
pub proof fn restored_windows_are_not_dimmed(targets: Targets, hwnd: isize)
    requires
        deduplicated(targets.opaque).contains(hwnd),
    ensures
        !except(targets.transparent, targets.opaque).contains(hwnd),
{
    targets_are_unique(targets.opaque);
    except_has(targets.transparent, targets.opaque, hwnd);
}

/// Pinned windows are restored in every pass, and never dimmed.
pub proof fn pinned_windows_stay_opaque(
    pass: PassView,
    state: ManagerView,
    known: Seq<isize>,
    monitor_idx: int,
    hwnd: isize,
)
    requires
        0 <= monitor_idx < state.monitors.elements.len(),
        state.monitors.elements[monitor_idx].pinned_floating.contains(hwnd),
    ensures
        ({
            let targets = targets_of(pass, state, known);
            &&& deduplicated(targets.opaque).contains(hwnd)
            &&& !except(targets.transparent, targets.opaque).contains(hwnd)
        }),
{
    let monitors = state.monitors.elements;
    let start = Targets { transparent: Seq::empty(), opaque: Seq::empty(), known };
    pins_are_restored(pass, start, monitors, monitors.len() as int, monitor_idx, hwnd);
    targets_are_unique(targets_of(pass, state, known).opaque);
    restored_windows_are_not_dimmed(targets_of(pass, state, known), hwnd);
}

/// The window that has the foreground is never dimmed, unless a switch is settling.
/// Monocle containers on monitors that are not focused go by their own setting.
pub proof fn the_foreground_is_not_dimmed(pass: PassView, state: ManagerView, known: Seq<isize>)
    requires
        !pass.settling,
        !pass.settings.monocle,
    ensures
        ({
            let targets = targets_of(pass, state, known);
            !except(targets.transparent, targets.opaque).contains(pass.foreground)
        }),
{
    let monitors = state.monitors.elements;
    let start = Targets { transparent: Seq::empty(), opaque: Seq::empty(), known };
    monitors_grow(pass, start, monitors, monitors.len() as int);
    let targets = targets_of(pass, state, known);
    except_has(targets.transparent, targets.opaque, pass.foreground);
}

/// Deciding what to paint forgets no window that was dimmed before, so that the windows
/// of hidden workspaces can still be restored.
pub proof fn dimmed_windows_stay_known(
    pass: PassView,
    state: ManagerView,
    known: Seq<isize>,
    hwnd: isize,
)
    requires
        known.contains(hwnd),
    ensures
        targets_of(pass, state, known).known.contains(hwnd),
{
    let monitors = state.monitors.elements;
    let start = Targets { transparent: Seq::empty(), opaque: Seq::empty(), known };
    monitors_grow(pass, start, monitors, monitors.len() as int);
    let i = choose|i: int| 0 <= i < known.len() && known[i] == hwnd;
    assert(targets_of(pass, state, known).known[i] == hwnd);
}

/// Remembering a window twice is the same as remembering it once, and forgetting a
/// window leaves the others.
pub proof fn tracking_and_untracking(known: Seq<isize>, hwnd: isize, other: isize)
    ensures
        remembered(remembered(known, hwnd), hwnd) == remembered(known, hwnd),
        remembered(known, hwnd).contains(hwnd),
        !pins::without_hwnd(known, hwnd).contains(hwnd),
        other != hwnd ==> pins::without_hwnd(known, hwnd).contains(other) == known.contains(
            other,
        ),
{
    pins::added(known, hwnd, hwnd);
    pins::dropped(known, hwnd);
}

} // verus!
