//! Z-order operations that are applied on a worker, never while an event is processed.

use vstd::prelude::*;

use crate::desktop::Desktop;
use crate::desktop::DesktopView;
use crate::plan::Call;
use crate::plan::Plan;
use crate::plan::Step;
use crate::plan::StepView;
use crate::window::Window;

verus! {

/// How long, in milliseconds, an authoritative activation is applied even though the
/// foreground has moved to another window.
pub const ACTIVATION_SETTLE_BUDGET_MS: u64 = 300;

/// A window together with the process that owned it when the operation was queued.
///
/// Handles are recycled, so an operation that waited in the queue could otherwise reach
/// a completely different window.
#[derive(Clone, Copy, Debug, PartialEq, Eq, Structural)]
pub struct CapturedWindow {
    pub window: Window,
    pub process_id: u32,
}

/// A window as it is captured from what the window system answers.
pub open spec fn captured(window: Window, d: DesktopView) -> CapturedWindow {
    CapturedWindow { window, process_id: d.at(window.hwnd).process_id }
}

pub open spec fn captured_all(windows: Seq<Window>, d: DesktopView) -> Seq<CapturedWindow> {
    windows.map_values(|window: Window| captured(window, d))
}

impl CapturedWindow {
    /// Whether the handle still belongs to the window for which it was captured.
    pub open spec fn still_owned(self, d: DesktopView) -> bool {
        d.at(self.window.hwnd).is_window && d.at(self.window.hwnd).process_id == self.process_id
    }

    pub fn from_window(window: Window, desktop: &Desktop) -> (r: Self)
        ensures
            r == captured(window, desktop@),
    {
        CapturedWindow { window, process_id: desktop.process_id(window.hwnd) }
    }

    pub fn hwnd(&self) -> (r: isize)
        ensures
            r == self.window.hwnd,
    {
        self.window.hwnd
    }

    pub fn is_still_owned(&self, desktop: &Desktop) -> (r: bool)
        ensures
            r == self.still_owned(desktop@),
    {
        desktop.is_window(self.window.hwnd) && desktop.process_id(self.window.hwnd)
            == self.process_id
    }
}

/// An operation on the Z order. Operations are applied in the order in which they were
/// queued.
pub enum ApplyOp {
    /// Raise each window above the active window, by way of the topmost band.
    RaiseAboveActive(Vec<CapturedWindow>),
    /// Raise each window to the top of the normal band.
    Raise(Vec<CapturedWindow>),
    /// Lower each window to the bottom.
    Lower(Vec<CapturedWindow>),
    /// Lower all windows in one pass.
    LowerBatch(Vec<CapturedWindow>),
    /// Raise all windows in one pass; later windows end up above earlier ones.
    RaiseBatch(Vec<CapturedWindow>),
    /// Take each window out of the topmost band.
    ClearTopmost(Vec<CapturedWindow>),
    /// Put each window into the topmost band.
    MakeTopmost(Vec<CapturedWindow>),
    /// Raise a window immediately below another one.
    RaiseBelow { window: CapturedWindow, target: CapturedWindow },
    /// Activate each window, as the last operation of a pass.
    ///
    /// The activation is skipped where the foreground has meanwhile moved from
    /// `enqueue_foreground` to a third window. An authoritative activation ignores that
    /// for [`ACTIVATION_SETTLE_BUDGET_MS`].
    RaiseAndFocus {
        windows: Vec<CapturedWindow>,
        center_cursor: bool,
        enqueue_foreground: Option<isize>,
        authoritative: bool,
        enqueued_at_ms: u64,
    },
}

/// The operations that do one thing to each window of a list.
pub enum Batch {
    RaiseAboveActive,
    Raise,
    Lower,
    LowerBatch,
    RaiseBatch,
    ClearTopmost,
    MakeTopmost,
}

/// An operation on the Z order, for contracts.
pub enum ApplyOpView {
    Windows(Batch, Seq<CapturedWindow>),
    RaiseBelow { window: CapturedWindow, target: CapturedWindow },
    RaiseAndFocus {
        windows: Seq<CapturedWindow>,
        center_cursor: bool,
        enqueue_foreground: Option<isize>,
        authoritative: bool,
        enqueued_at_ms: u64,
    },
}

impl View for ApplyOp {
    type V = ApplyOpView;

    open spec fn view(&self) -> ApplyOpView {
        match self {
            ApplyOp::RaiseAboveActive(windows) => ApplyOpView::Windows(
                Batch::RaiseAboveActive,
                windows@,
            ),
            ApplyOp::Raise(windows) => ApplyOpView::Windows(Batch::Raise, windows@),
            ApplyOp::Lower(windows) => ApplyOpView::Windows(Batch::Lower, windows@),
            ApplyOp::LowerBatch(windows) => ApplyOpView::Windows(Batch::LowerBatch, windows@),
            ApplyOp::RaiseBatch(windows) => ApplyOpView::Windows(Batch::RaiseBatch, windows@),
            ApplyOp::ClearTopmost(windows) => ApplyOpView::Windows(Batch::ClearTopmost, windows@),
            ApplyOp::MakeTopmost(windows) => ApplyOpView::Windows(Batch::MakeTopmost, windows@),
            ApplyOp::RaiseBelow { window, target } => ApplyOpView::RaiseBelow {
                window: *window,
                target: *target,
            },
            ApplyOp::RaiseAndFocus {
                windows,
                center_cursor,
                enqueue_foreground,
                authoritative,
                enqueued_at_ms,
            } => ApplyOpView::RaiseAndFocus {
                windows: windows@,
                center_cursor: *center_cursor,
                enqueue_foreground: *enqueue_foreground,
                authoritative: *authoritative,
                enqueued_at_ms: *enqueued_at_ms,
            },
        }
    }
}

/// The step that queues one operation for all of the windows. For no window nothing is
/// queued.
pub open spec fn queued(batch: Batch, windows: Seq<Window>, d: DesktopView) -> Seq<StepView> {
    if windows.len() == 0 {
        Seq::empty()
    } else {
        seq![StepView::Apply(ApplyOpView::Windows(batch, captured_all(windows, d)))]
    }
}

/// Whether an activation was overtaken: the foreground has moved to a third window since
/// the activation was queued. An authoritative activation is not overtaken while it is
/// younger than [`ACTIVATION_SETTLE_BUDGET_MS`].
pub open spec fn overtaken(
    hwnd: isize,
    enqueue_foreground: Option<isize>,
    authoritative: bool,
    enqueued_at_ms: u64,
    d: DesktopView,
) -> bool {
    let current_foreground = match d.foreground {
        Some(foreground) => foreground,
        None => 0,
    };
    &&& !(authoritative && d.now_ms - enqueued_at_ms < ACTIVATION_SETTLE_BUDGET_MS)
    &&& current_foreground != hwnd
    &&& enqueue_foreground matches Some(foreground) && current_foreground != foreground
}

/// The handles of the windows that are still the ones that were captured.
pub open spec fn owned_hwnds(windows: Seq<CapturedWindow>, d: DesktopView) -> Seq<isize> {
    windows.filter(|window: CapturedWindow| window.still_owned(d)).map_values(
        |window: CapturedWindow| window.window.hwnd,
    )
}

/// The call that does to a window what a batch does to each of its windows, and the one
/// that does it to the window's border.
pub open spec fn batch_call(batch: Batch, hwnd: isize, d: DesktopView) -> StepView {
    let border = d.at(hwnd).border;
    match batch {
        Batch::RaiseAboveActive => StepView::Try(
            Call::RaiseWindowAboveActive(hwnd),
            match border {
                Some(border) => Some(Call::RaiseWindowAboveActive(border)),
                None => None,
            },
        ),
        Batch::Raise | Batch::RaiseBatch => StepView::Try(
            Call::RaiseWindowSync(hwnd),
            match border {
                Some(border) => Some(Call::RaiseWindowSync(border)),
                None => None,
            },
        ),
        Batch::Lower | Batch::LowerBatch => StepView::Try(
            Call::LowerWindowSync(hwnd),
            match border {
                Some(border) => Some(Call::LowerWindowSync(border)),
                None => None,
            },
        ),
        Batch::ClearTopmost => StepView::Try(Call::ClearTopmostWindow(hwnd), None),
        Batch::MakeTopmost => StepView::Try(Call::MakeTopmostWindow(hwnd), None),
    }
}

impl ApplyOpView {
    /// In how many rounds the operation is applied. Before each round the window system
    /// is asked anew.
    pub open spec fn round_count(self) -> int {
        match self {
            ApplyOpView::Windows(Batch::LowerBatch, _) => 1,
            ApplyOpView::Windows(Batch::RaiseBatch, _) => 1,
            ApplyOpView::Windows(_, windows) => windows.len() as int,
            ApplyOpView::RaiseBelow { .. } => 1,
            ApplyOpView::RaiseAndFocus { windows, .. } => windows.len() as int,
        }
    }

    /// The steps of one round. Windows that died or whose handle was recycled are left
    /// alone.
    pub open spec fn round(self, at: int, d: DesktopView) -> Seq<StepView> {
        match self {
            ApplyOpView::Windows(Batch::LowerBatch, windows) => if owned_hwnds(windows, d).len()
                == 0 {
                Seq::empty()
            } else {
                seq![StepView::LowerAll(owned_hwnds(windows, d))]
            },
            ApplyOpView::Windows(Batch::RaiseBatch, windows) => if owned_hwnds(windows, d).len()
                == 0 {
                Seq::empty()
            } else {
                seq![StepView::RaiseAll(owned_hwnds(windows, d))]
            },
            ApplyOpView::Windows(batch, windows) => if windows[at].still_owned(d) {
                seq![batch_call(batch, windows[at].window.hwnd, d)]
            } else {
                Seq::empty()
            },
            ApplyOpView::RaiseBelow { window, target } => if window.still_owned(d)
                && target.still_owned(d) {
                seq![
                    StepView::Try(
                        Call::RaiseWindowBelow(window.window.hwnd, target.window.hwnd),
                        None,
                    ),
                ]
            } else {
                Seq::empty()
            },
            ApplyOpView::RaiseAndFocus {
                windows,
                center_cursor,
                enqueue_foreground,
                authoritative,
                enqueued_at_ms,
            } => {
                let hwnd = windows[at].window.hwnd;
                if windows[at].still_owned(d) && !overtaken(
                    hwnd,
                    enqueue_foreground,
                    authoritative,
                    enqueued_at_ms,
                    d,
                ) {
                    seq![
                        StepView::Try(
                            Call::RaiseAndFocusWindow(hwnd),
                            if center_cursor {
                                Some(Call::CenterCursorOnWindow(hwnd))
                            } else {
                                None
                            },
                        ),
                    ]
                } else {
                    Seq::empty()
                }
            },
        }
    }
}

pub struct ApplyWorker;

impl ApplyWorker {
    fn owned(windows: &Vec<CapturedWindow>, desktop: &Desktop) -> (r: Vec<isize>)
        ensures
            r@ == owned_hwnds(windows@, desktop@),
    {
        let mut hwnds: Vec<isize> = Vec::new();
        let mut i: usize = 0;
        proof {
            reveal(Seq::filter);
            assert(windows@.take(0) =~= Seq::<CapturedWindow>::empty());
            assert(hwnds@ =~= owned_hwnds(windows@.take(0), desktop@));
        }
        while i < windows.len()
            invariant
                i <= windows@.len(),
                hwnds@ == owned_hwnds(windows@.take(i as int), desktop@),
            decreases windows@.len() - i,
        {
            let window = windows[i];
            proof {
                reveal(Seq::filter);
                assert(windows@.take(i + 1).drop_last() =~= windows@.take(i as int));
            }
            if window.is_still_owned(desktop) {
                hwnds.push(window.hwnd());
            }
            i = i + 1;
            assert(hwnds@ =~= owned_hwnds(windows@.take(i as int), desktop@));
        }
        assert(windows@.take(i as int) =~= windows@);
        hwnds
    }

    /// Apply one thing to one window of a list, unless it died or was recycled.
    fn apply_on_valid(
        windows: &Vec<CapturedWindow>,
        at: usize,
        batch: Batch,
        desktop: &Desktop,
        plan: &mut Plan,
    )
        requires
            at < windows@.len(),
        ensures
            final(plan)@ == old(plan)@ + if windows@[at as int].still_owned(desktop@) {
                seq![batch_call(batch, windows@[at as int].window.hwnd, desktop@)]
            } else {
                Seq::empty()
            },
    {
        let captured = windows[at];
        if captured.is_still_owned(desktop) {
            let hwnd: isize = captured.hwnd();
            let border = desktop.border(hwnd);
            let step = match batch {
                Batch::RaiseAboveActive => Step::Try(
                    Call::RaiseWindowAboveActive(hwnd),
                    match border {
                        Some(border) => Some(Call::RaiseWindowAboveActive(border)),
                        None => None,
                    },
                ),
                Batch::Raise | Batch::RaiseBatch => Step::Try(
                    Call::RaiseWindowSync(hwnd),
                    match border {
                        Some(border) => Some(Call::RaiseWindowSync(border)),
                        None => None,
                    },
                ),
                Batch::Lower | Batch::LowerBatch => Step::Try(
                    Call::LowerWindowSync(hwnd),
                    match border {
                        Some(border) => Some(Call::LowerWindowSync(border)),
                        None => None,
                    },
                ),
                Batch::ClearTopmost => Step::Try(Call::ClearTopmostWindow(hwnd), None),
                Batch::MakeTopmost => Step::Try(Call::MakeTopmostWindow(hwnd), None),
            };
            plan.push(step);
        }
        assert(plan@ =~= old(plan)@ + if windows@[at as int].still_owned(desktop@) {
            seq![batch_call(batch, windows@[at as int].window.hwnd, desktop@)]
        } else {
            Seq::empty()
        });
    }

    /// In how many rounds an operation is applied.
    pub fn rounds(op: &ApplyOp) -> (r: usize)
        ensures
            r == op@.round_count(),
    {
        match op {
            ApplyOp::LowerBatch(_) | ApplyOp::RaiseBatch(_) | ApplyOp::RaiseBelow { .. } => 1,
            ApplyOp::RaiseAboveActive(windows) => windows.len(),
            ApplyOp::Raise(windows) => windows.len(),
            ApplyOp::Lower(windows) => windows.len(),
            ApplyOp::ClearTopmost(windows) => windows.len(),
            ApplyOp::MakeTopmost(windows) => windows.len(),
            ApplyOp::RaiseAndFocus { windows, .. } => windows.len(),
        }
    }

    /// Apply one round of an operation to windows that are still the ones for which it
    /// was queued.
    pub fn apply(op: &ApplyOp, round: usize, desktop: &Desktop, plan: &mut Plan)
        requires
            round < op@.round_count(),
        ensures
            final(plan)@ == old(plan)@ + op@.round(round as int, desktop@),
    {
        match op {
            ApplyOp::RaiseAboveActive(windows) => {
                Self::apply_on_valid(windows, round, Batch::RaiseAboveActive, desktop, plan);
            },
            ApplyOp::Raise(windows) => {
                Self::apply_on_valid(windows, round, Batch::Raise, desktop, plan);
            },
            ApplyOp::Lower(windows) => {
                Self::apply_on_valid(windows, round, Batch::Lower, desktop, plan);
            },
            ApplyOp::LowerBatch(windows) => {
                let hwnds = Self::owned(windows, desktop);
                if hwnds.len() > 0 {
                    plan.push(Step::LowerAll(hwnds));
                }
            },
            ApplyOp::RaiseBatch(windows) => {
                let hwnds = Self::owned(windows, desktop);
                if hwnds.len() > 0 {
                    plan.push(Step::RaiseAll(hwnds));
                }
            },
            ApplyOp::ClearTopmost(windows) => {
                Self::apply_on_valid(windows, round, Batch::ClearTopmost, desktop, plan);
            },
            ApplyOp::MakeTopmost(windows) => {
                Self::apply_on_valid(windows, round, Batch::MakeTopmost, desktop, plan);
            },
            ApplyOp::RaiseBelow { window, target } => {
                if window.is_still_owned(desktop) && target.is_still_owned(desktop) {
                    plan.push(
                        Step::Try(Call::RaiseWindowBelow(window.hwnd(), target.hwnd()), None),
                    );
                }
            },
            ApplyOp::RaiseAndFocus {
                windows,
                center_cursor,
                enqueue_foreground,
                authoritative,
                enqueued_at_ms,
            } => {
                let captured = windows[round];
                if captured.is_still_owned(desktop) {
                    let hwnd: isize = captured.hwnd();
                    let settling = *authoritative && desktop.now_ms.saturating_sub(
                        *enqueued_at_ms,
                    ) < ACTIVATION_SETTLE_BUDGET_MS;
                    let current_foreground: isize = match desktop.foreground {
                        Some(foreground) => foreground,
                        None => 0,
                    };
                    let moved = match *enqueue_foreground {
                        Some(foreground) => current_foreground != foreground,
                        None => false,
                    };
                    if settling || current_foreground == hwnd || !moved {
                        plan.push(
                            Step::Try(
                                Call::RaiseAndFocusWindow(hwnd),
                                if *center_cursor {
                                    Some(Call::CenterCursorOnWindow(hwnd))
                                } else {
                                    None
                                },
                            ),
                        );
                    }
                }
            },
        }
        assert(plan@ =~= old(plan)@ + op@.round(round as int, desktop@));
    }

    fn capture(windows: &Vec<Window>, desktop: &Desktop) -> (r: Vec<CapturedWindow>)
        ensures
            r@ == captured_all(windows@, desktop@),
    {
        let mut all: Vec<CapturedWindow> = Vec::new();
        let mut i: usize = 0;
        while i < windows.len()
            invariant
                i <= windows@.len(),
                all@ == captured_all(windows@.take(i as int), desktop@),
            decreases windows@.len() - i,
        {
            all.push(CapturedWindow::from_window(windows[i], desktop));
            i = i + 1;
            assert(all@ =~= captured_all(windows@.take(i as int), desktop@));
        }
        assert(windows@.take(i as int) =~= windows@);
        all
    }

    /// Raise the windows above the active window, in order.
    pub fn raise_above_active(windows: &Vec<Window>, desktop: &Desktop, plan: &mut Plan)
        ensures
            final(plan)@ == old(plan)@ + queued(Batch::RaiseAboveActive, windows@, desktop@),
    {
        if windows.len() > 0 {
            plan.push(Step::Apply(ApplyOp::RaiseAboveActive(Self::capture(windows, desktop))));
        }
        assert(plan@ =~= old(plan)@ + queued(Batch::RaiseAboveActive, windows@, desktop@));
    }

    /// Raise a window immediately below another one, so that the other one stays on top
    /// of it whichever window has the foreground.
    pub fn raise_below(window: Window, target: Window, desktop: &Desktop, plan: &mut Plan)
        ensures
            final(plan)@ == old(plan)@.push(
                StepView::Apply(
                    (ApplyOpView::RaiseBelow {
                        window: captured(window, desktop@),
                        target: captured(target, desktop@),
                    }),
                ),
            ),
    {
        plan.push(
            Step::Apply(
                ApplyOp::RaiseBelow {
                    window: CapturedWindow::from_window(window, desktop),
                    target: CapturedWindow::from_window(target, desktop),
                },
            ),
        );
    }

    /// Activate a window once all operations that were queued before have been applied.
    pub fn raise_and_focus_hwnd(
        hwnd: isize,
        center_cursor: bool,
        authoritative: bool,
        desktop: &Desktop,
        plan: &mut Plan,
    )
        ensures
            final(plan)@ == old(plan)@.push(
                StepView::Apply(
                    (ApplyOpView::RaiseAndFocus {
                        windows: seq![captured(Window { hwnd }, desktop@)],
                        center_cursor,
                        enqueue_foreground: desktop@.foreground,
                        authoritative,
                        enqueued_at_ms: desktop@.now_ms,
                    }),
                ),
            ),
    {
        let mut windows: Vec<CapturedWindow> = Vec::new();
        windows.push(CapturedWindow::from_window(Window { hwnd }, desktop));
        assert(windows@ =~= seq![captured(Window { hwnd }, desktop@)]);
        plan.push(
            Step::Apply(
                ApplyOp::RaiseAndFocus {
                    windows,
                    center_cursor,
                    enqueue_foreground: desktop.foreground,
                    authoritative,
                    enqueued_at_ms: desktop.now_ms,
                },
            ),
        );
    }

    /// Raise the windows to the top of the normal band, in order.
    pub fn raise(windows: &Vec<Window>, desktop: &Desktop, plan: &mut Plan)
        ensures
            final(plan)@ == old(plan)@ + queued(Batch::Raise, windows@, desktop@),
    {
        if windows.len() > 0 {
            plan.push(Step::Apply(ApplyOp::Raise(Self::capture(windows, desktop))));
        }
        assert(plan@ =~= old(plan)@ + queued(Batch::Raise, windows@, desktop@));
    }

    /// Lower the windows below the managed base, in order.
    pub fn lower(windows: &Vec<Window>, desktop: &Desktop, plan: &mut Plan)
        ensures
            final(plan)@ == old(plan)@ + queued(Batch::Lower, windows@, desktop@),
    {
        if windows.len() > 0 {
            plan.push(Step::Apply(ApplyOp::Lower(Self::capture(windows, desktop))));
        }
        assert(plan@ =~= old(plan)@ + queued(Batch::Lower, windows@, desktop@));
    }

    /// Lower the windows together, in one pass.
    pub fn lower_batch(windows: &Vec<Window>, desktop: &Desktop, plan: &mut Plan)
        ensures
            final(plan)@ == old(plan)@ + queued(Batch::LowerBatch, windows@, desktop@),
    {
        if windows.len() > 0 {
            plan.push(Step::Apply(ApplyOp::LowerBatch(Self::capture(windows, desktop))));
        }
        assert(plan@ =~= old(plan)@ + queued(Batch::LowerBatch, windows@, desktop@));
    }

    /// Raise the windows together, in one pass. Later windows end up above earlier ones.
    pub fn raise_batch(windows: &Vec<Window>, desktop: &Desktop, plan: &mut Plan)
        ensures
            final(plan)@ == old(plan)@ + queued(Batch::RaiseBatch, windows@, desktop@),
    {
        if windows.len() > 0 {
            plan.push(Step::Apply(ApplyOp::RaiseBatch(Self::capture(windows, desktop))));
        }
        assert(plan@ =~= old(plan)@ + queued(Batch::RaiseBatch, windows@, desktop@));
    }

    /// Take the windows out of the topmost band.
    pub fn clear_topmost(windows: &Vec<Window>, desktop: &Desktop, plan: &mut Plan)
        ensures
            final(plan)@ == old(plan)@ + queued(Batch::ClearTopmost, windows@, desktop@),
    {
        if windows.len() > 0 {
            plan.push(Step::Apply(ApplyOp::ClearTopmost(Self::capture(windows, desktop))));
        }
        assert(plan@ =~= old(plan)@ + queued(Batch::ClearTopmost, windows@, desktop@));
    }

    /// Put the windows into the topmost band, in order.
    pub fn make_topmost(windows: &Vec<Window>, desktop: &Desktop, plan: &mut Plan)
        ensures
            final(plan)@ == old(plan)@ + queued(Batch::MakeTopmost, windows@, desktop@),
    {
        if windows.len() > 0 {
            plan.push(Step::Apply(ApplyOp::MakeTopmost(Self::capture(windows, desktop))));
        }
        assert(plan@ =~= old(plan)@ + queued(Batch::MakeTopmost, windows@, desktop@));
    }
}

/// No round touches a window that died or whose handle was recycled since the operation
/// was queued.
pub proof fn recycled_windows_are_left_alone(
    batch: Batch,
    windows: Seq<CapturedWindow>,
    at: int,
    d: DesktopView,
)
    requires
        0 <= at < windows.len(),
        !(batch is LowerBatch),
        !(batch is RaiseBatch),
        !windows[at].still_owned(d),
    ensures
        ApplyOpView::Windows(batch, windows).round(at, d) == Seq::<StepView>::empty(),
{
}

/// A window that is not the captured one any more is not among those that a pass over
/// all windows moves, and every other window is.
pub proof fn passes_move_the_owned_windows(
    windows: Seq<CapturedWindow>,
    at: int,
    d: DesktopView,
)
    requires
        0 <= at < windows.len(),
        forall|i: int|
            0 <= i < windows.len() && i != at ==> (#[trigger] windows[i]).window.hwnd
                != windows[at].window.hwnd,
    ensures
        owned_hwnds(windows, d).contains(windows[at].window.hwnd) == windows[at].still_owned(d),
{
    let owned = |window: CapturedWindow| window.still_owned(d);
    let kept = windows.filter(owned);
    broadcast use vstd::seq_lib::group_filter_ensures;

    let hwnds = owned_hwnds(windows, d);
    if windows[at].still_owned(d) {
        assert(owned(windows[at]));
        assert(kept.contains(windows[at]));
        let i = choose|i: int| 0 <= i < kept.len() && kept[i] == windows[at];
        assert(hwnds[i] == windows[at].window.hwnd);
    } else if hwnds.contains(windows[at].window.hwnd) {
        let i = choose|i: int| 0 <= i < hwnds.len() && hwnds[i] == windows[at].window.hwnd;
        assert(owned(kept[i]));
        kept_come_from(windows, owned, i);
        let j = choose|j: int| 0 <= j < windows.len() && windows[j] == kept[i];
        assert(windows[j].window.hwnd == windows[at].window.hwnd);
    }
}

/// What a filter keeps comes from the sequence.
proof fn kept_come_from(
    windows: Seq<CapturedWindow>,
    keep: spec_fn(CapturedWindow) -> bool,
    i: int,
)
    requires
        0 <= i < windows.filter(keep).len(),
    ensures
        windows.contains(windows.filter(keep)[i]),
    decreases windows.len(),
{
    reveal(Seq::filter);
    if windows.len() > 0 {
        let before = windows.drop_last();
        if i < before.filter(keep).len() {
            kept_come_from(before, keep, i);
            let j = choose|j: int| 0 <= j < before.len() && before[j] == before.filter(keep)[i];
            assert(windows[j] == windows.filter(keep)[i]);
        } else {
            assert(windows[windows.len() - 1] == windows.filter(keep)[i]);
        }
    }
}

/// An activation that is overtaken is not applied; one whose window already has the
/// foreground never is overtaken, and an authoritative one is not while it settles.
pub proof fn stale_activations_are_skipped(
    window: CapturedWindow,
    center_cursor: bool,
    enqueue_foreground: isize,
    authoritative: bool,
    enqueued_at_ms: u64,
    d: DesktopView,
    foreground: isize,
)
    requires
        d.foreground == Some(foreground),
    ensures
        ({
            let op = ApplyOpView::RaiseAndFocus {
                windows: seq![window],
                center_cursor,
                enqueue_foreground: Some(enqueue_foreground),
                authoritative,
                enqueued_at_ms,
            };
            let settling = authoritative && d.now_ms - enqueued_at_ms
                < ACTIVATION_SETTLE_BUDGET_MS;
            let third = foreground != window.window.hwnd && foreground != enqueue_foreground;
            &&& !settling && third ==> op.round(0, d) == Seq::<StepView>::empty()
            &&& window.still_owned(d) && (settling || !third) ==> op.round(0, d).len() == 1
        }),
{
}

} // verus!
