//! What the workers do that carry out what was queued.

use vstd::prelude::*;

use crate::apply_worker::ApplyOpView;
use crate::apply_worker::Batch;
use crate::apply_worker::CapturedWindow;
use crate::apply_worker::ACTIVATION_SETTLE_BUDGET_MS;
use crate::desktop::DesktopView;
use crate::focus_manager;
use crate::focus_manager::Notification;
use crate::geometry::Rect;
use crate::plan::Call;
use crate::plan::StepView;
use crate::wallpaper_worker::Palette;
use crate::wallpaper_worker::ThemeVariant;
use crate::wallpaper_worker::WallpaperAction;
use crate::wallpaper_worker::WallpaperEvent;
use crate::wallpaper_worker::WallpaperTask;
use crate::wallpaper_worker::WallpaperWorkerView;

verus! {

/// Whether a handle is still that of the window for which an operation was queued: it is a
/// window, of the same process.
pub open spec fn is_the_same(window: CapturedWindow, d: DesktopView) -> bool {
    d.at(window.window.hwnd).is_window && d.at(window.window.hwnd).process_id == window.process_id
}

/// A window that is still the one for which an operation was queued is raised, lowered, put into
/// the topmost band or taken out of it, as the operation says, and its border with it.
pub proof fn queued_operations_are_applied(
    windows: Seq<CapturedWindow>,
    at: int,
    d: DesktopView,
)
    requires
        0 <= at < windows.len(),
        is_the_same(windows[at], d),
    ensures
        ({
            let hwnd = windows[at].window.hwnd;
            let border = d.at(hwnd).border;
            let round = |batch: Batch| ApplyOpView::Windows(batch, windows).round(at, d);
            let with_border = |call: spec_fn(isize) -> Call|
                seq![
                    StepView::Try(
                        call(hwnd),
                        if border is Some {
                            Some(call(border->0))
                        } else {
                            None
                        },
                    ),
                ];
            &&& round(Batch::RaiseAboveActive) == with_border(
                |h: isize| Call::RaiseWindowAboveActive(h),
            )
            &&& round(Batch::Raise) == with_border(|h: isize| Call::RaiseWindowSync(h))
            &&& round(Batch::Lower) == with_border(|h: isize| Call::LowerWindowSync(h))
            &&& round(Batch::ClearTopmost) == seq![
                StepView::Try(Call::ClearTopmostWindow(hwnd), None),
            ]
            &&& round(Batch::MakeTopmost) == seq![
                StepView::Try(Call::MakeTopmostWindow(hwnd), None),
            ]
        }),
{
}

/// Every window of a list has its own round, in the order of the list.
pub proof fn windows_take_turns(batch: Batch, windows: Seq<CapturedWindow>)
    requires
        batch != Batch::LowerBatch,
        batch != Batch::RaiseBatch,
    ensures
        ApplyOpView::Windows(batch, windows).round_count() == windows.len(),
        ApplyOpView::Windows(Batch::LowerBatch, windows).round_count() == 1,
        ApplyOpView::Windows(Batch::RaiseBatch, windows).round_count() == 1,
{
}

/// A window is activated where the foreground is still where it was when that was queued, or is
/// the window's own, or where the activation is authoritative and young. Otherwise it is not.
pub proof fn activations_are_applied_in_time(
    windows: Seq<CapturedWindow>,
    at: int,
    center_cursor: bool,
    queued_over: isize,
    authoritative: bool,
    enqueued_at_ms: u64,
    d: DesktopView,
)
    requires
        0 <= at < windows.len(),
        is_the_same(windows[at], d),
        d.foreground is Some,
    ensures
        ({
            let hwnd = windows[at].window.hwnd;
            let round = ApplyOpView::RaiseAndFocus {
                windows,
                center_cursor,
                enqueue_foreground: Some(queued_over),
                authoritative,
                enqueued_at_ms,
            }.round(at, d);
            let is_young = d.now_ms - enqueued_at_ms < ACTIVATION_SETTLE_BUDGET_MS;
            let in_time = d.foreground->0 == queued_over || d.foreground->0 == hwnd || (
            authoritative && is_young);
            &&& in_time ==> round == seq![
                StepView::Try(
                    Call::RaiseAndFocusWindow(hwnd),
                    if center_cursor {
                        Some(Call::CenterCursorOnWindow(hwnd))
                    } else {
                        None
                    },
                ),
            ]
            &&& !in_time ==> round.len() == 0
        }),
{
}

/// The cursor goes to where a window was sent once its animation has ended, where the mouse
/// follows the focus and the window still has the foreground.
pub proof fn the_cursor_follows_the_foreground(hwnd: isize, rect: Rect, d: DesktopView)
    requires
        d.at(hwnd).is_window,
        d.foreground == Some(hwnd),
    ensures
        focus_manager::following_steps(Notification { hwnd, rect: Some(rect) }, true, d) == seq![
            StepView::Try(Call::CenterCursorInRect(rect), None),
        ],
        focus_manager::following_steps(Notification { hwnd, rect: Some(rect) }, false, d).len()
            == 0,
        focus_manager::following_steps(Notification { hwnd, rect: None }, true, d).len() == 0,
{
}

/// A monitor is asked for what it shows where that is not known, and given a wallpaper where it
/// shows another one. Colours are taken from a wallpaper that was given, unless it says that none
/// are, in the variant that it says, and are applied where it says.
pub proof fn wallpapers_get_to_their_monitor(
    worker: WallpaperWorkerView,
    task: WallpaperTask,
    shown: bool,
    palette: Palette,
)
    ensures
        ({
            let begun = worker.next_action(task, WallpaperEvent::Begun);
            let given = worker.next_action(task, WallpaperEvent::Shown(shown));
            let painted = worker.next_action(task, WallpaperEvent::Painted(Some(palette)));
            let is_known = worker.applied.contains_key(task.hmonitor);
            let path = if task.canonical is Some {
                task.canonical->0@
            } else {
                task.wallpaper.path@
            };
            let options = task.wallpaper.theme_options;
            let variant = if options is Some && options->0.theme_variant is Some {
                options->0.theme_variant->0
            } else {
                ThemeVariant::Dark
            };
            &&& !is_known ==> begun == WallpaperAction::Look
            &&& is_known && worker.applied[task.hmonitor]@ != path ==> begun
                == WallpaperAction::Show
            &&& is_known && worker.applied[task.hmonitor]@ == path ==> begun
                != WallpaperAction::Show && begun != WallpaperAction::Look
            &&& task.wallpaper.generate_theme != Some(false) ==> given == WallpaperAction::Paint(
                variant,
            )
            &&& task.wallpaper.generate_theme == Some(false) ==> given == WallpaperAction::Finish
            &&& painted matches WallpaperAction::Theme(theme) && theme.colours == palette && (
            options is Some ==> theme.single_border == options->0.single_border
                && theme.stack_border == options->0.stack_border && theme.monocle_border
                == options->0.monocle_border && theme.floating_border
                == options->0.floating_border && theme.pinned_border == options->0.pinned_border
                && theme.unfocused_border == options->0.unfocused_border && theme.bar_accent
                == options->0.bar_accent)
            &&& worker.next_action(task, WallpaperEvent::Painted(None)) == WallpaperAction::Finish
        }),
{
}

} // verus!
