//! How animations end, and what they leave behind.

use vstd::prelude::*;

use crate::animation::engine;
use crate::animation::movement;
use crate::animation::movement::MovementRenderDispatcher;
use crate::animation::transparency;
use crate::desktop::DesktopView;
use crate::error::Error;
use crate::geometry::Rect;
use crate::plan::Call;
use crate::plan::Signal;
use crate::plan::StepView;
use crate::styles;
use crate::window;

verus! {

/// A movement that comes to its end leaves the window at its target, unless it is there already,
/// and one that is broken off leaves it where it was drawn last. A cloaked window is uncloaked
/// after that.
pub proof fn movements_end_where_they_were_sent(dispatcher: MovementRenderDispatcher)
    ensures
        ({
            let hwnd = dispatcher.hwnd;
            let uncloak = StepView::Do(Call::UncloakWindow(hwnd));
            let at_target = StepView::Do(
                Call::PositionWindowAsync {
                    hwnd,
                    rect: dispatcher.target_rect,
                    top: dispatcher.top,
                    send_changing: false,
                },
            );
            let at_last = StepView::Try(
                Call::PositionWindowAsync {
                    hwnd,
                    rect: dispatcher.last_animated_rect,
                    top: false,
                    send_changing: false,
                },
                None,
            );
            &&& !dispatcher.pre_painted && dispatcher.cloaked ==> dispatcher.end_steps() == seq![
                at_target,
                uncloak,
            ]
            &&& !dispatcher.pre_painted && !dispatcher.cloaked ==> dispatcher.end_steps() == seq![
                at_target,
            ]
            &&& dispatcher.pre_painted && dispatcher.cloaked ==> dispatcher.end_steps() == seq![
                uncloak,
            ]
            &&& dispatcher.pre_painted && !dispatcher.cloaked ==> dispatcher.end_steps().len() == 0
            &&& dispatcher.cloaked ==> dispatcher.cancel_steps() == seq![at_last, uncloak]
            &&& !dispatcher.cloaked ==> dispatcher.cancel_steps() == seq![at_last]
            &&& dispatcher.ended() == (MovementRenderDispatcher {
                has_ghost: false,
                cloaked: false,
                ..dispatcher
            })
        }),
{
}

/// Only once no movement is in progress any more do stackbars and dimming come back, and does
/// the cursor follow the window, where it has the foreground.
pub proof fn the_last_movement_is_told_of(
    hwnd: isize,
    rect: Rect,
    in_progress: int,
    foreground: Option<isize>,
)
    ensures
        ({
            let steps = movement::final_steps(hwnd, rect, in_progress, foreground);
            let rest = seq![
                StepView::Send(Signal::EnableStackbars),
                StepView::Send(Signal::UpdateStackbars),
                StepView::Send(Signal::UpdateTransparency),
            ];
            let follow = seq![StepView::Send(Signal::FollowFocus(hwnd, Some(rect)))];
            &&& in_progress != 0 ==> steps.len() == 0
            &&& in_progress == 0 && foreground == Some(hwnd) ==> steps == follow + rest
            &&& in_progress == 0 && foreground is Some && foreground != Some(hwnd) ==> steps == rest
        }),
{
}

/// The window is moved to its target before a ghost is made of it exactly where its size stays
/// and it goes on painting while it is cloaked.
pub proof fn only_windows_that_paint_are_moved_first(
    dispatcher: MovementRenderDispatcher,
    class: Option<String>,
)
    ensures
        ({
            let start = dispatcher.start_rect;
            let target = dispatcher.target_rect;
            let keeps_size = start.right == target.right && start.bottom == target.bottom;
            let is_chromium = class is Some && "Chrome_WidgetWin_"@.is_prefix_of(class->0@);
            dispatcher.prepaints(class) == (keeps_size && !is_chromium)
        }),
{
}

/// An animation may render for a second at least, and for four times its duration, as far as
/// that can be told, before it loses the slot.
pub proof fn animations_have_time_to_render(duration_ms: int)
    requires
        0 <= duration_ms,
    ensures
        ({
            let budget = engine::takeover_budget_of(duration_ms);
            &&& budget >= 1000
            &&& duration_ms * 4 <= u64::MAX ==> budget >= duration_ms * 4
            &&& budget == 1000 || budget <= duration_ms * 4
        }),
{
}

/// Layering a window sets the one bit of its extended styles and keeps the others, and undoing it
/// clears that bit.
pub proof fn layering_changes_one_bit(hwnd: isize, d: DesktopView, bits: u32)
    requires
        window::extended_style(d.at(hwnd).ex_style) == Some(bits),
        bits <= isize::MAX,
        (bits | styles::LAYERED) <= isize::MAX,
        (bits & !styles::LAYERED) <= isize::MAX,
    ensures
        transparency::layering(hwnd, true, d) == Ok::<StepView, Error>(
            StepView::Do(Call::UpdateExStyle(hwnd, bits | styles::LAYERED)),
        ),
        transparency::layering(hwnd, false, d) == Ok::<StepView, Error>(
            StepView::Do(Call::UpdateExStyle(hwnd, bits & !styles::LAYERED)),
        ),
{
}

} // verus!
