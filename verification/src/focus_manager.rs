//! The cursor follows a window whose animation has ended.

use vstd::prelude::*;

use crate::desktop::Desktop;
use crate::desktop::DesktopView;
use crate::geometry::Rect;
use crate::plan::Call;
use crate::plan::Plan;
use crate::plan::Signal;
use crate::plan::Step;
use crate::plan::StepView;

verus! {

/// How many notifications wait at most. Those beyond are dropped.
pub const CHANNEL_CAPACITY: usize = 20;

/// The window whose animation has ended, and where it was sent to.
#[derive(Clone, Copy, Debug, PartialEq, Eq, Structural)]
pub struct Notification {
    pub hwnd: isize,
    pub rect: Option<Rect>,
}

/// Ask for the cursor to follow a window. The rectangle is where the window was sent to:
/// where it is may not be there yet.
pub fn send_notification(hwnd: isize, rect: Option<Rect>, plan: &mut Plan)
    ensures
        final(plan)@ == old(plan)@.push(StepView::Send(Signal::FollowFocus(hwnd, rect))),
{
    plan.send(Signal::FollowFocus(hwnd, rect));
}

/// What a notification leads to: the cursor follows where the mouse follows the focus and
/// the window still exists and has the foreground.
pub open spec fn following_steps(
    notification: Notification,
    mouse_follows_focus: bool,
    d: DesktopView,
) -> Seq<StepView> {
    if d.at(notification.hwnd).is_window && d.foreground == Some(notification.hwnd)
        && mouse_follows_focus && notification.rect is Some {
        seq![StepView::Try(Call::CenterCursorInRect(notification.rect->0), None)]
    } else {
        Seq::empty()
    }
}

/// Handle a notification.
pub fn handle_notification(
    notification: Notification,
    mouse_follows_focus: bool,
    desktop: &Desktop,
    plan: &mut Plan,
)
    ensures
        final(plan)@ == old(plan)@ + following_steps(
            notification,
            mouse_follows_focus,
            desktop@,
        ),
{
    let has_foreground = match desktop.foreground {
        Some(foreground) => foreground == notification.hwnd,
        None => false,
    };
    if desktop.is_window(notification.hwnd) && has_foreground && mouse_follows_focus {
        match notification.rect {
            Some(rect) => {
                plan.push(Step::Try(Call::CenterCursorInRect(rect), None));
            },
            None => {},
        }
    }
    assert(plan@ =~= old(plan)@ + following_steps(notification, mouse_follows_focus, desktop@));
}

/// The cursor never follows a window that is gone or has lost the foreground.
pub proof fn the_cursor_follows_only_the_foreground(
    notification: Notification,
    mouse_follows_focus: bool,
    d: DesktopView,
)
    requires
        !d.at(notification.hwnd).is_window || d.foreground != Some(notification.hwnd),
    ensures
        following_steps(notification, mouse_follows_focus, d).len() == 0,
{
}

} // verus!
