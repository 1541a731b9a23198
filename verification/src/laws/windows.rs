//! What is asked of the window system for a single window.

use vstd::prelude::*;

use crate::animation::settings::AnimationPrefix;
use crate::animation::settings::AnimationSettings;
use crate::desktop::DesktopView;
use crate::geometry::Rect;
use crate::plan::Call;
use crate::plan::StepView;
use crate::window;
use crate::window::AspectRatio;
use crate::window::HidingBehaviour;
use crate::window::HidingView;

verus! {

/// Focusing a window activates it once, unless it has the foreground, and then brings the
/// cursor to it where the mouse follows the focus.
pub proof fn focusing_activates_once(hwnd: isize, follows: bool, d: DesktopView)
    ensures
        ({
            let steps = window::focus_steps(hwnd, follows, d);
            let activate = StepView::Do(Call::RaiseAndFocusWindow(hwnd));
            let cursor = StepView::Do(Call::CenterCursorOnWindow(hwnd));
            &&& d.foreground != Some(hwnd) && follows ==> steps == seq![activate, cursor]
            &&& d.foreground != Some(hwnd) && !follows ==> steps == seq![activate]
            &&& d.foreground == Some(hwnd) && follows ==> steps == seq![cursor]
            &&& d.foreground == Some(hwnd) && !follows ==> steps == Seq::<StepView>::empty()
        }),
{
}

/// A window is hidden in the way that is configured, and shown again in the way that undoes it:
/// a cloaked window is uncloaked, any other one is restored. Its border goes and comes with it.
pub proof fn windows_are_shown_as_they_were_hidden(hiding: HidingView, hwnd: isize)
    ensures
        ({
            let hide = match hiding.behaviour {
                HidingBehaviour::Hide => Call::HideWindow(hwnd),
                HidingBehaviour::Minimize => Call::MinimizeWindow(hwnd),
                HidingBehaviour::Cloak => Call::CloakWindow(hwnd),
            };
            let show = if hiding.behaviour == HidingBehaviour::Cloak {
                Call::UncloakWindow(hwnd)
            } else {
                Call::RestoreWindowSync(hwnd)
            };
            &&& hiding.hide_steps(hwnd, true) == seq![
                StepView::Do(hide),
                StepView::Do(Call::HideBorder(hwnd)),
            ]
            &&& hiding.hide_steps(hwnd, false) == seq![StepView::Do(hide)]
            &&& hiding.restore_steps(hwnd, true) == seq![
                StepView::Do(show),
                StepView::Do(Call::ShowBorder(hwnd)),
            ]
            &&& hiding.restore_steps(hwnd, false) == seq![StepView::Do(show)]
        }),
{
}

/// A window that is hidden is among the hidden ones, one that is shown again is not, where it
/// was remembered once, and neither changes what is remembered of other windows.
pub proof fn hidden_windows_are_remembered(hiding: HidingView, hwnd: isize, other: isize)
    ensures
        hiding.with(hwnd).hidden.contains(hwnd),
        other != hwnd ==> hiding.with(hwnd).hidden.contains(other) == hiding.hidden.contains(other),
        hiding.hidden.no_duplicates() ==> hiding.with(hwnd).hidden.no_duplicates(),
        hiding.hidden.no_duplicates() ==> !hiding.without(hwnd).hidden.contains(hwnd),
        other != hwnd ==> hiding.without(hwnd).hidden.contains(other) == hiding.hidden.contains(
            other,
        ),
        hiding.with(hwnd).behaviour == hiding.behaviour,
        hiding.without(hwnd).behaviour == hiding.behaviour,
{
    let hidden = hiding.hidden;
    let more = hiding.with(hwnd).hidden;
    let fewer = hiding.without(hwnd).hidden;
    if !hidden.contains(hwnd) {
        assert(more[hidden.len() as int] == hwnd);
    }
    if hidden.contains(other) {
        let i = choose|i: int| 0 <= i < hidden.len() && hidden[i] == other;
        assert(more[i] == other);
    }
    let at = hidden.index_of_first(hwnd);
    hidden.index_of_first_ensures(hwnd);
    if at is Some {
        let k = at->0;
        assert(fewer == hidden.remove(k));
        assert forall|i: int| 0 <= i < fewer.len() implies #[trigger] fewer[i] == if i < k {
            hidden[i]
        } else {
            hidden[i + 1]
        } by {}
        if other != hwnd && hidden.contains(other) {
            let i = choose|i: int| 0 <= i < hidden.len() && hidden[i] == other;
            if i < k {
                assert(fewer[i] == other);
            } else {
                assert(fewer[i - 1] == other);
            }
        }
        if fewer.contains(other) {
            let i = choose|i: int| 0 <= i < fewer.len() && fewer[i] == other;
            assert(hidden.contains(other)) by {
                if i < k {
                    assert(hidden[i] == other);
                } else {
                    assert(hidden[i + 1] == other);
                }
            }
        }
        if hidden.no_duplicates() && fewer.contains(hwnd) {
            let i = choose|i: int| 0 <= i < fewer.len() && fewer[i] == hwnd;
            assert(i < k ==> hidden[i] == hwnd);
            assert(i >= k ==> hidden[i + 1] == hwnd);
        }
    }
}

/// A window that is brought to a rectangle gets there: with one call, which animates the way
/// from where it is where movement is animated, and with none where it is there already.
pub proof fn windows_get_where_they_are_brought(
    hwnd: isize,
    current: Rect,
    target: Rect,
    top: bool,
    animations: AnimationSettings,
)
    ensures
        ({
            let steps = window::position_steps(hwnd, current, target, top, animations);
            let animated = animations.movement.enabled == Some(true) || animations.enabled;
            &&& current == target ==> steps.len() == 0
            &&& current != target ==> steps.len() == 1
            &&& current != target && !animated ==> steps[0] == StepView::Do(
                Call::PositionWindow { hwnd, rect: target, top },
            )
            &&& current != target && animated ==> steps[0] == StepView::Do(
                Call::AnimateMovement {
                    hwnd,
                    start: current,
                    target,
                    top,
                    duration_ms: animations.duration_of(AnimationPrefix::Movement),
                    style: animations.style_of(AnimationPrefix::Movement),
                },
            )
        }),
{
}

/// A window that is centred keeps the size that it is given, and is as far from the left edge
/// of the area as from the right one and as far from the top as from the bottom, up to a pixel.
pub proof fn centred_windows_are_in_the_middle(area: Rect, width: int, height: int)
    ensures
        window::centred(area, width, height) matches Some(rect) ==> {
            let left = rect.left - area.left;
            let right = area.right - left - rect.right;
            let top = rect.top - area.top;
            let bottom = area.bottom - top - rect.bottom;
            &&& rect.right == width
            &&& rect.bottom == height
            &&& -1 <= left - right <= 1
            &&& -1 <= top - bottom <= 1
        },
{
    let horizontal = window::safe_margin(area.right as int, width);
    let vertical = window::safe_margin(area.bottom as int, height);
    half(area.right - 2 * horizontal - width);
    half(area.bottom - 2 * vertical - height);
}

proof fn half(length: int)
    ensures
        -1 <= length - 2 * window::quotient(length, 2) <= 1,
{
}

/// A window that is centred without being resized keeps its size, and one that is resized gets
/// half the height of the area, and a width by the aspect ratio.
pub proof fn centred_windows_have_their_size(area: Rect, ratio: AspectRatio, current: Option<Rect>)
    requires
        area.bottom >= 0,
        ratio.ratio().0 >= 0,
        ratio.ratio().1 > 0,
    ensures
        window::centred_size(area, false, ratio, current) == (match current {
            Some(rect) => Some((rect.right as int, rect.bottom as int)),
            None => None,
        }),
        window::centred_size(area, true, ratio, current) matches Some((width, height)) && height
            == area.bottom as int / 2 && width * ratio.ratio().1 <= height * ratio.ratio().0 < (width
            + 1) * ratio.ratio().1,
{
    let height = area.bottom as int / 2;
    let product = height * ratio.ratio().0;
    assert(product >= 0) by (nonlinear_arith)
        requires
            product == height * ratio.ratio().0,
            height >= 0,
            ratio.ratio().0 >= 0,
    ;
    let width = product / (ratio.ratio().1 as int);
    vstd::arithmetic::div_mod::lemma_fundamental_div_mod(product, ratio.ratio().1 as int);
    vstd::arithmetic::div_mod::lemma_mod_bound(product, ratio.ratio().1 as int);
    let divisor = ratio.ratio().1 as int;
    assert(width * divisor == divisor * width) by (nonlinear_arith);
    assert((width + 1) * divisor == divisor * width + divisor) by (nonlinear_arith);
}

/// Two intervals share as much as lies in both: nothing where one ends before the other begins,
/// and all of one that lies within the other.
pub proof fn intervals_share_what_lies_in_both(a_from: int, a_to: int, b_from: int, b_to: int)
    ensures
        window::overlap(a_from, a_to, b_from, b_to) == window::overlap(b_from, b_to, a_from, a_to),
        window::overlap(a_from, a_to, b_from, b_to) >= 0,
        a_to <= b_from || b_to <= a_from ==> window::overlap(a_from, a_to, b_from, b_to) == 0,
        b_from <= a_from <= a_to <= b_to ==> window::overlap(a_from, a_to, b_from, b_to) == a_to
            - a_from,
        a_from <= b_from <= a_to <= b_to ==> window::overlap(a_from, a_to, b_from, b_to) == a_to
            - b_from,
{
}

/// A window that covers a rectangle by its edges lets no edge of it out by more than the
/// tolerance, and one that reaches beyond all edges always covers it.
pub proof fn covering_windows_reach_every_edge(window: Rect, target: Rect, tolerance: int)
    requires
        tolerance >= 0,
    ensures
        window.left <= target.left && window.top <= target.top && window.right >= target.right
            && window.bottom >= target.bottom ==> window::covers_edges(window, target, tolerance),
        window.left > target.left + tolerance ==> !window::covers_edges(window, target, tolerance),
        window.top > target.top + tolerance ==> !window::covers_edges(window, target, tolerance),
        window.right < target.right - tolerance ==> !window::covers_edges(
            window,
            target,
            tolerance,
        ),
        window.bottom < target.bottom - tolerance ==> !window::covers_edges(
            window,
            target,
            tolerance,
        ),
{
}

} // verus!
