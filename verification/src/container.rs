//! A tile: one window, or a stack of windows one of which is shown.

use vstd::prelude::*;

use crate::ring;
use crate::ring::Ring;
use crate::ring::RingView;
use crate::window::Screen;
use crate::window::Window;

verus! {

/// Whether a list of windows holds a handle.
pub open spec fn holds(windows: Seq<Window>, hwnd: isize) -> bool {
    exists|i: int| 0 <= i < windows.len() && (#[trigger] windows[i]).hwnd == hwnd
}

/// The position of the first window with a handle.
pub fn position_in(windows: &Vec<Window>, hwnd: isize) -> (r: Option<usize>)
    ensures
        match r {
            Some(i) => i < windows@.len() && windows@[i as int].hwnd == hwnd && forall|k: int|
                0 <= k < i ==> (#[trigger] windows@[k]).hwnd != hwnd,
            None => !holds(windows@, hwnd),
        },
        r is Some == holds(windows@, hwnd),
{
    let mut i: usize = 0;
    while i < windows.len()
        invariant
            i <= windows@.len(),
            forall|k: int| 0 <= k < i ==> (#[trigger] windows@[k]).hwnd != hwnd,
        decreases windows@.len() - i,
    {
        if windows[i].hwnd == hwnd {
            assert(windows@[i as int].hwnd == hwnd);
            return Some(i);
        }
        i = i + 1;
    }
    None
}

/// The windows that are left when those with a handle are taken out.
pub open spec fn without(windows: Seq<Window>, hwnd: isize) -> Seq<Window> {
    windows.filter(|window: Window| window.hwnd != hwnd)
}

/// Take the windows with a handle out of a list.
pub fn take_out(windows: &mut Vec<Window>, hwnd: isize)
    ensures
        final(windows)@ == without(old(windows)@, hwnd),
{
    let ghost all = windows@;
    let ghost keep = |window: Window| window.hwnd != hwnd;
    let mut kept: Vec<Window> = Vec::new();
    let mut i: usize = 0;
    proof {
        reveal(Seq::filter);
    }
    while i < windows.len()
        invariant
            windows@ == all,
            keep == (|window: Window| window.hwnd != hwnd),
            i <= all.len(),
            kept@ == all.take(i as int).filter(keep),
        decreases all.len() - i,
    {
        proof {
            reveal(Seq::filter);
            assert(all.take(i + 1).drop_last() =~= all.take(i as int));
        }
        if windows[i].hwnd != hwnd {
            kept.push(windows[i]);
        }
        i = i + 1;
    }
    assert(all.take(i as int) =~= all);
    *windows = kept;
}

/// Taking a handle out leaves no window with it, and every other window.
pub proof fn taken_out(windows: Seq<Window>, hwnd: isize, other: isize)
    ensures
        !holds(without(windows, hwnd), hwnd),
        other != hwnd ==> holds(without(windows, hwnd), other) == holds(windows, other),
        !holds(windows, hwnd) ==> without(windows, hwnd) == windows,
    decreases windows.len(),
{
    reveal(Seq::filter);
    if windows.len() > 0 {
        let before = windows.drop_last();
        let left = without(before, hwnd);
        taken_out(before, hwnd, other);
        assert(forall|i: int| 0 <= i < before.len() ==> before[i] == windows[i]);
        if windows.last().hwnd != hwnd {
            assert(without(windows, hwnd) == left.push(windows.last()));
            assert forall|h: isize| holds(left.push(windows.last()), h) == (holds(left, h)
                || windows.last().hwnd == h) by {
                pushed(left, windows.last(), h);
            }
        } else {
            assert(holds(windows, hwnd)) by {
                assert(windows[windows.len() - 1].hwnd == hwnd);
            }
        }
        assert(windows =~= before.push(windows.last()));
        pushed(before, windows.last(), other);
        pushed(before, windows.last(), hwnd);
    }
}

/// A list with a window added holds the handles of the list and the one of the window.
pub proof fn pushed(windows: Seq<Window>, window: Window, hwnd: isize)
    ensures
        holds(windows.push(window), hwnd) == (holds(windows, hwnd) || window.hwnd == hwnd),
{
    let all = windows.push(window);
    if holds(windows, hwnd) {
        let i = choose|i: int| 0 <= i < windows.len() && (#[trigger] windows[i]).hwnd == hwnd;
        assert(all[i].hwnd == hwnd);
    }
    if window.hwnd == hwnd {
        assert(all[windows.len() as int].hwnd == hwnd);
    }
    if holds(all, hwnd) && window.hwnd != hwnd {
        let i = choose|i: int| 0 <= i < all.len() && (#[trigger] all[i]).hwnd == hwnd;
        assert(windows[i].hwnd == hwnd);
    }
}

#[derive(Debug)]
pub struct Container {
    pub windows: Ring<Window>,
    /// A locked container keeps its place when others are added or removed.
    pub locked: bool,
}

/// A tile, for contracts.
#[verifier::ext_equal]
pub struct ContainerView {
    pub windows: RingView<Window>,
    pub locked: bool,
}

impl View for Container {
    type V = ContainerView;

    open spec fn view(&self) -> ContainerView {
        ContainerView {
            windows: RingView { elements: self.windows.elements@, focused: self.windows.focused },
            locked: self.locked,
        }
    }
}

/// A container with a single window.
pub open spec fn single(window: Window) -> ContainerView {
    ContainerView { windows: RingView { elements: seq![window], focused: 0 }, locked: false }
}

impl ContainerView {
    /// A container without windows.
    pub open spec fn empty() -> ContainerView {
        ContainerView { windows: RingView::empty(), locked: false }
    }

    /// The window that is shown.
    pub open spec fn front(self) -> Option<Window> {
        self.windows.focused_element()
    }

    /// Whether the container holds a window.
    pub open spec fn has(self, hwnd: isize) -> bool {
        holds(self.windows.elements, hwnd)
    }

    /// The container with one more window behind the others, which is shown.
    pub open spec fn adding(self, window: Window) -> ContainerView {
        ContainerView {
            windows: self.windows.with(self.windows.elements.push(window)).focusing(
                self.windows.elements.len() as int,
            ),
            ..self
        }
    }

    /// The container without its focused window.
    pub open spec fn without_front(self) -> ContainerView {
        ContainerView { windows: self.windows.removed(self.windows.focused as int), ..self }
    }

    /// The container without a window.
    pub open spec fn without(self, hwnd: isize) -> ContainerView {
        ContainerView {
            windows: self.windows.with(without(self.windows.elements, hwnd)),
            ..self
        }
    }

    /// The container with the window at a position shown.
    pub open spec fn focusing(self, idx: int) -> ContainerView {
        ContainerView { windows: self.windows.focusing(idx), ..self }
    }
}

impl Default for Container {
    fn default() -> (r: Self)
        ensures
            r@ == ContainerView::empty(),
    {
        Container { windows: Ring::new(), locked: false }
    }
}

/// What can be locked in its place.
pub trait Lockable: Sized {
    /// Whether it is locked.
    spec fn is_locked(&self) -> bool;

    /// It, locked or not.
    spec fn locking(&self, locked: bool) -> Self;

    fn locked(&self) -> (r: bool)
        ensures
            r == self.is_locked(),
    ;

    fn set_locked(&mut self, locked: bool) -> (r: &mut Self)
        ensures
            *r == old(self).locking(locked),
            *final(self) == *final(r),
    ;
}

impl Lockable for Container {
    open spec fn is_locked(&self) -> bool {
        self.locked
    }

    open spec fn locking(&self, locked: bool) -> Container {
        Container { locked, ..*self }
    }

    fn locked(&self) -> (r: bool) {
        self.locked
    }

    fn set_locked(&mut self, locked: bool) -> (r: &mut Self) {
        self.locked = locked;
        self
    }
}

/// Show windows again, in order.
pub fn restore_all(windows: &Vec<Window>, screen: &mut Screen)
    ensures
        final(screen)@ == old(screen)@.showing_all(windows@),
{
    let ghost start = screen@;
    let mut i: usize = 0;
    while i < windows.len()
        invariant
            i <= windows@.len(),
            screen@ == start.showing_all(windows@.take(i as int)),
        decreases windows@.len() - i,
    {
        windows[i].restore(screen);
        i = i + 1;
        assert(windows@.take(i as int).drop_last() =~= windows@.take(i - 1));
    }
    assert(windows@.take(i as int) =~= windows@);
}

/// The first position of a window in a list.
pub open spec fn first_position(windows: Seq<Window>, hwnd: isize) -> int {
    choose|i: int| is_first(windows, i, hwnd)
}

/// Whether a position is the first one of a window.
pub open spec fn is_first(windows: Seq<Window>, at: int, hwnd: isize) -> bool {
    &&& 0 <= at < windows.len()
    &&& windows[at].hwnd == hwnd
    &&& forall|k: int| 0 <= k < at ==> (#[trigger] windows[k]).hwnd != hwnd
}

/// There is one first position.
pub proof fn first_is_first(windows: Seq<Window>, at: int, hwnd: isize)
    requires
        is_first(windows, at, hwnd),
    ensures
        first_position(windows, hwnd) == at,
{
    let first = first_position(windows, hwnd);
    assert(is_first(windows, first, hwnd));
    if first < at {
        assert(windows[first].hwnd != hwnd);
    }
    if at < first {
        assert(windows[at].hwnd != hwnd);
    }
}

impl Container {
    pub fn windows(&self) -> (r: &Vec<Window>)
        ensures
            *r == self.windows.elements,
            r@ == self@.windows.elements,
    {
        &self.windows.elements
    }

    pub fn windows_mut(&mut self) -> (r: &mut Vec<Window>)
        ensures
            *r == old(self).windows.elements,
            final(self)@ == (ContainerView {
                windows: old(self)@.windows.with(final(r)@),
                ..old(self)@
            }),
    {
        self.windows.elements_mut()
    }

    pub fn focused_window(&self) -> (r: Option<&Window>)
        ensures
            match r {
                Some(window) => self@.front() == Some(*window),
                None => self@.front() is None,
            },
    {
        self.windows.focused()
    }

    pub fn focused_window_idx(&self) -> (r: usize)
        ensures
            r == self@.windows.focused,
    {
        self.windows.focused_idx()
    }

    pub fn focus_window(&mut self, idx: usize)
        ensures
            final(self)@ == old(self)@.focusing(idx as int),
    {
        self.windows.focus(idx);
    }

    pub fn contains_window(&self, hwnd: isize) -> (r: bool)
        ensures
            r == self@.has(hwnd),
    {
        position_in(&self.windows.elements, hwnd).is_some()
    }

    /// The position of a window in the container.
    pub fn idx_for_window(&self, hwnd: isize) -> (r: Option<usize>)
        ensures
            match r {
                Some(i) => is_first(self@.windows.elements, i as int, hwnd) && first_position(
                    self@.windows.elements,
                    hwnd,
                ) == i,
                None => !self@.has(hwnd),
            },
            r is Some == self@.has(hwnd),
    {
        let r = position_in(&self.windows.elements, hwnd);
        proof {
            if r is Some {
                first_is_first(self.windows.elements@, r->0 as int, hwnd);
            }
        }
        r
    }

    /// Add a window behind the others, and focus it.
    pub fn add_window(&mut self, window: Window)
        ensures
            final(self)@ == old(self)@.adding(window),
    {
        let last: usize = self.windows.elements.len();
        self.windows.elements.push(window);
        self.windows.focus(last);
    }

    /// Take the focused window out. The focus goes to the window before it.
    pub fn remove_focused_window(&mut self) -> (r: Option<Window>)
        ensures
            r == old(self)@.front(),
            final(self)@ == (if r is Some {
                old(self)@.without_front()
            } else {
                old(self)@
            }),
    {
        let focused: usize = self.windows.focused;
        if focused < self.windows.elements.len() {
            Some(self.windows.remove(focused))
        } else {
            None
        }
    }

    /// Take a window out. The focus stays at its position.
    pub fn remove_window(&mut self, hwnd: isize)
        ensures
            final(self)@ == old(self)@.without(hwnd),
    {
        take_out(&mut self.windows.elements, hwnd);
    }

    /// Show the focused window of the container again.
    pub fn restore(&self, screen: &mut Screen)
        ensures
            final(screen)@ == (match self@.front() {
                Some(window) => old(screen)@.showing(window),
                None => old(screen)@,
            }),
    {
        match self.focused_window() {
            Some(window) => {
                window.restore(screen);
            },
            None => {},
        }
    }
}

} // verus!
