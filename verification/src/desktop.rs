//! What the window system answers, as plain values.

use vstd::prelude::*;

use crate::geometry::Rect;

verus! {

/// What the window system says of one window. An answer that failed is `None`.
#[derive(Debug)]
pub struct WindowFacts {
    pub hwnd: isize,
    /// The handle belongs to a window.
    pub is_window: bool,
    /// The process that owns the window.
    pub process_id: u32,
    pub is_visible: bool,
    /// Visible, not minimized and not cloaked. Follows the hide and restore calls that
    /// have been planned since the answers were taken.
    pub is_shown: bool,
    pub is_maximized: bool,
    pub is_minimized: bool,
    pub is_cloaked: Option<bool>,
    /// The thread of the window answers in time.
    pub is_responding: bool,
    /// Left, top, width and height.
    pub rect: Option<Rect>,
    pub title: Option<String>,
    pub exe: Option<String>,
    pub class: Option<String>,
    pub path: Option<String>,
    /// The style bits as the window system keeps them.
    pub style: Option<isize>,
    pub ex_style: Option<isize>,
    /// The alpha value of a layered window.
    pub alpha: Option<u8>,
    /// The monitor on which the window is displayed.
    pub monitor: isize,
    /// The rectangle of that monitor in absolute screen coordinates.
    pub monitor_rect: Option<Rect>,
    /// The work area of that monitor in absolute screen coordinates.
    pub work_rect: Option<Rect>,
    /// The window overlaps enough of the monitor's area to count as covering it.
    pub covers_monitor_area: bool,
    /// The window overlaps enough of the work area to count as covering it.
    pub covers_work_area: bool,
    /// The border window that is attached to the window.
    pub border: Option<isize>,
}

/// The answers for a handle that the window system does not know.
pub open spec fn no_window(hwnd: isize) -> WindowFacts {
    WindowFacts {
        hwnd,
        is_window: false,
        process_id: 0,
        is_visible: false,
        is_shown: false,
        is_maximized: false,
        is_minimized: false,
        is_cloaked: None,
        is_responding: false,
        rect: None,
        title: None,
        exe: None,
        class: None,
        path: None,
        style: None,
        ex_style: None,
        alpha: None,
        monitor: 0,
        monitor_rect: None,
        work_rect: None,
        covers_monitor_area: false,
        covers_work_area: false,
        border: None,
    }
}

/// The answers of the window system, taken together.
#[derive(Debug)]
pub struct Desktop {
    pub windows: Vec<WindowFacts>,
    /// The window that has the foreground.
    pub foreground: Option<isize>,
    /// The window under the cursor.
    pub cursor_window: Option<isize>,
    /// The unmanaged top-level windows, from the top to the bottom of the Z order, or
    /// `None` where they could not be enumerated.
    pub unmanaged: Option<Vec<isize>>,
    /// Milliseconds since the Unix epoch.
    pub now_ms: u64,
}

/// The answers of the window system, for contracts.
pub struct DesktopView {
    pub windows: Map<isize, WindowFacts>,
    pub foreground: Option<isize>,
    pub cursor_window: Option<isize>,
    pub unmanaged: Option<Seq<isize>>,
    pub now_ms: u64,
}

impl DesktopView {
    /// What is known of a handle.
    pub open spec fn at(self, hwnd: isize) -> WindowFacts {
        if self.windows.dom().contains(hwnd) {
            self.windows[hwnd]
        } else {
            no_window(hwnd)
        }
    }

    /// The answers once a window has been shown or hidden.
    pub open spec fn with_shown(self, hwnd: isize, is_shown: bool) -> DesktopView {
        if self.windows.dom().contains(hwnd) {
            DesktopView {
                windows: self.windows.insert(
                    hwnd,
                    WindowFacts { is_shown, ..self.windows[hwnd] },
                ),
                ..self
            }
        } else {
            self
        }
    }
}

/// The first entry for a handle, counted from `from`.
pub open spec fn entry_from(windows: Seq<WindowFacts>, hwnd: isize, from: int) -> Option<int>
    decreases windows.len() - from,
{
    if from < 0 || from >= windows.len() {
        None
    } else if windows[from].hwnd == hwnd {
        Some(from)
    } else {
        entry_from(windows, hwnd, from + 1)
    }
}

pub proof fn entry_from_is_an_entry(windows: Seq<WindowFacts>, hwnd: isize, from: int)
    requires
        0 <= from,
    ensures
        entry_from(windows, hwnd, from) matches Some(i) ==> from <= i < windows.len()
            && windows[i].hwnd == hwnd,
    decreases windows.len() - from,
{
    if from < windows.len() && windows[from].hwnd != hwnd {
        entry_from_is_an_entry(windows, hwnd, from + 1);
    }
}

/// Replacing an entry by one for the same handle keeps every entry in its place.
proof fn replaced_entry(
    windows: Seq<WindowFacts>,
    at: int,
    facts: WindowFacts,
    hwnd: isize,
    from: int,
)
    requires
        0 <= at < windows.len(),
        facts.hwnd == windows[at].hwnd,
        0 <= from,
    ensures
        entry_from(windows.update(at, facts), hwnd, from) == entry_from(windows, hwnd, from),
    decreases windows.len() - from,
{
    if from < windows.len() {
        replaced_entry(windows, at, facts, hwnd, from + 1);
    }
}

impl View for Desktop {
    type V = DesktopView;

    open spec fn view(&self) -> DesktopView {
        DesktopView {
            windows: Map::new(
                |hwnd: isize| entry_from(self.windows@, hwnd, 0) is Some,
                |hwnd: isize| self.windows@[entry_from(self.windows@, hwnd, 0)->0],
            ),
            foreground: self.foreground,
            cursor_window: self.cursor_window,
            unmanaged: match self.unmanaged {
                Some(hwnds) => Some(hwnds@),
                None => None,
            },
            now_ms: self.now_ms,
        }
    }
}

impl Desktop {
    fn entry(&self, hwnd: isize) -> (r: Option<usize>)
        ensures
            match r {
                Some(i) => entry_from(self.windows@, hwnd, 0) == Some(i as int) && i
                    < self.windows@.len(),
                None => entry_from(self.windows@, hwnd, 0) is None,
            },
    {
        let mut i: usize = 0;
        while i < self.windows.len()
            invariant
                i <= self.windows@.len(),
                entry_from(self.windows@, hwnd, 0) == entry_from(self.windows@, hwnd, i as int),
            decreases self.windows@.len() - i,
        {
            if self.windows[i].hwnd == hwnd {
                return Some(i);
            }
            i = i + 1;
        }
        None
    }

    /// What is known of a handle, if anything is.
    pub fn facts(&self, hwnd: isize) -> (r: Option<&WindowFacts>)
        ensures
            match r {
                Some(facts) => self@.windows.dom().contains(hwnd) && self@.at(hwnd) == *facts
                    && facts.hwnd == hwnd,
                None => !self@.windows.dom().contains(hwnd) && self@.at(hwnd) == no_window(hwnd),
            },
    {
        match self.entry(hwnd) {
            Some(i) => {
                proof {
                    entry_from_is_an_entry(self.windows@, hwnd, 0);
                }
                Some(&self.windows[i])
            },
            None => None,
        }
    }

    pub fn is_window(&self, hwnd: isize) -> (r: bool)
        ensures
            r == self@.at(hwnd).is_window,
    {
        match self.facts(hwnd) {
            Some(facts) => facts.is_window,
            None => false,
        }
    }

    pub fn process_id(&self, hwnd: isize) -> (r: u32)
        ensures
            r == self@.at(hwnd).process_id,
    {
        match self.facts(hwnd) {
            Some(facts) => facts.process_id,
            None => 0,
        }
    }

    pub fn is_shown(&self, hwnd: isize) -> (r: bool)
        ensures
            r == self@.at(hwnd).is_shown,
    {
        match self.facts(hwnd) {
            Some(facts) => facts.is_shown,
            None => false,
        }
    }

    pub fn rect(&self, hwnd: isize) -> (r: Option<Rect>)
        ensures
            r == self@.at(hwnd).rect,
    {
        match self.facts(hwnd) {
            Some(facts) => facts.rect,
            None => None,
        }
    }

    pub fn border(&self, hwnd: isize) -> (r: Option<isize>)
        ensures
            r == self@.at(hwnd).border,
    {
        match self.facts(hwnd) {
            Some(facts) => facts.border,
            None => None,
        }
    }

    /// Note that a window has been shown or hidden.
    pub fn mark_shown(&mut self, hwnd: isize, is_shown: bool)
        ensures
            final(self)@ == old(self)@.with_shown(hwnd, is_shown),
    {
        let ghost before = *self;
        match self.entry(hwnd) {
            Some(i) => {
                self.windows[i].is_shown = is_shown;
                proof {
                    let facts = self.windows@[i as int];
                    assert(self.windows@ =~= before.windows@.update(i as int, facts));
                    assert forall|other: isize| #[trigger]
                        entry_from(self.windows@, other, 0) == entry_from(
                            before.windows@,
                            other,
                            0,
                        ) by {
                        replaced_entry(before.windows@, i as int, facts, other, 0);
                    }
                    assert forall|other: isize|
                        entry_from(before.windows@, other, 0) is Some implies {
                        let at = (#[trigger] entry_from(before.windows@, other, 0))->0;
                        0 <= at < before.windows@.len() && before.windows@[at].hwnd == other
                    } by {
                        entry_from_is_an_entry(before.windows@, other, 0);
                    }
                    assert(self@.windows =~= before@.with_shown(hwnd, is_shown).windows);
                }
            },
            None => {},
        }
    }
}

} // verus!
