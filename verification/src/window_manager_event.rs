//! What happens to windows.

use vstd::prelude::*;

use crate::window::Window;

verus! {

/// The kind of notification from which an event was made, by its number.
#[derive(Clone, Copy, Debug, PartialEq, Eq, Structural)]
pub struct WinEvent {
    pub code: u32,
}

#[derive(Clone, Copy, Debug, PartialEq, Eq, Structural)]
pub enum WindowManagerEvent {
    Destroy(WinEvent, Window),
    FocusChange(WinEvent, Window),
    Hide(WinEvent, Window),
    Cloak(WinEvent, Window),
    Minimize(WinEvent, Window),
    Show(WinEvent, Window),
    Uncloak(WinEvent, Window),
    MoveResizeStart(WinEvent, Window),
    MoveResizeEnd(WinEvent, Window),
    MouseCapture(WinEvent, Window),
    Manage(Window),
    Unmanage(Window),
    Raise(Window),
    TitleUpdate(WinEvent, Window),
    DragDrop(WinEvent, Window),
    LocationChange(WinEvent, Window),
}

impl WindowManagerEvent {
    /// The window to which it happens.
    pub open spec fn window_of(self) -> Window {
        match self {
            WindowManagerEvent::Destroy(_, window) => window,
            WindowManagerEvent::FocusChange(_, window) => window,
            WindowManagerEvent::Hide(_, window) => window,
            WindowManagerEvent::Cloak(_, window) => window,
            WindowManagerEvent::Minimize(_, window) => window,
            WindowManagerEvent::Show(_, window) => window,
            WindowManagerEvent::Uncloak(_, window) => window,
            WindowManagerEvent::MoveResizeStart(_, window) => window,
            WindowManagerEvent::MoveResizeEnd(_, window) => window,
            WindowManagerEvent::MouseCapture(_, window) => window,
            WindowManagerEvent::Manage(window) => window,
            WindowManagerEvent::Unmanage(window) => window,
            WindowManagerEvent::Raise(window) => window,
            WindowManagerEvent::TitleUpdate(_, window) => window,
            WindowManagerEvent::DragDrop(_, window) => window,
            WindowManagerEvent::LocationChange(_, window) => window,
        }
    }

    pub fn window(self) -> (r: Window)
        ensures
            r == self.window_of(),
    {
        match self {
            WindowManagerEvent::Destroy(_, window) => window,
            WindowManagerEvent::FocusChange(_, window) => window,
            WindowManagerEvent::Hide(_, window) => window,
            WindowManagerEvent::Cloak(_, window) => window,
            WindowManagerEvent::Minimize(_, window) => window,
            WindowManagerEvent::Show(_, window) => window,
            WindowManagerEvent::Uncloak(_, window) => window,
            WindowManagerEvent::MoveResizeStart(_, window) => window,
            WindowManagerEvent::MoveResizeEnd(_, window) => window,
            WindowManagerEvent::MouseCapture(_, window) => window,
            WindowManagerEvent::Manage(window) => window,
            WindowManagerEvent::Unmanage(window) => window,
            WindowManagerEvent::Raise(window) => window,
            WindowManagerEvent::TitleUpdate(_, window) => window,
            WindowManagerEvent::DragDrop(_, window) => window,
            WindowManagerEvent::LocationChange(_, window) => window,
        }
    }

    pub fn hwnd(self) -> (r: isize)
        ensures
            r == self.window_of().hwnd,
    {
        self.window().hwnd
    }
}

} // verus!
