//! Rectangles, directions and layouts.

use vstd::prelude::*;

verus! {

/// A rectangle. `right` and `bottom` are the width and the height, except where a
/// function says that it works on absolute screen coordinates.
#[derive(Clone, Copy, Debug, PartialEq, Eq, Structural)]
pub struct Rect {
    pub left: i32,
    pub top: i32,
    pub right: i32,
    pub bottom: i32,
}

impl Default for Rect {
    fn default() -> (r: Self)
        ensures
            r == zero_rect(),
    {
        Rect { left: 0, top: 0, right: 0, bottom: 0 }
    }
}

/// The rectangle whose four numbers are zero.
pub open spec fn zero_rect() -> Rect {
    Rect { left: 0, top: 0, right: 0, bottom: 0 }
}

impl Rect {
    /// Whether two rectangles have the same width and height.
    pub fn is_same_size_as(&self, other: &Rect) -> (r: bool)
        ensures
            r == (self.right == other.right && self.bottom == other.bottom),
    {
        self.right == other.right && self.bottom == other.bottom
    }
}

#[derive(Clone, Copy, Debug, PartialEq, Eq, Structural)]
pub enum OperationDirection {
    Left,
    Right,
    Up,
    Down,
}

#[derive(Clone, Copy, Debug, PartialEq, Eq, Structural)]
pub enum CycleDirection {
    Previous,
    Next,
}

impl CycleDirection {
    /// The index that follows `idx` in this direction among `len` elements, wrapping
    /// at both ends.
    pub open spec fn next_of(self, idx: int, len: int) -> int {
        match self {
            CycleDirection::Previous => if idx == 0 {
                len - 1
            } else {
                idx - 1
            },
            CycleDirection::Next => if idx == len - 1 {
                0
            } else {
                idx + 1
            },
        }
    }

    pub fn next_idx(&self, idx: usize, len: usize) -> (r: usize)
        requires
            0 < len,
            idx < usize::MAX,
        ensures
            r == self.next_of(idx as int, len as int),
            idx < len ==> r < len,
    {
        match self {
            CycleDirection::Previous => if idx == 0 {
                len - 1
            } else {
                idx - 1
            },
            CycleDirection::Next => if idx == len - 1 {
                0
            } else {
                idx + 1
            },
        }
    }
}

/// Going one way and then the other way leads back to the start.
pub proof fn cycling_back_and_forth(idx: int, len: int)
    requires
        0 <= idx < len,
    ensures
        CycleDirection::Previous.next_of(CycleDirection::Next.next_of(idx, len), len) == idx,
        CycleDirection::Next.next_of(CycleDirection::Previous.next_of(idx, len), len) == idx,
{
}

#[derive(Clone, Copy, Debug, PartialEq, Eq, Structural)]
pub enum Sizing {
    Increase,
    Decrease,
}

#[derive(Clone, Copy, Debug, PartialEq, Eq, Structural)]
pub enum Axis {
    Horizontal,
    Vertical,
    HorizontalAndVertical,
}

#[derive(Clone, Copy, Debug, PartialEq, Eq, Structural)]
pub enum DefaultLayout {
    BSP,
    Columns,
    Rows,
    VerticalStack,
    HorizontalStack,
    UltrawideVerticalStack,
    Grid,
    RightMainVerticalStack,
    Scrolling,
}

impl DefaultLayout {
    /// The index at which the leftmost container of the layout sits.
    pub open spec fn leftmost(self, len: int) -> int {
        match self {
            DefaultLayout::UltrawideVerticalStack | DefaultLayout::RightMainVerticalStack => if len
                > 1 {
                1
            } else {
                0
            },
            _ => 0,
        }
    }

    pub fn leftmost_index(&self, len: usize) -> (r: usize)
        ensures
            r == self.leftmost(len as int),
            r <= len,
    {
        match self {
            DefaultLayout::UltrawideVerticalStack | DefaultLayout::RightMainVerticalStack => if len
                > 1 {
                1
            } else {
                0
            },
            _ => 0,
        }
    }
}

/// A user-defined layout, kept by the layout engine under a handle.
#[derive(Clone, Copy, Debug, PartialEq, Eq, Structural)]
pub struct CustomLayout {
    pub handle: u64,
}

#[derive(Clone, Copy, Debug, PartialEq, Eq, Structural)]
pub enum Layout {
    Default(DefaultLayout),
    Custom(CustomLayout),
}

} // verus!
