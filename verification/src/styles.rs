//! Window styles as bit sets.

use vstd::prelude::*;

verus! {

/// `WS_CAPTION`: the window has a title bar.
pub const CAPTION: u32 = 0x00C0_0000;

/// `WS_THICKFRAME`: the window has a sizing border.
pub const THICKFRAME: u32 = 0x0004_0000;

/// `WS_EX_DLGMODALFRAME`: the window has a double border.
pub const DLGMODALFRAME: u32 = 0x0000_0001;

/// `WS_EX_TOPMOST`: the window stays above all windows without this style.
pub const TOPMOST: u32 = 0x0000_0008;

/// `WS_EX_TOOLWINDOW`: the window is a floating toolbar.
pub const TOOLWINDOW: u32 = 0x0000_0080;

/// `WS_EX_WINDOWEDGE`: the window has a raised edge.
pub const WINDOWEDGE: u32 = 0x0000_0100;

/// `WS_EX_LAYERED`: the window is composed with an alpha value.
pub const LAYERED: u32 = 0x0008_0000;

/// All styles that have a name.
pub const WINDOW_STYLES: u32 = 0xFFFF_0000;

/// All extended styles that have a name.
pub const EXTENDED_WINDOW_STYLES: u32 = 0x0A7F_77FD;

/// Whether all bits of `flag` are set in `bits`.
pub open spec fn has_bits(bits: u32, flag: u32) -> bool {
    bits & flag == flag
}

/// The style bits of a window.
#[derive(Clone, Copy, Debug, PartialEq, Eq, Structural)]
pub struct WindowStyle {
    pub bits: u32,
}

impl WindowStyle {
    /// The styles among some bits. A bit that stands for none is left out.
    pub fn from_bits_truncate(bits: u32) -> (r: Self)
        ensures
            r.bits == bits & WINDOW_STYLES,
    {
        WindowStyle { bits: bits & WINDOW_STYLES }
    }

    pub fn contains(&self, flag: u32) -> (r: bool)
        ensures
            r == has_bits(self.bits, flag),
    {
        self.bits & flag == flag
    }

    pub fn insert(&mut self, flag: u32)
        ensures
            final(self).bits == old(self).bits | flag,
    {
        self.bits = self.bits | flag;
    }

    pub fn remove(&mut self, flag: u32)
        ensures
            final(self).bits == old(self).bits & !flag,
    {
        self.bits = self.bits & !flag;
    }
}

/// The extended style bits of a window.
#[derive(Clone, Copy, Debug, PartialEq, Eq, Structural)]
pub struct ExtendedWindowStyle {
    pub bits: u32,
}

impl ExtendedWindowStyle {
    /// The extended styles among some bits. A bit that stands for none is left out.
    pub fn from_bits_truncate(bits: u32) -> (r: Self)
        ensures
            r.bits == bits & EXTENDED_WINDOW_STYLES,
    {
        ExtendedWindowStyle { bits: bits & EXTENDED_WINDOW_STYLES }
    }

    pub fn contains(&self, flag: u32) -> (r: bool)
        ensures
            r == has_bits(self.bits, flag),
    {
        self.bits & flag == flag
    }

    pub fn insert(&mut self, flag: u32)
        ensures
            final(self).bits == old(self).bits | flag,
    {
        self.bits = self.bits | flag;
    }

    pub fn remove(&mut self, flag: u32)
        ensures
            final(self).bits == old(self).bits & !flag,
    {
        self.bits = self.bits & !flag;
    }
}

/// What is inserted into a style is in it, what is removed is not, and no other bit
/// changes.
pub proof fn inserting_and_removing_bits(bits: u32, flag: u32, other: u32)
    ensures
        has_bits(bits | flag, flag),
        (bits & !flag) & flag == 0,
        other & flag == 0 ==> (bits | flag) & other == bits & other,
        other & flag == 0 ==> (bits & !flag) & other == bits & other,
{
    assert((bits | flag) & flag == flag) by (bit_vector);
    assert((bits & !flag) & flag == 0) by (bit_vector);
    if other & flag == 0 {
        assert((bits | flag) & other == bits & other) by (bit_vector)
            requires
                other & flag == 0,
        ;
        assert((bits & !flag) & other == bits & other) by (bit_vector)
            requires
                other & flag == 0,
        ;
    }
}

} // verus!
