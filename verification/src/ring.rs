//! A list with a focused position.

use vstd::prelude::*;

verus! {

/// Elements in order, one position of which has the focus. The position may lie behind
/// the last element, where nothing is focused.
#[derive(Debug)]
pub struct Ring<T> {
    pub elements: Vec<T>,
    pub focused: usize,
}

/// A list with a focused position, for contracts.
#[verifier::ext_equal]
pub struct RingView<T> {
    pub elements: Seq<T>,
    pub focused: usize,
}

impl<T> RingView<T> {
    /// A list without elements.
    pub open spec fn empty() -> RingView<T> {
        RingView { elements: Seq::empty(), focused: 0 }
    }

    /// The focused element, where there is one.
    pub open spec fn focused_element(self) -> Option<T> {
        if self.focused < self.elements.len() {
            Some(self.elements[self.focused as int])
        } else {
            None
        }
    }

    /// The list with the focus at another position.
    pub open spec fn focusing(self, focused: int) -> RingView<T> {
        RingView { focused: focused as usize, ..self }
    }

    /// The list with other elements, and the focus at the same position.
    pub open spec fn with(self, elements: Seq<T>) -> RingView<T> {
        RingView { elements, ..self }
    }

    /// The list with one element replaced.
    pub open spec fn updated(self, idx: int, element: T) -> RingView<T> {
        RingView { elements: self.elements.update(idx, element), ..self }
    }

    /// The list with an element added at a position, which gets the focus.
    pub open spec fn inserted(self, idx: int, element: T) -> RingView<T> {
        RingView { elements: self.elements.insert(idx, element), focused: idx as usize }
    }

    /// The list without the element at a position. The focus moves to the position before
    /// the one that it had.
    pub open spec fn removed(self, idx: int) -> RingView<T> {
        RingView { elements: self.elements.remove(idx), focused: before(self.focused) }
    }

    /// A position, or the one behind the last element where there are fewer.
    pub open spec fn clamped(self, idx: int) -> int {
        if idx <= self.elements.len() {
            idx
        } else {
            self.elements.len() as int
        }
    }
}

/// The position before a position, where there is one.
pub open spec fn before(idx: usize) -> usize {
    if idx == 0 {
        0
    } else {
        (idx - 1) as usize
    }
}

impl<T: View> View for Ring<T> {
    type V = RingView<T::V>;

    open spec fn view(&self) -> RingView<T::V> {
        RingView {
            elements: self.elements@.map_values(|element: T| element@),
            focused: self.focused,
        }
    }
}

impl<T: View> Ring<T> {
    pub fn new() -> (r: Self)
        ensures
            r@ == RingView::<T::V>::empty(),
            r.elements@ == Seq::<T>::empty(),
    {
        Ring { elements: Vec::new(), focused: 0 }
    }

    pub fn elements(&self) -> (r: &Vec<T>)
        ensures
            *r == self.elements,
    {
        &self.elements
    }

    pub fn elements_mut(&mut self) -> (r: &mut Vec<T>)
        ensures
            *r == old(self).elements,
            final(self).elements == *final(r),
            final(self).focused == old(self).focused,
    {
        &mut self.elements
    }

    pub fn focus(&mut self, idx: usize)
        ensures
            final(self).elements == old(self).elements,
            final(self).focused == idx,
            final(self)@ == old(self)@.focusing(idx as int),
    {
        self.focused = idx;
    }

    pub fn focused(&self) -> (r: Option<&T>)
        ensures
            match r {
                Some(element) => self.focused < self.elements@.len() && *element
                    == self.elements@[self.focused as int] && self@.focused_element() == Some(
                    element@,
                ),
                None => self@.focused_element() is None,
            },
    {
        if self.focused < self.elements.len() {
            Some(&self.elements[self.focused])
        } else {
            None
        }
    }

    pub fn focused_idx(&self) -> (r: usize)
        ensures
            r == self@.focused,
    {
        self.focused
    }

    pub fn focused_mut(&mut self) -> (r: Option<&mut T>)
        ensures
            match r {
                Some(element) => old(self).focused < old(self).elements@.len() && *element
                    == old(self).elements@[old(self).focused as int] && final(self)@ == old(
                    self)@.updated(old(self).focused as int, final(element)@),
                None => old(self)@.focused_element() is None && final(self)@ == old(self)@,
            },
    {
        if self.focused < self.elements.len() {
            let ghost idx = self.focused as int;
            let element = &mut self.elements[self.focused];
            Some(element)
        } else {
            None
        }
    }

    pub fn get_mut(&mut self, idx: usize) -> (r: Option<&mut T>)
        ensures
            match r {
                Some(element) => idx < old(self).elements@.len() && *element == old(
                    self).elements@[idx as int] && final(self)@ == old(self)@.updated(
                    idx as int,
                    final(element)@,
                ),
                None => idx >= old(self).elements@.len() && final(self)@ == old(self)@,
            },
    {
        if idx < self.elements.len() {
            Some(&mut self.elements[idx])
        } else {
            None
        }
    }

    /// Add an element at a position, and focus it.
    pub fn insert(&mut self, idx: usize, element: T)
        requires
            idx <= old(self).elements@.len(),
        ensures
            final(self)@ == old(self)@.inserted(idx as int, element@),
            final(self).elements@ == old(self).elements@.insert(idx as int, element),
    {
        self.elements.insert(idx, element);
        self.focused = idx;
        assert(self@.elements =~= old(self)@.elements.insert(idx as int, element@));
    }

    /// Take the element at a position out. The focus goes to the position before the one
    /// that it had.
    pub fn remove(&mut self, idx: usize) -> (r: T)
        requires
            idx < old(self).elements@.len(),
        ensures
            r == old(self).elements@[idx as int],
            r@ == old(self)@.elements[idx as int],
            final(self)@ == old(self)@.removed(idx as int),
            final(self).elements@ == old(self).elements@.remove(idx as int),
    {
        let element = self.elements.remove(idx);
        if self.focused > 0 {
            self.focused = self.focused - 1;
        }
        assert(self@.elements =~= old(self)@.elements.remove(idx as int));
        element
    }
}

} // verus!
