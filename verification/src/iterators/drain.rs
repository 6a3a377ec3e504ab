use vstd::prelude::*;
use core::marker::PhantomData;
use super::into_iter::StaticVecIntoIter;
use crate::text::{bounds_text, debug_renders, debug_text, join_debug, render};
use super::laws::{back_items, front_items, window_after};

verus! {

/// A "draining" iterator, analogous to `vec::Drain`: hands out by value the
/// items of a range that was taken out of a vector of capacity `N`, which
/// stays borrowed while the iterator lives.
pub struct StaticVecDrain<'a, T: 'a, const N: usize> {
    iter: StaticVecIntoIter<T, N>,
    marker: PhantomData<&'a mut Vec<T>>,
}

impl<'a, T: 'a, const N: usize> StaticVecDrain<'a, T, N> {
    /// The items of the range that the iterator has not yet handed out,
    /// front first.
    pub closed spec fn view(&self) -> Seq<T> {
        self.iter@
    }

    /// Takes the items `start..end` out of `vec` and returns an iterator over
    /// them. The items after the range close the gap at once, so that `vec`
    /// holds its items before `start` followed by those from `end` on, which
    /// is what it holds once the iterator has been dropped.
    pub fn new(vec: &'a mut Vec<T>, start: usize, end: usize) -> (it: Self)
        requires
            start <= end <= old(vec)@.len(),
            old(vec)@.len() <= N,
        ensures
            it@ == old(vec)@.subrange(start as int, end as int),
            final(vec)@ == old(vec)@.subrange(0, start as int) + old(vec)@.subrange(
                end as int,
                old(vec)@.len() as int,
            ),
    {
        let mut tail = vec.split_off(end);
        let items = vec.split_off(start);
        vec.append(&mut tail);
        StaticVecDrain { iter: StaticVecIntoIter::new(items), marker: PhantomData }
    }

    /// Hands out the front item of the range, or `None` once no item is left.
    pub fn next(&mut self) -> (item: Option<T>)
        ensures
            old(self)@.len() == 0 ==> item is None && final(self)@ == old(self)@,
            old(self)@.len() > 0 ==> item == Some(old(self)@[0]) && final(self)@ == old(self)@.drop_first(),
    {
        self.iter.next()
    }

    /// Hands out the back item of the range, or `None` once no item is left.
    pub fn next_back(&mut self) -> (item: Option<T>)
        ensures
            old(self)@.len() == 0 ==> item is None && final(self)@ == old(self)@,
            old(self)@.len() > 0 ==> item == Some(old(self)@.last()) && final(self)@ == old(self)@.drop_last(),
    {
        self.iter.next_back()
    }

    /// The items of the range that are left, front first.
    pub fn as_slice(&self) -> (s: &[T])
        ensures
            s@ == self@,
    {
        self.iter.as_slice()
    }

    /// The number of items left, as a lower and an upper bound: both exact.
    pub fn size_hint(&self) -> (hint: (usize, Option<usize>))
        ensures
            hint == (self@.len() as usize, Some(self@.len() as usize)),
    {
        self.iter.size_hint()
    }

    /// The number of items left.
    pub fn len(&self) -> (n: usize)
        ensures
            n == self@.len(),
            n <= N,
    {
        self.iter.len()
    }

    /// Whether no item is left.
    pub fn is_empty(&self) -> (b: bool)
        ensures
            b == (self@.len() == 0),
    {
        self.iter.is_empty()
    }

    /// Makes the calls `steps` in order, `next` where a step is `true` and
    /// `next_back` where it is `false`. Returns the items of the range that
    /// the calls of `next` handed out and those that the calls of `next_back`
    /// handed out, each in the order of the calls.
    pub fn run_calls(&mut self, steps: &[bool]) -> (out: (Vec<T>, Vec<T>))
        ensures
            final(self)@ == window_after(old(self)@, steps@),
            out.0@ == front_items(old(self)@, steps@),
            out.1@ == back_items(old(self)@, steps@),
    {
        self.iter.run_calls(steps)
    }

    /// The front and the back item of the window: the two items that
    /// `bounds_to_string` renders. The window must not be empty.
    pub fn end_items(&self) -> (ends: (&T, &T))
        requires
            self@.len() > 0,
        ensures
            *ends.0 == self@[0],
            *ends.1 == self@.last(),
    {
        self.iter.end_items()
    }

    /// The `Debug` texts of the front and the back item of what is left of
    /// the range, on two labelled lines. At least one item must be left.
    pub fn bounds_to_string(&self) -> (s: String)
        where T: core::fmt::Debug
        requires
            self@.len() > 0,
        ensures
            exists|front: Seq<char>, back: Seq<char>|
                s@ == #[trigger] bounds_text(front, back)
                && debug_renders(&self@[0], front)
                && debug_renders(&self@.last(), back),
    {
        self.iter.bounds_to_string()
    }

    /// The rendering `StaticVecDrain([..])` of the items left.
    pub fn debug_string(&self) -> (s: String)
        where T: core::fmt::Debug
        ensures
            exists|items: Seq<char>, shown: &[T]|
                s@ == #[trigger] debug_text("StaticVecDrain"@, items)
                && shown@ == self@
                && #[trigger] debug_renders(shown, items),
    {
        join_debug("StaticVecDrain", render(self.as_slice()))
    }
}

} // verus!
