use vstd::prelude::*;
use crate::text::{bounds_text, debug_renders, debug_text, join_bounds, join_debug, render};
use super::laws::{back_items, front_items, window_after};

verus! {

/// A "consuming" iterator that reads each item out of a vector of capacity
/// `N` by value, from either end.
pub struct StaticVecIntoIter<T, const N: usize> {
    data: Vec<T>,
}

impl<T, const N: usize> StaticVecIntoIter<T, N> {
    #[verifier::type_invariant]
    spec fn well_formed(self) -> bool {
        self.data@.len() <= N
    }

    /// The items that the iterator has not yet handed out, front first.
    pub closed spec fn view(&self) -> Seq<T> {
        self.data@
    }

    /// An iterator that hands out the items of `data` by value.
    pub fn new(data: Vec<T>) -> (it: Self)
        requires
            data@.len() <= N,
        ensures
            it@ == data@,
    {
        StaticVecIntoIter { data }
    }

    /// Moves the remaining items out into `items` and leaves the iterator
    /// empty, which keeps the capacity bound while they are worked on.
    fn take_items(&mut self) -> (items: Vec<T>)
        ensures
            items@ == old(self)@,
            items@.len() <= N,
            final(self)@.len() == 0,
    {
        proof { use_type_invariant(&*self); }
        let mut items: Vec<T> = Vec::new();
        core::mem::swap(&mut self.data, &mut items);
        items
    }

    /// Gives back the items that `take_items` moved out.
    fn put_items(&mut self, items: Vec<T>)
        requires
            items@.len() <= N,
        ensures
            final(self)@ == items@,
    {
        self.data = items;
    }

    /// Hands out the front item, or `None` once no item is left.
    pub fn next(&mut self) -> (item: Option<T>)
        ensures
            old(self)@.len() == 0 ==> item is None && final(self)@ == old(self)@,
            old(self)@.len() > 0 ==> item == Some(old(self)@[0]) && final(self)@ == old(self)@.drop_first(),
    {
        let mut items = self.take_items();
        let item = if items.len() == 0 {
            None
        } else {
            Some(items.remove(0))
        };
        self.put_items(items);
        item
    }

    /// Hands out the back item, or `None` once no item is left.
    pub fn next_back(&mut self) -> (item: Option<T>)
        ensures
            old(self)@.len() == 0 ==> item is None && final(self)@ == old(self)@,
            old(self)@.len() > 0 ==> item == Some(old(self)@.last()) && final(self)@ == old(self)@.drop_last(),
    {
        let mut items = self.take_items();
        let item = items.pop();
        self.put_items(items);
        item
    }

    /// The remaining items, front first.
    pub fn as_slice(&self) -> (s: &[T])
        ensures
            s@ == self@,
    {
        self.data.as_slice()
    }

    /// The number of items left, as a lower and an upper bound: both exact.
    pub fn size_hint(&self) -> (hint: (usize, Option<usize>))
        ensures
            hint == (self@.len() as usize, Some(self@.len() as usize)),
    {
        let len = self.len();
        (len, Some(len))
    }

    /// The number of items left.
    pub fn len(&self) -> (n: usize)
        ensures
            n == self@.len(),
            n <= N,
    {
        proof { use_type_invariant(self); }
        self.data.len()
    }

    /// Whether no item is left.
    pub fn is_empty(&self) -> (b: bool)
        ensures
            b == (self@.len() == 0),
    {
        self.len() == 0
    }

    /// Makes the calls `steps` in order, `next` where a step is `true` and
    /// `next_back` where it is `false`. Returns the items that the calls of
    /// `next` handed out and those that the calls of `next_back` handed out,
    /// each in the order of the calls.
    pub fn run_calls(&mut self, steps: &[bool]) -> (out: (Vec<T>, Vec<T>))
        ensures
            final(self)@ == window_after(old(self)@, steps@),
            out.0@ == front_items(old(self)@, steps@),
            out.1@ == back_items(old(self)@, steps@),
    {
        let mut front: Vec<T> = Vec::new();
        let mut back: Vec<T> = Vec::new();
        let mut i: usize = 0;
        while i < steps.len()
            invariant
                i <= steps@.len(),
                self@ == window_after(old(self)@, steps@.take(i as int)),
                front@ == front_items(old(self)@, steps@.take(i as int)),
                back@ == back_items(old(self)@, steps@.take(i as int)),
            decreases steps.len() - i,
        {
            if steps[i] {
                if let Some(x) = self.next() {
                    front.push(x);
                }
            } else {
                if let Some(x) = self.next_back() {
                    back.push(x);
                }
            }
            proof {
                assert(steps@.take(i + 1).drop_last() =~= steps@.take(i as int));
            }
            i = i + 1;
        }
        proof {
            assert(steps@.take(steps@.len() as int) =~= steps@);
        }
        (front, back)
    }

    /// The front and the back item of the window: the two items that
    /// `bounds_to_string` renders. The window must not be empty.
    pub fn end_items(&self) -> (ends: (&T, &T))
        requires
            self@.len() > 0,
        ensures
            *ends.0 == self@[0],
            *ends.1 == self@.last(),
    {
        let items = self.as_slice();
        (&items[0], &items[items.len() - 1])
    }

    /// The `Debug` texts of the front and the back item, on two labelled
    /// lines. At least one item must be left.
    pub fn bounds_to_string(&self) -> (s: String)
        where T: core::fmt::Debug
        requires
            self@.len() > 0,
        ensures
            exists|front: Seq<char>, back: Seq<char>|
                s@ == #[trigger] bounds_text(front, back)
                && debug_renders(&self@[0], front)
                && debug_renders(&self@.last(), back),
    {
        let (front, back) = self.end_items();
        join_bounds(render(front), render(back))
    }

    /// The rendering `StaticVecIntoIter([..])` of the remaining items.
    pub fn debug_string(&self) -> (s: String)
        where T: core::fmt::Debug
        ensures
            exists|items: Seq<char>, shown: &[T]|
                s@ == #[trigger] debug_text("StaticVecIntoIter"@, items)
                && shown@ == self@
                && #[trigger] debug_renders(shown, items),
    {
        join_debug("StaticVecIntoIter", render(self.as_slice()))
    }
}

} // verus!
