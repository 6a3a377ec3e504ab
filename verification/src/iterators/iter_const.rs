use vstd::prelude::*;
use crate::text::{bounds_text, debug_renders, debug_text, join_bounds, join_debug, render};
use super::laws::{back_items, front_items, window_after};

verus! {

/// Similar to `core::slice::Iter`, but with a capacity `N`: walks the window
/// `start..end` of a borrowed run of at most `N` items, from either end.
pub struct StaticVecIterConst<'a, T: 'a, const N: usize> {
    data: &'a [T],
    start: usize,
    end: usize,
}

impl<'a, T: 'a, const N: usize> StaticVecIterConst<'a, T, N> {
    #[verifier::type_invariant]
    spec fn well_formed(self) -> bool {
        &&& self.start <= self.end
        &&& self.end <= self.data@.len()
        &&& self.data@.len() <= N
    }

    /// The items that the iterator has not yet handed out, front first.
    pub closed spec fn view(&self) -> Seq<T> {
        self.data@.subrange(self.start as int, self.end as int)
    }

    /// An iterator over all the items of `data`.
    pub fn new(data: &'a [T]) -> (it: Self)
        requires
            data@.len() <= N,
        ensures
            it@ == data@,
    {
        StaticVecIterConst { data, start: 0, end: data.len() }
    }

    /// The items between the iterator's `start` and `end`.
    pub fn as_slice(&self) -> (s: &'a [T])
        ensures
            s@ == self@,
    {
        proof { use_type_invariant(self); }
        let data: &'a [T] = self.data;
        &data[self.start..self.end]
    }

    /// Hands out the front item, or `None` once the window is empty.
    pub fn next(&mut self) -> (item: Option<&'a T>)
        ensures
            old(self)@.len() == 0 ==> item is None && final(self)@ == old(self)@,
            old(self)@.len() > 0 ==> item == Some(&old(self)@[0]) && final(self)@ == old(self)@.drop_first(),
    {
        proof { use_type_invariant(&*self); }
        if self.start == self.end {
            None
        } else {
            let data: &'a [T] = self.data;
            let item = &data[self.start];
            self.start = self.start + 1;
            Some(item)
        }
    }
    /// Hands out the back item, or `None` once the window is empty.
    pub fn next_back(&mut self) -> (item: Option<&'a T>)
        ensures
            old(self)@.len() == 0 ==> item is None && final(self)@ == old(self)@,
            old(self)@.len() > 0 ==> item == Some(&old(self)@.last()) && final(self)@ == old(self)@.drop_last(),
    {
        proof { use_type_invariant(&*self); }
        if self.start == self.end {
            None
        } else {
            let data: &'a [T] = self.data;
            self.end = self.end - 1;
            Some(&data[self.end])
        }
    }

    /// The number of items left, as a lower and an upper bound: both exact.
    pub fn size_hint(&self) -> (hint: (usize, Option<usize>))
        ensures
            hint == (self@.len() as usize, Some(self@.len() as usize)),
    {
        let len = self.len();
        (len, Some(len))
    }

    /// The number of items left.
    pub fn len(&self) -> (n: usize)
        ensures
            n == self@.len(),
            n <= N,
    {
        proof { use_type_invariant(self); }
        self.end - self.start
    }

    /// Whether no item is left.
    pub fn is_empty(&self) -> (b: bool)
        ensures
            b == (self@.len() == 0),
    {
        self.len() == 0
    }

    /// Makes the calls `steps` in order, `next` where a step is `true` and
    /// `next_back` where it is `false`. Returns the items that the calls of
    /// `next` handed out and those that the calls of `next_back` handed out,
    /// each in the order of the calls.
    pub fn run_calls(&mut self, steps: &[bool]) -> (out: (Vec<&'a T>, Vec<&'a T>))
        ensures
            final(self)@ == window_after(old(self)@, steps@),
            out.0@.len() == front_items(old(self)@, steps@).len(),
            forall|k: int| 0 <= k < out.0@.len() ==> *out.0@[k] == front_items(old(self)@, steps@)[k],
            out.1@.len() == back_items(old(self)@, steps@).len(),
            forall|k: int| 0 <= k < out.1@.len() ==> *out.1@[k] == back_items(old(self)@, steps@)[k],
    {
        let mut front: Vec<&'a T> = Vec::new();
        let mut back: Vec<&'a T> = Vec::new();
        let mut i: usize = 0;
        while i < steps.len()
            invariant
                i <= steps@.len(),
                self@ == window_after(old(self)@, steps@.take(i as int)),
                front@.len() == front_items(old(self)@, steps@.take(i as int)).len(),
                forall|k: int| 0 <= k < front@.len() ==> *front@[k] == front_items(old(self)@, steps@.take(i as int))[k],
                back@.len() == back_items(old(self)@, steps@.take(i as int)).len(),
                forall|k: int| 0 <= k < back@.len() ==> *back@[k] == back_items(old(self)@, steps@.take(i as int))[k],
            decreases steps.len() - i,
        {
            if steps[i] {
                if let Some(x) = self.next() {
                    front.push(x);
                }
            } else {
                if let Some(x) = self.next_back() {
                    back.push(x);
                }
            }
            proof {
                assert(steps@.take(i + 1).drop_last() =~= steps@.take(i as int));
            }
            i = i + 1;
        }
        proof {
            assert(steps@.take(steps@.len() as int) =~= steps@);
        }
        (front, back)
    }

    /// The front and the back item of the window: the two items that
    /// `bounds_to_string` renders. The window must not be empty.
    pub fn end_items(&self) -> (ends: (&'a T, &'a T))
        requires
            self@.len() > 0,
        ensures
            *ends.0 == self@[0],
            *ends.1 == self@.last(),
    {
        let items = self.as_slice();
        (&items[0], &items[items.len() - 1])
    }

    /// The `Debug` texts of the front and the back item, on two labelled
    /// lines. The window must not be empty.
    pub fn bounds_to_string(&self) -> (s: String)
        where T: core::fmt::Debug
        requires
            self@.len() > 0,
        ensures
            exists|front: Seq<char>, back: Seq<char>|
                s@ == #[trigger] bounds_text(front, back)
                && debug_renders(&self@[0], front)
                && debug_renders(&self@.last(), back),
    {
        let (front, back) = self.end_items();
        join_bounds(render(front), render(back))
    }

    /// The rendering `StaticVecIterConst([..])` of the remaining items.
    pub fn debug_string(&self) -> (s: String)
        where T: core::fmt::Debug
        ensures
            exists|items: Seq<char>, shown: &[T]|
                s@ == #[trigger] debug_text("StaticVecIterConst"@, items)
                && shown@ == self@
                && #[trigger] debug_renders(shown, items),
    {
        join_debug("StaticVecIterConst", render(self.as_slice()))
    }
}

impl<'a, T: 'a, const N: usize> Clone for StaticVecIterConst<'a, T, N> {
    /// A second iterator over the same items, at the same position.
    fn clone(&self) -> (it: Self)
        ensures
            it@ == self@,
    {
        proof { use_type_invariant(self); }
        StaticVecIterConst { data: self.data, start: self.start, end: self.end }
    }
}

} // verus!
