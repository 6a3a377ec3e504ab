use vstd::prelude::*;
use crate::text::{bounds_text, debug_renders, debug_text, join_bounds, join_debug, render};
use super::laws::{back_items, front_items, window_after};

verus! {

/// Similar to `core::slice::IterMut`, but with a capacity `N`: hands out
/// mutable references to the items of a borrowed run of at most `N` items,
/// from either end.
pub struct StaticVecIterMut<'a, T: 'a, const N: usize> {
    rest: Option<&'a mut [T]>,
}

impl<'a, T: 'a, const N: usize> StaticVecIterMut<'a, T, N> {
    /// The iterator holds its borrowed items, and no more than `N` of them.
    pub closed spec fn wf(&self) -> bool {
        &&& self.rest is Some
        &&& self.rest->0@.len() <= N
    }

    /// The borrowed items that the iterator has not yet handed out.
    pub closed spec fn rest(&self) -> &'a mut [T] {
        self.rest->0
    }

    /// The current values of the items that the iterator has not yet handed
    /// out, front first.
    pub closed spec fn view(&self) -> Seq<T> {
        self.rest->0@
    }

    /// An iterator over all the items of `data`. What the items hold when
    /// `data` is given back is what the iterator's remaining items hold when it
    /// is dropped, after the writes through the references it handed out.
    pub fn new(data: &'a mut [T]) -> (it: Self)
        requires
            old(data)@.len() <= N,
        ensures
            it.wf(),
            it@ == old(data)@,
            final(data)@ == final(it.rest())@,
    {
        StaticVecIterMut { rest: Some(data) }
    }

    /// Once an iterator is no longer used, its remaining items keep the
    /// values they hold.
    pub proof fn lemma_resolved(&self)
        requires
            self.wf(),
            has_resolved(*self),
        ensures
            final(self.rest())@ == self@,
    {
    }

    /// Hands out the front item, or `None` once the window is empty. The
    /// borrowed run ends up as the value written through the handed-out
    /// reference followed by the iterator's remaining items.
    pub fn next(&mut self) -> (item: Option<&'a mut T>)
        requires
            old(self).wf(),
        ensures
            final(self).wf(),
            old(self)@.len() == 0 ==> item is None && final(self)@ == old(self)@
                && final(old(self).rest())@ == final(final(self).rest())@,
            old(self)@.len() > 0 ==> item is Some && *item->0 == old(self)@[0]
                && final(self)@ == old(self)@.drop_first()
                && final(old(self).rest())@ == seq![*final(item->0)] + final(final(self).rest())@,
    {
        let s = self.rest.take().unwrap();
        if s.len() == 0 {
            self.rest = Some(s);
            None
        } else {
            let (head, tail) = s.split_at_mut(1);
            self.rest = Some(tail);
            head.first_mut()
        }
    }
    /// Hands out the back item, or `None` once the window is empty. The
    /// borrowed run ends up as the iterator's remaining items followed by the
    /// value written through the handed-out reference.
    pub fn next_back(&mut self) -> (item: Option<&'a mut T>)
        requires
            old(self).wf(),
        ensures
            final(self).wf(),
            old(self)@.len() == 0 ==> item is None && final(self)@ == old(self)@
                && final(old(self).rest())@ == final(final(self).rest())@,
            old(self)@.len() > 0 ==> item is Some && *item->0 == old(self)@.last()
                && final(self)@ == old(self)@.drop_last()
                && final(old(self).rest())@ == final(final(self).rest())@ + seq![*final(item->0)],
    {
        let s = self.rest.take().unwrap();
        let len = s.len();
        if len == 0 {
            self.rest = Some(s);
            None
        } else {
            let (front, back) = s.split_at_mut(len - 1);
            self.rest = Some(front);
            back.first_mut()
        }
    }

    /// Makes the calls `steps` in order, `next` where a step is `true` and
    /// `next_back` where it is `false`. Returns the references that the calls
    /// of `next` handed out and those that the calls of `next_back` handed
    /// out, each in the order of the calls. The borrowed run ends up as the
    /// values written through the first, then the iterator's remaining items,
    /// then the values written through the second, back first.
    pub fn run_calls(&mut self, steps: &[bool]) -> (out: (Vec<&'a mut T>, Vec<&'a mut T>))
        requires
            old(self).wf(),
        ensures
            final(self).wf(),
            final(self)@ == window_after(old(self)@, steps@),
            out.0@.len() == front_items(old(self)@, steps@).len(),
            forall|k: int| 0 <= k < out.0@.len() ==> *out.0@[k] == front_items(old(self)@, steps@)[k],
            out.1@.len() == back_items(old(self)@, steps@).len(),
            forall|k: int| 0 <= k < out.1@.len() ==> *out.1@[k] == back_items(old(self)@, steps@)[k],
            final(old(self).rest())@.len() == out.0@.len() + final(final(self).rest())@.len() + out.1@.len(),
            forall|k: int| 0 <= k < out.0@.len() ==> final(old(self).rest())@[k] == *final(out.0@[k]),
            final(old(self).rest())@.subrange(
                out.0@.len() as int,
                (out.0@.len() + final(final(self).rest())@.len()) as int,
            ) == final(final(self).rest())@,
            forall|k: int| 0 <= k < out.1@.len()
                ==> final(old(self).rest())@[final(old(self).rest())@.len() - 1 - k] == *final(out.1@[k]),
    {
        let mut front: Vec<&'a mut T> = Vec::new();
        let mut back: Vec<&'a mut T> = Vec::new();
        let mut i: usize = 0;
        while i < steps.len()
            invariant
                i <= steps@.len(),
                self.wf(),
                self@ == window_after(old(self)@, steps@.take(i as int)),
                front@.len() == front_items(old(self)@, steps@.take(i as int)).len(),
                forall|k: int| 0 <= k < front@.len() ==> *front@[k] == front_items(old(self)@, steps@.take(i as int))[k],
                back@.len() == back_items(old(self)@, steps@.take(i as int)).len(),
                forall|k: int| 0 <= k < back@.len() ==> *back@[k] == back_items(old(self)@, steps@.take(i as int))[k],
                final(old(self).rest())@.len() == front@.len() + final(self.rest())@.len() + back@.len(),
                forall|k: int| 0 <= k < front@.len() ==> final(old(self).rest())@[k] == *final(front@[k]),
                final(old(self).rest())@.subrange(
                    front@.len() as int,
                    (front@.len() + final(self.rest())@.len()) as int,
                ) == final(self.rest())@,
                forall|k: int| 0 <= k < back@.len()
                    ==> final(old(self).rest())@[final(old(self).rest())@.len() - 1 - k] == *final(back@[k]),
            decreases steps.len() - i,
        {
            let ghost before = *self;
            if steps[i] {
                if let Some(x) = self.next() {
                    front.push(x);
                    proof {
                        let f = front@.len() - 1;
                        assert(final(before.rest())@ =~= seq![*final(front@[f])] + final(self.rest())@);
                        assert(final(old(self).rest())@[f] == final(before.rest())@[0]);
                        assert(final(before.rest())@.len() == 1 + final(self.rest())@.len());
                        assert(f + 1 + final(self.rest())@.len() <= final(old(self).rest())@.len());
                        assert forall|k: int| 0 <= k < final(self.rest())@.len() implies
                            #[trigger] final(old(self).rest())@.subrange(f + 1, (f + 1 + final(self.rest())@.len()) as int)[k]
                                == final(self.rest())@[k] by {
                            assert(final(old(self).rest())@.subrange(f, (f + final(before.rest())@.len()) as int)[k + 1]
                                == final(before.rest())@[k + 1]);
                        }
                        assert(final(old(self).rest())@.subrange(f + 1, (f + 1 + final(self.rest())@.len()) as int)
                            =~= final(self.rest())@);
                    }
                }
            } else {
                if let Some(x) = self.next_back() {
                    back.push(x);
                    proof {
                        let f = front@.len() as int;
                        let n = final(old(self).rest())@.len();
                        assert(final(before.rest())@ =~= final(self.rest())@ + seq![*final(back@[back@.len() - 1])]);
                        assert(final(old(self).rest())@[n - 1 - (back@.len() - 1)]
                            == final(before.rest())@[final(before.rest())@.len() - 1]);
                        assert(final(old(self).rest())@.subrange(f, (f + final(self.rest())@.len()) as int)
                            =~= final(self.rest())@);
                    }
                }
            }
            proof {
                assert(steps@.take(i + 1).drop_last() =~= steps@.take(i as int));
            }
            i = i + 1;
        }
        proof {
            assert(steps@.take(steps@.len() as int) =~= steps@);
        }
        (front, back)
    }

    /// The current values of the remaining items, as a shared slice that
    /// lives as long as this borrow of the iterator.
    pub fn as_slice(&self) -> (s: &[T])
        requires
            self.wf(),
        ensures
            s@ == self@,
    {
        match &self.rest {
            Some(rest) => &**rest,
            None => vstd::pervasive::unreached(),
        }
    }

    /// The number of items left, as a lower and an upper bound: both exact.
    pub fn size_hint(&self) -> (hint: (usize, Option<usize>))
        requires
            self.wf(),
        ensures
            hint == (self@.len() as usize, Some(self@.len() as usize)),
    {
        let len = self.len();
        (len, Some(len))
    }

    /// The number of items left.
    pub fn len(&self) -> (n: usize)
        requires
            self.wf(),
        ensures
            n == self@.len(),
            n <= N,
    {
        self.as_slice().len()
    }

    /// Whether no item is left.
    pub fn is_empty(&self) -> (b: bool)
        requires
            self.wf(),
        ensures
            b == (self@.len() == 0),
    {
        self.len() == 0
    }

    /// The front and the back item of the window: the two items that
    /// `bounds_to_string` renders. The window must not be empty.
    pub fn end_items(&self) -> (ends: (&T, &T))
        requires
            self.wf(),
            self@.len() > 0,
        ensures
            *ends.0 == self@[0],
            *ends.1 == self@.last(),
    {
        let items = self.as_slice();
        (&items[0], &items[items.len() - 1])
    }

    /// The `Debug` texts of the front and the back item, on two labelled
    /// lines. The window must not be empty.
    pub fn bounds_to_string(&self) -> (s: String)
        where T: core::fmt::Debug
        requires
            self.wf(),
            self@.len() > 0,
        ensures
            exists|front: Seq<char>, back: Seq<char>|
                s@ == #[trigger] bounds_text(front, back)
                && debug_renders(&self@[0], front)
                && debug_renders(&self@.last(), back),
    {
        let (front, back) = self.end_items();
        join_bounds(render(front), render(back))
    }

    /// The rendering `StaticVecIterMut([..])` of the remaining items.
    pub fn debug_string(&self) -> (s: String)
        where T: core::fmt::Debug
        requires
            self.wf(),
        ensures
            exists|items: Seq<char>, shown: &[T]|
                s@ == #[trigger] debug_text("StaticVecIterMut"@, items)
                && shown@ == self@
                && #[trigger] debug_renders(shown, items),
    {
        join_debug("StaticVecIterMut", render(self.as_slice()))
    }
}

} // verus!
