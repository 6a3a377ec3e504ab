//! What the texts of an iterator render, stated against the other calls on
//! the same iterator: `bounds_to_string` renders the two items that
//! `end_items` returns, which are the items that `next` and `next_back`
//! would hand out, and `debug_string` renders the slice that `as_slice`
//! returns, which is exactly the window not yet handed out.
use vstd::prelude::*;
use super::drain::StaticVecDrain;
use super::into_iter::StaticVecIntoIter;
use super::iter_const::StaticVecIterConst;
use super::iter_mut::StaticVecIterMut;
use crate::text::{bounds_text, debug_renders, debug_text};

verus! {

/// `StaticVecIterConst::bounds_to_string` renders on its front line the item that
/// `end_items` returns first, which `next` would hand out, and on its back
/// line the item that `end_items` returns second, which `next_back` would
/// hand out.
pub proof fn law_iter_const_bounds_render_end_items<'a, T: core::fmt::Debug, const N: usize>(
    it: &StaticVecIterConst<'a, T, N>,
    text: String,
    ends: (&'a T, &'a T),
)
    requires
        it@.len() > 0,
        call_ensures(StaticVecIterConst::<'a, T, N>::bounds_to_string, (it,), text),
        call_ensures(StaticVecIterConst::<'a, T, N>::end_items, (it,), ends),
    ensures
        *ends.0 == it@[0],
        *ends.1 == it@.last(),
        exists|front: Seq<char>, back: Seq<char>|
            text@ == #[trigger] bounds_text(front, back)
            && debug_renders(ends.0, front)
            && debug_renders(ends.1, back),
{
}

/// `StaticVecIterConst::debug_string` renders, inside the iterator's name, the slice
/// that `as_slice` returns: the items not yet handed out, and no other.
pub proof fn law_iter_const_debug_renders_as_slice<'a, T: core::fmt::Debug, const N: usize>(
    it: &StaticVecIterConst<'a, T, N>,
    text: String,
    shown: &'a [T],
)
    requires
        call_ensures(StaticVecIterConst::<'a, T, N>::debug_string, (it,), text),
        call_ensures(StaticVecIterConst::<'a, T, N>::as_slice, (it,), shown),
    ensures
        shown@ == it@,
        exists|items: Seq<char>|
            text@ == #[trigger] debug_text("StaticVecIterConst"@, items) && debug_renders(shown, items),
{
    let (items, other) = choose|items: Seq<char>, other: &[T]|
        text@ == #[trigger] debug_text("StaticVecIterConst"@, items) && other@ == it@ && #[trigger] debug_renders(other, items);
    assert(shown =~= other);
}

/// `StaticVecIterMut::bounds_to_string` renders on its front line the item that
/// `end_items` returns first, which `next` would hand out, and on its back
/// line the item that `end_items` returns second, which `next_back` would
/// hand out.
pub proof fn law_iter_mut_bounds_render_end_items<'a, 'b, T: core::fmt::Debug, const N: usize>(
    it: &'b StaticVecIterMut<'a, T, N>,
    text: String,
    ends: (&'b T, &'b T),
)
    requires
        it.wf(),
        it@.len() > 0,
        call_ensures(StaticVecIterMut::<'a, T, N>::bounds_to_string, (it,), text),
        call_ensures(StaticVecIterMut::<'a, T, N>::end_items, (it,), ends),
    ensures
        *ends.0 == it@[0],
        *ends.1 == it@.last(),
        exists|front: Seq<char>, back: Seq<char>|
            text@ == #[trigger] bounds_text(front, back)
            && debug_renders(ends.0, front)
            && debug_renders(ends.1, back),
{
}

/// `StaticVecIterMut::debug_string` renders, inside the iterator's name, the slice
/// that `as_slice` returns: the items not yet handed out, and no other.
pub proof fn law_iter_mut_debug_renders_as_slice<'a, 'b, T: core::fmt::Debug, const N: usize>(
    it: &'b StaticVecIterMut<'a, T, N>,
    text: String,
    shown: &'b [T],
)
    requires
        it.wf(),
        call_ensures(StaticVecIterMut::<'a, T, N>::debug_string, (it,), text),
        call_ensures(StaticVecIterMut::<'a, T, N>::as_slice, (it,), shown),
    ensures
        shown@ == it@,
        exists|items: Seq<char>|
            text@ == #[trigger] debug_text("StaticVecIterMut"@, items) && debug_renders(shown, items),
{
    let (items, other) = choose|items: Seq<char>, other: &[T]|
        text@ == #[trigger] debug_text("StaticVecIterMut"@, items) && other@ == it@ && #[trigger] debug_renders(other, items);
    assert(shown =~= other);
}

/// `StaticVecIntoIter::bounds_to_string` renders on its front line the item that
/// `end_items` returns first, which `next` would hand out, and on its back
/// line the item that `end_items` returns second, which `next_back` would
/// hand out.
pub proof fn law_into_iter_bounds_render_end_items<'b, T: core::fmt::Debug, const N: usize>(
    it: &'b StaticVecIntoIter<T, N>,
    text: String,
    ends: (&'b T, &'b T),
)
    requires
        it@.len() > 0,
        call_ensures(StaticVecIntoIter::<T, N>::bounds_to_string, (it,), text),
        call_ensures(StaticVecIntoIter::<T, N>::end_items, (it,), ends),
    ensures
        *ends.0 == it@[0],
        *ends.1 == it@.last(),
        exists|front: Seq<char>, back: Seq<char>|
            text@ == #[trigger] bounds_text(front, back)
            && debug_renders(ends.0, front)
            && debug_renders(ends.1, back),
{
}

/// `StaticVecIntoIter::debug_string` renders, inside the iterator's name, the slice
/// that `as_slice` returns: the items not yet handed out, and no other.
pub proof fn law_into_iter_debug_renders_as_slice<'b, T: core::fmt::Debug, const N: usize>(
    it: &'b StaticVecIntoIter<T, N>,
    text: String,
    shown: &'b [T],
)
    requires
        call_ensures(StaticVecIntoIter::<T, N>::debug_string, (it,), text),
        call_ensures(StaticVecIntoIter::<T, N>::as_slice, (it,), shown),
    ensures
        shown@ == it@,
        exists|items: Seq<char>|
            text@ == #[trigger] debug_text("StaticVecIntoIter"@, items) && debug_renders(shown, items),
{
    let (items, other) = choose|items: Seq<char>, other: &[T]|
        text@ == #[trigger] debug_text("StaticVecIntoIter"@, items) && other@ == it@ && #[trigger] debug_renders(other, items);
    assert(shown =~= other);
}

/// `StaticVecDrain::bounds_to_string` renders on its front line the item that
/// `end_items` returns first, which `next` would hand out, and on its back
/// line the item that `end_items` returns second, which `next_back` would
/// hand out.
pub proof fn law_drain_bounds_render_end_items<'a, 'b, T: core::fmt::Debug, const N: usize>(
    it: &'b StaticVecDrain<'a, T, N>,
    text: String,
    ends: (&'b T, &'b T),
)
    requires
        it@.len() > 0,
        call_ensures(StaticVecDrain::<'a, T, N>::bounds_to_string, (it,), text),
        call_ensures(StaticVecDrain::<'a, T, N>::end_items, (it,), ends),
    ensures
        *ends.0 == it@[0],
        *ends.1 == it@.last(),
        exists|front: Seq<char>, back: Seq<char>|
            text@ == #[trigger] bounds_text(front, back)
            && debug_renders(ends.0, front)
            && debug_renders(ends.1, back),
{
}

/// `StaticVecDrain::debug_string` renders, inside the iterator's name, the slice
/// that `as_slice` returns: the items not yet handed out, and no other.
pub proof fn law_drain_debug_renders_as_slice<'a, 'b, T: core::fmt::Debug, const N: usize>(
    it: &'b StaticVecDrain<'a, T, N>,
    text: String,
    shown: &'b [T],
)
    requires
        call_ensures(StaticVecDrain::<'a, T, N>::debug_string, (it,), text),
        call_ensures(StaticVecDrain::<'a, T, N>::as_slice, (it,), shown),
    ensures
        shown@ == it@,
        exists|items: Seq<char>|
            text@ == #[trigger] debug_text("StaticVecDrain"@, items) && debug_renders(shown, items),
{
    let (items, other) = choose|items: Seq<char>, other: &[T]|
        text@ == #[trigger] debug_text("StaticVecDrain"@, items) && other@ == it@ && #[trigger] debug_renders(other, items);
    assert(shown =~= other);
}

} // verus!
