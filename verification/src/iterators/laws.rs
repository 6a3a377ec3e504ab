//! What every iterator of this crate does over a run of calls of `next` and
//! `next_back`, stated over the windows that their contracts speak of: each
//! call of `next` drops the front item of the window, each call of
//! `next_back` drops the back item, and a call on an empty window changes
//! nothing. The `run_calls` method of each iterator makes such a run of
//! calls and is proved to leave `window_after` and hand out `front_items`
//! and `back_items`; `law_matches_slice_iter` makes it side by side with
//! `core::slice::Iter`, whose side rests on the trusted wrappers below.
use vstd::prelude::*;
use vstd::std_specs::iter::IteratorSpec;
use super::iter_const::StaticVecIterConst;

verus! {

/// The window left after the calls `steps`, in order: `true` stands for a
/// call of `next`, `false` for a call of `next_back`.
pub open spec fn window_after<A>(window: Seq<A>, steps: Seq<bool>) -> Seq<A>
    decreases steps.len(),
{
    if steps.len() == 0 {
        window
    } else {
        let w = window_after(window, steps.drop_last());
        if w.len() == 0 {
            w
        } else if steps.last() {
            w.drop_first()
        } else {
            w.drop_last()
        }
    }
}

/// The items that the calls of `next` among `steps` hand out, in the order of
/// the calls.
pub open spec fn front_items<A>(window: Seq<A>, steps: Seq<bool>) -> Seq<A>
    decreases steps.len(),
{
    if steps.len() == 0 {
        Seq::empty()
    } else {
        let w = window_after(window, steps.drop_last());
        let before = front_items(window, steps.drop_last());
        if w.len() > 0 && steps.last() {
            before.push(w[0])
        } else {
            before
        }
    }
}

/// The items that the calls of `next_back` among `steps` hand out, in the
/// order of the calls.
pub open spec fn back_items<A>(window: Seq<A>, steps: Seq<bool>) -> Seq<A>
    decreases steps.len(),
{
    if steps.len() == 0 {
        Seq::empty()
    } else {
        let w = window_after(window, steps.drop_last());
        let before = back_items(window, steps.drop_last());
        if w.len() > 0 && !steps.last() {
            before.push(w.last())
        } else {
            before
        }
    }
}

/// The number of calls of `next` among `steps`.
pub open spec fn fronts(steps: Seq<bool>) -> nat
    decreases steps.len(),
{
    if steps.len() == 0 {
        0
    } else {
        fronts(steps.drop_last()) + if steps.last() { 1nat } else { 0nat }
    }
}

/// Calls from both ends meet without handing out an item twice or skipping
/// one: as long as there are no more calls than items, the calls of `next`
/// hand out the window's first items in order, the calls of `next_back` hand
/// out its last items back first, and the window left is what lies between.
pub proof fn law_both_ends<A>(window: Seq<A>, steps: Seq<bool>)
    requires
        steps.len() <= window.len(),
    ensures
        window_after(window, steps) == window.subrange(
            fronts(steps) as int,
            window.len() - (steps.len() - fronts(steps)),
        ),
        front_items(window, steps) == window.subrange(0, fronts(steps) as int),
        back_items(window, steps).reverse() == window.subrange(
            window.len() - (steps.len() - fronts(steps)),
            window.len() as int,
        ),
    decreases steps.len(),
{
    if steps.len() > 0 {
        let rest = steps.drop_last();
        law_both_ends(window, rest);
        lemma_fronts_bound(rest);
        let n = window.len() as int;
        let f = fronts(rest) as int;
        let b = rest.len() - f;
        let w = window_after(window, rest);
        if steps.last() {
            assert(w.drop_first() =~= window.subrange(f + 1, n - b));
            assert(window.subrange(0, f).push(w[0]) =~= window.subrange(0, f + 1));
        } else {
            assert(w.drop_last() =~= window.subrange(f, n - b - 1));
            let bi = back_items(window, rest);
            assert(bi.len() == b) by {
                assert(bi.reverse().len() == window.subrange(n - b, n).len());
            }
            assert forall|k: int| 0 <= k < b + 1 implies #[trigger] bi.push(w.last()).reverse()[k]
                == window.subrange(n - b - 1, n)[k] by {
                if k > 0 {
                    assert(bi.reverse()[k - 1] == window.subrange(n - b, n)[k - 1]);
                }
            }
            assert(bi.push(w.last()).reverse() =~= window.subrange(n - b - 1, n));
        }
    }
}

/// A run of calls that empties the iterator hands out every item of the
/// window exactly once: the items from `next`, followed by those from
/// `next_back` taken back first, are the window, and once the window is
/// empty no later call hands out anything.
pub proof fn law_every_item_once<A>(window: Seq<A>, steps: Seq<bool>)
    requires
        steps.len() >= window.len(),
    ensures
        window_after(window, steps).len() == 0,
        front_items(window, steps) + back_items(window, steps).reverse() == window,
        front_items(window, steps).len() + back_items(window, steps).len() == window.len(),
    decreases steps.len(),
{
    if steps.len() == window.len() {
        law_both_ends(window, steps);
        lemma_fronts_bound(steps);
        let n = window.len() as int;
        let f = fronts(steps) as int;
        assert(window.subrange(0, f) + window.subrange(f, n) =~= window);
    } else {
        law_every_item_once(window, steps.drop_last());
    }
}

/// Calls `next` on a `core::slice::Iter`: per its documentation, hands out a
/// reference to the front item that the iterator has not yet handed out and
/// steps past it, or `None` once it has handed out every item.
#[verifier::external_body]
fn slice_iter_next<'a, T>(iter: &mut core::slice::Iter<'a, T>) -> (item: Option<&'a T>)
    ensures
        (*old(iter)).remaining().len() > 0 ==> item == Some((*old(iter)).remaining()[0])
            && (*final(iter)).remaining() == (*old(iter)).remaining().drop_first(),
        (*old(iter)).remaining().len() == 0 ==> item is None && (*final(iter)).remaining() == (*old(iter)).remaining(),
{
    iter.next()
}

/// Calls `next_back` on a `core::slice::Iter`: per its documentation, hands
/// out a reference to the back item that the iterator has not yet handed out
/// and steps before it, or `None` once it has handed out every item.
#[verifier::external_body]
fn slice_iter_next_back<'a, T>(iter: &mut core::slice::Iter<'a, T>) -> (item: Option<&'a T>)
    ensures
        (*old(iter)).remaining().len() > 0 ==> item == Some((*old(iter)).remaining().last())
            && (*final(iter)).remaining() == (*old(iter)).remaining().drop_last(),
        (*old(iter)).remaining().len() == 0 ==> item is None && (*final(iter)).remaining() == (*old(iter)).remaining(),
{
    iter.next_back()
}

/// Calls `as_slice` on a `core::slice::Iter`: per its documentation, the part
/// of the underlying slice that the iterator has not yet handed out, which
/// is what its `remaining` items point to.
#[verifier::external_body]
fn slice_iter_rest<'a, T>(iter: &core::slice::Iter<'a, T>) -> (rest: &'a [T])
    ensures
        rest@.len() == iter.remaining().len(),
        forall|k: int| 0 <= k < rest@.len() ==> &rest@[k] == iter.remaining()[k],
{
    iter.as_slice()
}

/// Walks `data` with a `StaticVecIterConst` and with `core::slice::Iter`,
/// making the same calls `steps` on both (`next` where a step is `true`,
/// `next_back` where it is `false`). Each call hands out the same result from
/// both, and both are left with the same items, which are the window that
/// `window_after` describes.
pub fn law_matches_slice_iter<'a, T, const N: usize>(data: &'a [T], steps: &[bool]) -> (runs: (
    Vec<Option<&'a T>>,
    Vec<Option<&'a T>>,
    &'a [T],
    &'a [T],
))
    requires
        data@.len() <= N,
    ensures
        runs.0@ == runs.1@,
        runs.0@.len() == steps@.len(),
        runs.2@ == runs.3@,
        runs.2@ == window_after(data@, steps@),
{
    broadcast use vstd::std_specs::slice::group_slice_axioms;
    let mut ours: StaticVecIterConst<'a, T, N> = StaticVecIterConst::new(data);
    let mut theirs = data.iter();
    let mut ours_out: Vec<Option<&'a T>> = Vec::new();
    let mut theirs_out: Vec<Option<&'a T>> = Vec::new();
    let mut i: usize = 0;
    while i < steps.len()
        invariant
            i <= steps@.len(),
            ours@ == window_after(data@, steps@.take(i as int)),
            theirs.remaining().len() == ours@.len(),
            forall|k: int| 0 <= k < ours@.len() ==> theirs.remaining()[k] == &ours@[k],
            ours_out@ == theirs_out@,
            ours_out@.len() == i,
        decreases steps.len() - i,
    {
        if steps[i] {
            ours_out.push(ours.next());
            theirs_out.push(slice_iter_next(&mut theirs));
        } else {
            ours_out.push(ours.next_back());
            theirs_out.push(slice_iter_next_back(&mut theirs));
        }
        proof {
            assert(steps@.take(i + 1).drop_last() =~= steps@.take(i as int));
        }
        i = i + 1;
    }
    proof {
        assert(steps@.take(steps@.len() as int) =~= steps@);
    }
    let ours_rest = ours.as_slice();
    let theirs_rest = slice_iter_rest(&theirs);
    proof {
        assert(ours_rest@ =~= theirs_rest@);
    }
    (ours_out, theirs_out, ours_rest, theirs_rest)
}

proof fn lemma_fronts_bound(steps: Seq<bool>)
    ensures
        fronts(steps) <= steps.len(),
    decreases steps.len(),
{
    if steps.len() > 0 {
        lemma_fronts_bound(steps.drop_last());
    }
}

} // verus!
