//! Text that describes an iterator: the two items at the ends of its window,
//! and its `Debug`-style rendering.
use vstd::prelude::*;
use vstd::string::StringExecFns;

verus! {

/// What `bounds_to_string` returns, given the `Debug` text of the item at the
/// front of the window and that of the item at its back.
pub open spec fn bounds_text(front: Seq<char>, back: Seq<char>) -> Seq<char> {
    "Current value of element at `start`: "@ + front + "\nCurrent value of element at `end`: "@ + back
}

/// What the `debug_string` method of an iterator named `name` returns, given
/// the `Debug` text of its remaining items as a slice.
pub open spec fn debug_text(name: Seq<char>, items: Seq<char>) -> Seq<char> {
    name + "("@ + items + ")"@
}

/// Calls `format!("{:?}", value)`: the `Debug` rendering of `value`. That
/// rendering is decided by the impl of `Debug` for `T`, which nothing here
/// reads, so no clause says what the text holds.
#[verifier::external_body]
pub(crate) fn debug_of<T: core::fmt::Debug + ?Sized>(value: &T) -> String {
    format!("{:?}", value)
}

/// `text` is a `Debug` rendering of `value`: a text that
/// `format!("{:?}", value)` may return.
pub closed spec fn debug_renders<T: core::fmt::Debug + ?Sized>(value: &T, text: Seq<char>) -> bool {
    exists|s: String| #[trigger] call_ensures(debug_of::<T>, (value,), s) && s@ == text
}

/// The `Debug` rendering of `value`.
pub(crate) fn render<T: core::fmt::Debug + ?Sized>(value: &T) -> (s: String)
    ensures
        debug_renders(value, s@),
{
    let format = debug_of::<T>;
    format(value)
}

/// Joins the `Debug` texts of the front and the back item into the two
/// labelled lines of `bounds_text`.
pub(crate) fn join_bounds(front: String, back: String) -> (s: String)
    ensures
        s@ == bounds_text(front@, back@),
{
    let mut s = "Current value of element at `start`: ".to_owned();
    s.append(front.as_str());
    s.append("\nCurrent value of element at `end`: ");
    s.append(back.as_str());
    s
}

/// Wraps the `Debug` text of a slice in the iterator's name, as
/// `debug_tuple(name).field(slice)` lays it out on one line.
pub(crate) fn join_debug(name: &str, items: String) -> (s: String)
    ensures
        s@ == debug_text(name@, items@),
{
    let mut s = name.to_owned();
    s.append("(");
    s.append(items.as_str());
    s.append(")");
    s
}

} // verus!
