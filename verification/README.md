# staticvec iterators

Verified iterators over the items of a vector of fixed capacity `N`:

- `StaticVecIterConst` hands out shared references, `StaticVecIterMut`
  mutable ones, `StaticVecIntoIter` the items by value, and `StaticVecDrain`
  by value the items of a range taken out of a borrowed vector.
- Each iterator's view is the window of items it has not yet handed out;
  `next` drops the front of the window, `next_back` its back, and `len`,
  `size_hint` and `as_slice` report the window exactly.
- `src/iterators/laws.rs` proves what runs of calls from both ends do over
  the windows (`window_after`, `front_items`, `back_items`): the calls meet
  without skipping or repeating an item (`law_both_ends`), and a run that
  empties the iterator hands out the whole window, front items in order and
  back items in reverse (`law_every_item_once`). Each iterator's `run_calls`
  makes such a run and is proved to match these spec functions.
- `law_matches_slice_iter` proves that `StaticVecIterConst` answers every
  call as `core::slice::Iter` does. Its `core::slice::Iter` side rests on
  three trusted wrappers, for that iterator's `next`, `next_back` and
  `as_slice`, whose contracts vstd does not give.
- `src/text.rs` builds the `bounds_to_string` and `debug_string` texts.
