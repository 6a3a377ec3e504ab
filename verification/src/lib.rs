//! Iterators over the contents of a fixed-capacity vector: a borrowing
//! iterator, a mutably borrowing iterator, a consuming iterator and a
//! draining iterator. Each of them walks a window of the vector's items from
//! both ends and never holds more than the capacity `N`.
pub mod iterators;

pub use iterators::{StaticVecDrain, StaticVecIntoIter, StaticVecIterConst, StaticVecIterMut};
pub mod text;
