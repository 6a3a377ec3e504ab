//! The four iterator types of a fixed-capacity vector.
mod drain;
mod into_iter;
mod iter_const;
mod iter_mut;

pub use drain::StaticVecDrain;
pub use into_iter::StaticVecIntoIter;
pub use iter_const::StaticVecIterConst;
pub use iter_mut::StaticVecIterMut;
pub mod laws;
pub mod text_laws;
