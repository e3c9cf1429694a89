//! Parallel mapping over an iterator.
//!
//! [`Parallel::par_map`] hands every element of an iterator to a fixed pool of
//! worker threads and returns a [`ParMap`], which yields the results in the
//! order in which the workers finish them.

pub mod channel;
pub mod parallel;
pub mod pool;
pub mod results;

pub use crate::parallel::Parallel;
pub use crate::results::{Lost, ParMap};
