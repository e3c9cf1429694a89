//! The producer side: handing every element of an iterator to the pool.

use crate::results::ParMap;
use std::sync::mpsc::channel;
use threadpool::ThreadPool;
use vstd::prelude::*;
use vstd::std_specs::iter::IteratorSpec;

verus! {

/// The number of worker threads that one call of [`Parallel::par_map`] starts.
pub const POOL_SIZE: usize = 8;

/// A mixin trait that gives every iterator the `par_map` method.
pub trait Parallel<T: Send + 'static>: Iterator<Item = T> + Sized {
    /// Does a computation on every element of the iterator in parallel.
    ///
    /// Starts a pool of [`POOL_SIZE`] workers and consumes the whole iterator,
    /// queueing one job for each element, in the iterator's order. A job
    /// applies `mapper` to its element and sends the result to the returned
    /// [`ParMap`], which therefore owes one result for each element.
    ///
    /// The iterator must be finite, its length must fit in `usize`, and
    /// `mapper` must accept each of its elements.
    fn par_map<R: Send + 'static, F: Fn(T) -> R + Copy + Send + 'static>(self, mapper: F) -> (results:
        ParMap<R>)
        requires
            self.obeys_prophetic_iter_laws(),
            self.remaining().len() <= usize::MAX,
            forall|i: int|
                0 <= i < self.remaining().len() ==> call_requires(mapper, (self.remaining()[i],)),
        ensures
            results.remaining() == self.remaining().len(),
    ;
}

impl<T: Send + 'static, I: Iterator<Item = T>> Parallel<T> for I {
    fn par_map<R: Send + 'static, F: Fn(T) -> R + Copy + Send + 'static>(self, mapper: F) -> (results:
        ParMap<R>) {
        let pool = ThreadPool::new(POOL_SIZE);
        let (tx, rx) = channel();
        let mut source = self;
        let mut count: usize = 0;
        let ghost total = self.remaining().len();
        loop
            invariant
                source.obeys_prophetic_iter_laws(),
                count + source.remaining().len() == total,
                total <= usize::MAX,
                forall|i: int|
                    0 <= i < source.remaining().len() ==> call_requires(
                        mapper,
                        (source.remaining()[i],),
                    ),
            ensures
                count == total,
            decreases usize::MAX - count,
        {
            match source.next() {
                None => {
                    break ;
                },
                Some(x) => {
                    let tx = tx.clone();
                    count += 1;
                    pool.execute(
                        move ||
                            {
                                let _ = tx.send(mapper(x));
                            },
                    );
                },
            }
        }
        ParMap::new(count, rx)
    }
}

} // verus!
