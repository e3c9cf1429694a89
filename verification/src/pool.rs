//! The worker pool: declarations for the `threadpool` crate.
//!
//! Nothing here is proved. The pool is opaque to the verifier, and its
//! functions are taken as the crate's source shows them.

use threadpool::ThreadPool;
use vstd::prelude::*;

verus! {

/// A `threadpool::ThreadPool`, opaque to the verifier.
#[verifier::external_type_specification]
#[verifier::external_body]
pub struct ExThreadPool(ThreadPool);

/// `ThreadPool::new` starts `num_threads` worker threads that wait on a shared
/// job queue. It panics on a pool of no threads, which the precondition rules
/// out, and where the operating system refuses a thread, which nothing here
/// can rule out. Nothing is claimed of the pool it returns.
pub assume_specification[ ThreadPool::new ](num_threads: usize) -> (pool: ThreadPool)
    requires
        num_threads > 0,
;

/// `ThreadPool::execute` puts `job` on the queue and returns without waiting
/// for it; a worker calls it later, once, so it must be callable. Jobs that
/// are still queued when the pool is dropped are run all the same.
pub assume_specification<F>[ ThreadPool::execute::<F> ](pool: &ThreadPool, job: F) where
    F: FnOnce() + Send + 'static,

    requires
        call_requires(job, ()),
;

} // verus!
