//! The consumer side: an iterator that counts down the results still owed.

use std::sync::mpsc::{Receiver, RecvError};
use vstd::prelude::*;

verus! {

/// Stands in for a result that never arrived: the computation of one element
/// ended without sending a value.
#[derive(Clone, Copy, Debug, PartialEq, Eq, Structural)]
pub struct Lost;

/// A series of computations being run in parallel.
///
/// The order in which the results are yielded is undefined: it depends on the
/// scheduling of the underlying computations.
#[verifier::reject_recursive_types(R)]
pub struct ParMap<R> {
    left: usize,
    from: Receiver<R>,
}

/// Whether a call of `next` yields an element while `remaining` results are
/// owed.
pub open spec fn yields(remaining: nat) -> bool {
    remaining > 0
}

/// The number of results owed after one call of `next`.
pub open spec fn after_next(remaining: nat) -> nat {
    if remaining > 0 {
        (remaining - 1) as nat
    } else {
        0
    }
}

/// The number of results owed after `calls` calls of `next`.
pub open spec fn after_calls(remaining: nat, calls: nat) -> nat
    decreases calls,
{
    if calls == 0 {
        remaining
    } else {
        after_calls(after_next(remaining), (calls - 1) as nat)
    }
}

/// What the consumer is handed for one receive on the result channel.
pub open spec fn outcome_of<R>(received: Result<R, RecvError>) -> Result<R, Lost> {
    match received {
        Ok(value) => Ok(value),
        Err(_) => Err(Lost),
    }
}

/// Turns one receive on the result channel into what the consumer is handed:
/// the value itself, or [`Lost`] where the channel had hung up.
pub fn outcome<R>(received: Result<R, RecvError>) -> (item: Result<R, Lost>)
    ensures
        item == outcome_of(received),
{
    match received {
        Ok(value) => Ok(value),
        Err(_) => Err(Lost),
    }
}

/// A `ParMap` is modelled by the number of results that it still owes.
impl<R> View for ParMap<R> {
    type V = nat;

    closed spec fn view(&self) -> nat {
        self.left as nat
    }
}

impl<R> ParMap<R> {
    /// The number of results that have not been yielded yet.
    pub open spec fn remaining(&self) -> nat {
        self@
    }

    /// An iterator over the `left` results that the senders of `from` still owe.
    pub(crate) fn new(left: usize, from: Receiver<R>) -> (results: Self)
        ensures
            results.remaining() == left,
    {
        ParMap { left, from }
    }

    /// Yields the next result, in completion order, or `None` once every
    /// result has been yielded. Blocks until a worker has sent a result.
    ///
    /// A result that can no longer arrive, because its computation ended
    /// without sending one, is yielded as `Err(Lost)` and counted like any
    /// other, so the iterator ends after as many elements as were submitted.
    pub fn next(&mut self) -> (item: Option<Result<R, Lost>>)
        ensures
            item is Some <==> yields(old(self).remaining()),
            final(self).remaining() == after_next(old(self).remaining()),
    {
        if self.left == 0 {
            None
        } else {
            self.left -= 1;
            Some(outcome(self.from.recv()))
        }
    }

    /// Drains the iterator: every result that is still owed, in completion
    /// order. Blocks until the last of them is in.
    pub fn collect(self) -> (items: Vec<Result<R, Lost>>)
        ensures
            items@.len() == self.remaining(),
    {
        let mut results = self;
        let mut items: Vec<Result<R, Lost>> = Vec::new();
        loop
            invariant
                items@.len() + results.remaining() == self.remaining(),
            ensures
                items@.len() == self.remaining(),
            decreases results.remaining(),
        {
            match results.next() {
                Some(item) => {
                    items.push(item);
                },
                None => {
                    break ;
                },
            }
        }
        items
    }
}

/// After `calls` calls of `next`, an iterator that owed `remaining` results
/// owes `calls` fewer, and none once it has been called `remaining` times.
pub proof fn lemma_after_calls(remaining: nat, calls: nat)
    ensures
        after_calls(remaining, calls) == if calls <= remaining {
            remaining - calls
        } else {
            0
        },
    decreases calls,
{
    if calls > 0 {
        lemma_after_calls(after_next(remaining), (calls - 1) as nat);
    }
}

/// An iterator that owes `remaining` results yields an element on each of its
/// first `remaining` calls of `next`, and on no call after them.
pub proof fn lemma_yields_exactly_remaining(remaining: nat, calls: nat)
    ensures
        yields(after_calls(remaining, calls)) <==> calls < remaining,
{
    lemma_after_calls(remaining, calls);
}

/// Exhaustion is terminal: once a call of `next` has yielded no element, no
/// later call yields one.
pub proof fn lemma_exhaustion_is_terminal(remaining: nat, calls: nat, later: nat)
    requires
        !yields(after_calls(remaining, calls)),
        calls <= later,
    ensures
        !yields(after_calls(remaining, later)),
{
    lemma_after_calls(remaining, calls);
    lemma_after_calls(remaining, later);
}

} // verus!
