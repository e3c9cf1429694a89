//! The result channel: declarations for `std::sync::mpsc`.
//!
//! Nothing here is proved. The types are opaque to the verifier, and the
//! functions are taken as the standard library documents them. What travels
//! through a channel depends on the threads that send, so none of the
//! functions is given a postcondition.

use std::sync::mpsc::{Receiver, RecvError, SendError, Sender};
use vstd::prelude::*;

verus! {

/// The sending end of a `std::sync::mpsc` channel, opaque to the verifier.
#[verifier::external_type_specification]
#[verifier::external_body]
#[verifier::reject_recursive_types(T)]
pub struct ExSender<T>(Sender<T>);

/// The receiving end of a `std::sync::mpsc` channel, opaque to the verifier.
#[verifier::external_type_specification]
#[verifier::external_body]
#[verifier::reject_recursive_types(T)]
pub struct ExReceiver<T>(Receiver<T>);

/// The error of `Sender::send`: the receiver is gone. It hands the value back.
#[verifier::external_type_specification]
#[verifier::external_body]
#[verifier::reject_recursive_types(T)]
pub struct ExSendError<T>(SendError<T>);

/// The error of `Receiver::recv`: every sender is gone and the channel is empty.
#[verifier::external_type_specification]
#[verifier::external_body]
pub struct ExRecvError(RecvError);

/// `std::sync::mpsc::channel` creates an unbounded channel and returns its two
/// ends.
pub assume_specification<T>[ std::sync::mpsc::channel::<T> ]() -> (ends: (Sender<T>, Receiver<T>))
;

/// `Sender::clone` returns another sending end of the same channel.
pub assume_specification<T>[ <Sender<T> as Clone>::clone ](tx: &Sender<T>) -> (other: Sender<T>)
;

/// `Sender::send` queues a value without blocking, and fails once the receiver
/// is gone.
pub assume_specification<T>[ Sender::<T>::send ](tx: &Sender<T>, value: T) -> (sent: Result<
    (),
    SendError<T>,
>)
;

/// `Receiver::recv` blocks until a value arrives or the last sender is
/// dropped. While a sender lives on without sending, it does not return.
pub assume_specification<T>[ Receiver::<T>::recv ](rx: &Receiver<T>) -> (received: Result<
    T,
    RecvError,
>)
;

} // verus!
