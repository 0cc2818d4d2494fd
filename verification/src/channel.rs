//! The trusted boundary to the underlying channel.
//!
//! Everything the library asks of the channel collaborator goes through the
//! declarations and wrappers of this module: construction, the non-blocking
//! try-operations, introspection and endpoint duplication. The outcomes of
//! the try-operations depend on what concurrent senders and receivers did a
//! moment earlier, so the wrappers promise nothing about which case comes
//! back; the verified policy functions take the outcome as an argument and
//! are proved for every value of it. The waiting operations and the sleeps
//! suspend a task or block a thread and are driven by unverified callers.

use vstd::prelude::*;

use crate::receiver::TryRecvOutcome;
use crate::sender::TrySendOutcome;

verus! {

#[verifier::external_type_specification]
#[verifier::external_body]
#[verifier::reject_recursive_types(T)]
pub struct ExReceiver<T>(async_channel::Receiver<T>);

#[verifier::external_type_specification]
#[verifier::external_body]
#[verifier::reject_recursive_types(T)]
pub struct ExSender<T>(async_channel::Sender<T>);

/// Relies on async_channel::bounded: builds a channel holding at most cap
/// messages and returns its paired endpoints. It panics when cap is zero,
/// so zero is excluded here.
#[verifier::external_body]
pub(crate) fn raw_bounded<T>(cap: usize) -> (r: (
    async_channel::Sender<T>,
    async_channel::Receiver<T>,
))
    requires
        1 <= cap,
{
    async_channel::bounded(cap)
}

/// Relies on async_channel::unbounded: builds a channel holding any number
/// of messages and returns its paired endpoints.
#[verifier::external_body]
pub(crate) fn raw_unbounded<T>() -> (r: (
    async_channel::Sender<T>,
    async_channel::Receiver<T>,
)) {
    async_channel::unbounded()
}

/// Relies on async_channel::Receiver::try_recv: pops the front message if
/// one is buffered, or reports the channel empty, or closed and drained.
/// Which case comes back depends on concurrent endpoints, so nothing is
/// promised of it.
#[verifier::external_body]
pub(crate) fn raw_try_recv<T>(r: &async_channel::Receiver<T>) -> (o: TryRecvOutcome<T>) {
    match r.try_recv() {
        Ok(m) => TryRecvOutcome::Msg(m),
        Err(async_channel::TryRecvError::Empty) => TryRecvOutcome::Empty,
        Err(async_channel::TryRecvError::Closed) => TryRecvOutcome::Closed,
    }
}

/// Relies on async_channel::Sender::try_send: enqueues the message if the
/// channel has room, else reports it full or closed. A refused message is
/// handed back untouched inside the error, which is all that is promised:
/// whether it is refused depends on concurrent endpoints.
#[verifier::external_body]
pub(crate) fn raw_try_send<T>(s: &async_channel::Sender<T>, msg: T) -> (o: TrySendOutcome<T>)
    ensures
        o matches TrySendOutcome::Full(m) ==> m == msg,
        o matches TrySendOutcome::Closed(m) ==> m == msg,
{
    match s.try_send(msg) {
        Ok(()) => TrySendOutcome::Sent,
        Err(async_channel::TrySendError::Full(m)) => TrySendOutcome::Full(m),
        Err(async_channel::TrySendError::Closed(m)) => TrySendOutcome::Closed(m),
    }
}

/// Relies on async_channel::Receiver::len: the number of messages buffered
/// at the moment of the call, which concurrent endpoints change at will.
#[verifier::external_body]
pub(crate) fn raw_receiver_len<T>(r: &async_channel::Receiver<T>) -> usize {
    r.len()
}

/// Relies on async_channel::Sender::len: the number of messages buffered
/// at the moment of the call, which concurrent endpoints change at will.
#[verifier::external_body]
pub(crate) fn raw_sender_len<T>(s: &async_channel::Sender<T>) -> usize {
    s.len()
}

/// Relies on async_channel::Receiver::capacity: the capacity the channel
/// was built with, absent for an unbounded channel.
#[verifier::external_body]
pub(crate) fn raw_receiver_capacity<T>(r: &async_channel::Receiver<T>) -> Option<usize> {
    r.capacity()
}

/// Relies on async_channel::Sender::capacity: the capacity the channel was
/// built with, absent for an unbounded channel.
#[verifier::external_body]
pub(crate) fn raw_sender_capacity<T>(s: &async_channel::Sender<T>) -> Option<usize> {
    s.capacity()
}

/// Relies on async_channel::Receiver::clone: a new consuming endpoint of
/// the same channel, competing for its messages.
#[verifier::external_body]
pub(crate) fn raw_receiver_clone<T>(r: &async_channel::Receiver<T>) -> async_channel::Receiver<
    T,
> {
    r.clone()
}

/// Relies on async_channel::Sender::clone: a new producing endpoint of the
/// same channel.
#[verifier::external_body]
pub(crate) fn raw_sender_clone<T>(s: &async_channel::Sender<T>) -> async_channel::Sender<T> {
    s.clone()
}

} // verus!
