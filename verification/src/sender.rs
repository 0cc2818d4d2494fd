//! Sender side: the backoff policy for sending, and the wrapped endpoint.
//!
//! A send call mirrors the receive call with the roles of empty and full
//! swapped: a non-blocking fast-path attempt; if that found the channel
//! full, a blind sleep for the relaxation duration; then a real waiting
//! send. The policy decisions are pure functions, specified and verified
//! here; the sleeps and the waiting send are performed by the caller that
//! drives the policy.

use vstd::prelude::*;

use crate::channel::raw_sender_capacity;
use crate::channel::raw_sender_clone;
use crate::channel::raw_sender_len;
use crate::channel::raw_try_send;

verus! {

/// Error returned by a send when the channel is closed. It carries the
/// message that could not be delivered back to the caller.
#[derive(Debug, PartialEq, Eq)]
pub struct SendError<T>(pub T);

/// What the channel's non-blocking send attempt reported.
#[derive(Debug, PartialEq, Eq)]
pub enum TrySendOutcome<T> {
    /// The message was enqueued immediately.
    Sent,
    /// The channel is full; the message comes back untouched.
    Full(T),
    /// The channel is closed; the message comes back untouched.
    Closed(T),
}

/// What the channel's real waiting send reported after the blind sleep.
#[derive(Debug, PartialEq, Eq)]
pub enum WaitSendOutcome<T> {
    /// The message was enqueued.
    Sent,
    /// The channel is closed; the message comes back untouched.
    Closed(T),
}

/// What the backoff policy tells the driver to do after the fast path.
#[derive(Debug, PartialEq, Eq)]
pub enum SendAction<T> {
    /// The message is enqueued; return success at once, no sleep, no wait.
    Done,
    /// Return the closed error, carrying the message back; no sleep, no
    /// wait.
    FailClosed(T),
    /// Sleep blindly for the relaxation duration, then hand this message to
    /// a real waiting send.
    RelaxThenWait(T),
}

/// The decision the policy takes for each fast-path outcome.
pub open spec fn send_action_of<T>(o: TrySendOutcome<T>) -> SendAction<T> {
    match o {
        TrySendOutcome::Sent => SendAction::Done,
        TrySendOutcome::Full(m) => SendAction::RelaxThenWait(m),
        TrySendOutcome::Closed(m) => SendAction::FailClosed(m),
    }
}

/// How a wait-path outcome becomes the call's result.
pub open spec fn send_wait_result<T>(o: WaitSendOutcome<T>) -> Result<(), SendError<T>> {
    match o {
        WaitSendOutcome::Sent => Ok(()),
        WaitSendOutcome::Closed(m) => Err(SendError(m)),
    }
}

/// The result of one whole send call, given the fast-path outcome and the
/// wait-path outcome. The wait path is consulted only when the fast path
/// observed a full channel.
pub open spec fn send_call_result<T>(t: TrySendOutcome<T>, w: WaitSendOutcome<T>) -> Result<
    (),
    SendError<T>,
> {
    match t {
        TrySendOutcome::Sent => Ok(()),
        TrySendOutcome::Full(m) => send_wait_result(w),
        TrySendOutcome::Closed(m) => Err(SendError(m)),
    }
}

/// Whether a call whose fast path saw this outcome sleeps for the
/// relaxation duration.
pub open spec fn send_call_relaxes<T>(t: TrySendOutcome<T>) -> bool {
    t is Full
}

/// Applies the backoff policy to the fast-path outcome.
pub fn send_on_try<T>(o: TrySendOutcome<T>) -> (a: SendAction<T>)
    ensures
        a == send_action_of(o),
{
    match o {
        TrySendOutcome::Sent => SendAction::Done,
        TrySendOutcome::Full(m) => SendAction::RelaxThenWait(m),
        TrySendOutcome::Closed(m) => SendAction::FailClosed(m),
    }
}

/// Turns the wait-path outcome into the call's result.
pub fn send_on_wait<T>(o: WaitSendOutcome<T>) -> (r: Result<(), SendError<T>>)
    ensures
        r == send_wait_result(o),
{
    match o {
        WaitSendOutcome::Sent => Ok(()),
        WaitSendOutcome::Closed(m) => Err(SendError(m)),
    }
}

/// A closed channel is detected on the fast path: the call fails with the
/// closed error at once, carrying the message back to the caller, and
/// never sleeps, whatever the wait path would have reported.
pub proof fn lemma_send_closed_detected_without_relaxing<T>(m: T, w: WaitSendOutcome<T>)
    ensures
        send_call_result(TrySendOutcome::Closed(m), w) == Err::<(), SendError<T>>(SendError(m)),
        !send_call_relaxes(TrySendOutcome::Closed(m)),
        send_action_of(TrySendOutcome::Closed(m)) == SendAction::FailClosed(m),
{
}

/// Once the fast path observes a full channel the call is committed to the
/// blind sleep: the policy orders a relax-then-wait carrying the very same
/// message, and the call's result is exactly what the wait path reports
/// after the sleep.
pub proof fn lemma_full_commits_to_relaxing<T>(m: T, w: WaitSendOutcome<T>)
    ensures
        send_call_relaxes(TrySendOutcome::Full(m)),
        send_action_of(TrySendOutcome::Full(m)) == SendAction::RelaxThenWait(m),
        send_call_result(TrySendOutcome::Full(m), w) == send_wait_result(w),
{
}

/// A failed send never loses data: the call returns the closed error
/// carrying message m exactly when the channel refused m as closed, on the
/// fast path or on the wait path.
pub proof fn lemma_send_returns_item_on_closed<T>(t: TrySendOutcome<T>, w: WaitSendOutcome<T>, m: T)
    ensures
        send_call_result(t, w) == Err::<(), SendError<T>>(SendError(m)) <==> (t
            == TrySendOutcome::Closed(m) || (t is Full && w == WaitSendOutcome::Closed(m))),
{
}

/// A send succeeds exactly when the channel accepted the message, at once
/// or after the relaxation sleep.
pub proof fn lemma_send_succeeds_only_when_accepted<T>(t: TrySendOutcome<T>, w: WaitSendOutcome<T>)
    ensures
        send_call_result(t, w) == Ok::<(), SendError<T>>(()) <==> (t is Sent || (t is Full
            && w is Sent)),
{
}

/// A producing endpoint that applies the backoff policy when the channel
/// appears full, which only a bounded channel can.
///
/// Duplicates obtained by cloning feed the same channel as independent
/// producers. The relaxation duration is fixed at construction and copied
/// into each duplicate.
#[derive(Debug)]
#[verifier::reject_recursive_types(T)]
pub struct RelaxedSender<T> {
    sender: async_channel::Sender<T>,
    relax_ms: u64,
    cap: Option<usize>,
}

impl<T> RelaxedSender<T> {
    /// The relaxation duration of this endpoint, in milliseconds.
    pub closed spec fn spec_relaxes_for(self) -> u64 {
        self.relax_ms
    }

    /// The capacity this endpoint reports: the capacity a bounded channel
    /// was configured with, absent for an unbounded channel.
    pub closed spec fn spec_capacity(self) -> Option<usize> {
        self.cap
    }

    /// The wrapped raw endpoint.
    pub closed spec fn spec_inner(self) -> async_channel::Sender<T> {
        self.sender
    }

    /// Wraps a raw sending endpoint with the default relaxation duration.
    pub fn new(sender: async_channel::Sender<T>) -> (r: Self)
        ensures
            r.spec_relaxes_for() == crate::DEFAULT_RELAX_MS,
            r.spec_inner() == sender,
    {
        Self::relaxing_for(sender, crate::DEFAULT_RELAX_MS)
    }

    /// Wraps a raw sending endpoint with a chosen relaxation duration,
    /// given in milliseconds. The capacity it will report is read off the
    /// channel once, here: the channel's capacity never changes.
    pub fn relaxing_for(sender: async_channel::Sender<T>, relax_ms: u64) -> (r: Self)
        ensures
            r.spec_relaxes_for() == relax_ms,
            r.spec_inner() == sender,
    {
        let cap = raw_sender_capacity(&sender);
        RelaxedSender { sender, relax_ms, cap }
    }

    /// Wraps an endpoint whose channel capacity the caller has configured
    /// itself, so no channel call is needed to learn it.
    pub(crate) fn wrap_parts(
        sender: async_channel::Sender<T>,
        relax_ms: u64,
        cap: Option<usize>,
    ) -> (r: Self)
        ensures
            r.spec_relaxes_for() == relax_ms,
            r.spec_capacity() == cap,
            r.spec_inner() == sender,
    {
        RelaxedSender { sender, relax_ms, cap }
    }

    /// The relaxation duration of this endpoint, in milliseconds.
    pub fn relaxes_for(&self) -> (ms: u64)
        ensures
            ms == self.spec_relaxes_for(),
    {
        self.relax_ms
    }

    /// Performs the fast path of a send: the non-blocking attempt, fed to
    /// the backoff policy. Whether the channel takes the message depends
    /// on what concurrent endpoints did a moment earlier, so which action
    /// comes back is not promised; but a refused message is never lost: it
    /// sits in the action, untouched.
    pub fn fast_path(&self, msg: T) -> (a: SendAction<T>)
        ensures
            a matches SendAction::FailClosed(m) ==> m == msg,
            a matches SendAction::RelaxThenWait(m) ==> m == msg,
    {
        send_on_try(raw_try_send(&self.sender, msg))
    }

    /// The number of messages buffered in the channel at the moment of the
    /// call; concurrent endpoints change it at will.
    pub fn len(&self) -> usize {
        raw_sender_len(&self.sender)
    }

    /// The capacity of the channel: the value a bounded channel was
    /// configured with, absent for an unbounded channel.
    pub fn capacity(&self) -> (c: Option<usize>)
        ensures
            c == self.spec_capacity(),
    {
        self.cap
    }

    /// Gives back the wrapped raw endpoint, consuming the wrapper.
    pub fn into_inner(self) -> (r: async_channel::Sender<T>)
        ensures
            r == self.spec_inner(),
    {
        self.sender
    }

    /// A reference to the wrapped raw endpoint, for operations this layer
    /// does not cover.
    pub fn inner(&self) -> (r: &async_channel::Sender<T>)
        ensures
            *r == self.spec_inner(),
    {
        &self.sender
    }
}

impl<T> Clone for RelaxedSender<T> {
    /// A duplicate endpoint: it produces into the same channel, and copies
    /// the relaxation duration and reported capacity.
    fn clone(&self) -> (r: Self)
        ensures
            r.spec_relaxes_for() == self.spec_relaxes_for(),
            r.spec_capacity() == self.spec_capacity(),
    {
        RelaxedSender {
            sender: raw_sender_clone(&self.sender),
            relax_ms: self.relax_ms,
            cap: self.cap,
        }
    }
}

} // verus!
