//! Receiver side: the backoff policy for receiving, and the wrapped endpoint.
//!
//! A receive call proceeds in at most three phases: a non-blocking fast-path
//! attempt; if that sees an empty channel, a blind sleep for the relaxation
//! duration; then a real waiting receive. The policy decisions of those
//! phases are pure functions, specified and verified here. The sleeps and
//! the waiting receive themselves are performed by the caller that drives
//! the policy (they suspend a task or block a thread).

use vstd::prelude::*;

use crate::channel::raw_receiver_capacity;
use crate::channel::raw_receiver_clone;
use crate::channel::raw_receiver_len;
use crate::channel::raw_try_recv;

verus! {

/// Error returned by a receive when the channel is closed and fully drained.
#[derive(Clone, Copy, Debug, PartialEq, Eq, Structural)]
pub struct RecvError;

/// What the channel's non-blocking receive attempt reported.
#[derive(Debug, PartialEq, Eq)]
pub enum TryRecvOutcome<T> {
    /// A message was immediately available.
    Msg(T),
    /// The channel is open but currently holds no message.
    Empty,
    /// The channel is closed and fully drained.
    Closed,
}

/// What the channel's real waiting receive reported after the blind sleep.
#[derive(Debug, PartialEq, Eq)]
pub enum WaitRecvOutcome<T> {
    /// A message arrived (or was already there after the sleep).
    Msg(T),
    /// The channel is closed and fully drained.
    Closed,
}

/// What the backoff policy tells the driver to do after the fast path.
#[derive(Debug, PartialEq, Eq)]
pub enum RecvAction<T> {
    /// Return the message at once; no sleep, no wait.
    Deliver(T),
    /// Return the closed error at once; no sleep, no wait.
    FailClosed,
    /// Sleep blindly for the relaxation duration, then do a real waiting
    /// receive.
    RelaxThenWait,
}

/// The decision the policy takes for each fast-path outcome.
pub open spec fn recv_action_of<T>(o: TryRecvOutcome<T>) -> RecvAction<T> {
    match o {
        TryRecvOutcome::Msg(m) => RecvAction::Deliver(m),
        TryRecvOutcome::Empty => RecvAction::RelaxThenWait,
        TryRecvOutcome::Closed => RecvAction::FailClosed,
    }
}

/// How a wait-path outcome becomes the call's result.
pub open spec fn recv_wait_result<T>(o: WaitRecvOutcome<T>) -> Result<T, RecvError> {
    match o {
        WaitRecvOutcome::Msg(m) => Ok(m),
        WaitRecvOutcome::Closed => Err(RecvError),
    }
}

/// The result of one whole receive call, given the fast-path outcome and
/// the wait-path outcome. The wait path is consulted only when the fast
/// path observed an empty channel.
pub open spec fn recv_call_result<T>(t: TryRecvOutcome<T>, w: WaitRecvOutcome<T>) -> Result<
    T,
    RecvError,
> {
    match t {
        TryRecvOutcome::Msg(m) => Ok(m),
        TryRecvOutcome::Empty => recv_wait_result(w),
        TryRecvOutcome::Closed => Err(RecvError),
    }
}

/// Whether a call whose fast path saw this outcome sleeps for the
/// relaxation duration.
pub open spec fn recv_call_relaxes<T>(t: TryRecvOutcome<T>) -> bool {
    t is Empty
}

/// Applies the backoff policy to the fast-path outcome.
pub fn recv_on_try<T>(o: TryRecvOutcome<T>) -> (a: RecvAction<T>)
    ensures
        a == recv_action_of(o),
{
    match o {
        TryRecvOutcome::Msg(m) => RecvAction::Deliver(m),
        TryRecvOutcome::Empty => RecvAction::RelaxThenWait,
        TryRecvOutcome::Closed => RecvAction::FailClosed,
    }
}

/// Turns the wait-path outcome into the call's result.
pub fn recv_on_wait<T>(o: WaitRecvOutcome<T>) -> (r: Result<T, RecvError>)
    ensures
        r == recv_wait_result(o),
{
    match o {
        WaitRecvOutcome::Msg(m) => Ok(m),
        WaitRecvOutcome::Closed => Err(RecvError),
    }
}

/// A closed, drained channel is detected on the fast path: the call fails
/// with the closed error at once, and never sleeps, whatever the wait path
/// would have reported.
pub proof fn lemma_closed_detected_without_relaxing<T>(w: WaitRecvOutcome<T>)
    ensures
        recv_call_result(TryRecvOutcome::<T>::Closed, w) == Err::<T, RecvError>(RecvError),
        !recv_call_relaxes(TryRecvOutcome::<T>::Closed),
        recv_action_of(TryRecvOutcome::<T>::Closed) == RecvAction::<T>::FailClosed,
{
}

/// Once the fast path observes an empty channel the call is committed to
/// the blind sleep: the policy orders a relax-then-wait, and the call's
/// result is exactly what the wait path reports after the sleep.
pub proof fn lemma_empty_commits_to_relaxing<T>(w: WaitRecvOutcome<T>)
    ensures
        recv_call_relaxes(TryRecvOutcome::<T>::Empty),
        recv_action_of(TryRecvOutcome::<T>::Empty) == RecvAction::<T>::RelaxThenWait,
        recv_call_result(TryRecvOutcome::<T>::Empty, w) == recv_wait_result(w),
{
}

/// The layer never invents, drops or alters a message: a call delivers m
/// exactly when the channel itself handed m over, on the fast path or on
/// the wait path.
pub proof fn lemma_recv_delivers_unaltered<T>(t: TryRecvOutcome<T>, w: WaitRecvOutcome<T>, m: T)
    ensures
        recv_call_result(t, w) == Ok::<T, RecvError>(m) <==> (t == TryRecvOutcome::Msg(m) || (
        t is Empty && w == WaitRecvOutcome::Msg(m))),
{
}

/// A call fails exactly when the channel reported closed-and-drained, on
/// the fast path or on the wait path.
pub proof fn lemma_recv_fails_only_when_closed<T>(t: TryRecvOutcome<T>, w: WaitRecvOutcome<T>)
    ensures
        recv_call_result(t, w) == Err::<T, RecvError>(RecvError) <==> (t is Closed || (t is Empty
            && w is Closed)),
{
}

/// A consuming endpoint that applies the backoff policy when the channel
/// appears empty.
///
/// Duplicates obtained by cloning share the underlying channel and compete
/// for its messages: each message goes to exactly one receive call. The
/// relaxation duration is fixed at construction and copied into each
/// duplicate.
#[derive(Debug)]
#[verifier::reject_recursive_types(T)]
pub struct RelaxedReceiver<T> {
    receiver: async_channel::Receiver<T>,
    relax_ms: u64,
    cap: Option<usize>,
}

impl<T> RelaxedReceiver<T> {
    /// The relaxation duration of this endpoint, in milliseconds.
    pub closed spec fn spec_relaxes_for(self) -> u64 {
        self.relax_ms
    }

    /// The capacity this endpoint reports: the capacity a bounded channel
    /// was configured with, absent for an unbounded channel.
    pub closed spec fn spec_capacity(self) -> Option<usize> {
        self.cap
    }

    /// The wrapped raw endpoint.
    pub closed spec fn spec_inner(self) -> async_channel::Receiver<T> {
        self.receiver
    }

    /// Wraps a raw receiving endpoint with the default relaxation duration.
    pub fn new(receiver: async_channel::Receiver<T>) -> (r: Self)
        ensures
            r.spec_relaxes_for() == crate::DEFAULT_RELAX_MS,
            r.spec_inner() == receiver,
    {
        Self::relaxing_for(receiver, crate::DEFAULT_RELAX_MS)
    }

    /// Wraps a raw receiving endpoint with a chosen relaxation duration,
    /// given in milliseconds. The capacity it will report is read off the
    /// channel once, here: the channel's capacity never changes.
    pub fn relaxing_for(receiver: async_channel::Receiver<T>, relax_ms: u64) -> (r: Self)
        ensures
            r.spec_relaxes_for() == relax_ms,
            r.spec_inner() == receiver,
    {
        let cap = raw_receiver_capacity(&receiver);
        RelaxedReceiver { receiver, relax_ms, cap }
    }

    /// Wraps an endpoint whose channel capacity the caller has configured
    /// itself, so no channel call is needed to learn it.
    pub(crate) fn wrap_parts(
        receiver: async_channel::Receiver<T>,
        relax_ms: u64,
        cap: Option<usize>,
    ) -> (r: Self)
        ensures
            r.spec_relaxes_for() == relax_ms,
            r.spec_capacity() == cap,
            r.spec_inner() == receiver,
    {
        RelaxedReceiver { receiver, relax_ms, cap }
    }

    /// The relaxation duration of this endpoint, in milliseconds.
    pub fn relaxes_for(&self) -> (ms: u64)
        ensures
            ms == self.spec_relaxes_for(),
    {
        self.relax_ms
    }

    /// Performs the fast path of a receive: the non-blocking attempt, fed
    /// to the backoff policy. The action only tells the driver what to do
    /// next; which action comes back depends on what concurrent endpoints
    /// did a moment earlier, so nothing is promised of it. What each
    /// action means for each possible outcome is the contract of
    /// [`recv_on_try`].
    pub fn fast_path(&self) -> RecvAction<T> {
        recv_on_try(raw_try_recv(&self.receiver))
    }

    /// The number of messages buffered in the channel at the moment of the
    /// call; concurrent endpoints change it at will.
    pub fn len(&self) -> usize {
        raw_receiver_len(&self.receiver)
    }

    /// The capacity of the channel: the value a bounded channel was
    /// configured with, absent for an unbounded channel.
    pub fn capacity(&self) -> (c: Option<usize>)
        ensures
            c == self.spec_capacity(),
    {
        self.cap
    }

    /// Gives back the wrapped raw endpoint, consuming the wrapper.
    pub fn into_inner(self) -> (r: async_channel::Receiver<T>)
        ensures
            r == self.spec_inner(),
    {
        self.receiver
    }

    /// A reference to the wrapped raw endpoint, for operations this layer
    /// does not cover.
    pub fn inner(&self) -> (r: &async_channel::Receiver<T>)
        ensures
            *r == self.spec_inner(),
    {
        &self.receiver
    }
}

impl<T> Clone for RelaxedReceiver<T> {
    /// A duplicate endpoint: it consumes from the same channel, competing
    /// for its messages, and copies the relaxation duration and reported
    /// capacity.
    fn clone(&self) -> (r: Self)
        ensures
            r.spec_relaxes_for() == self.spec_relaxes_for(),
            r.spec_capacity() == self.spec_capacity(),
    {
        RelaxedReceiver {
            receiver: raw_receiver_clone(&self.receiver),
            relax_ms: self.relax_ms,
            cap: self.cap,
        }
    }
}

/// How the lazy sequence view reacts to one receive result: a message is
/// yielded, the closed error ends the sequence for good.
pub open spec fn stream_step<T>(r: Result<T, RecvError>) -> Option<T> {
    match r {
        Ok(m) => Some(m),
        Err(_) => None,
    }
}

/// One step of the lazy sequence view over this receiver's results.
pub fn stream_next<T>(r: Result<T, RecvError>) -> (o: Option<T>)
    ensures
        o == stream_step(r),
{
    match r {
        Ok(m) => Some(m),
        Err(_) => None,
    }
}

/// The items the lazy sequence view yields, given the results of the
/// successive receive calls that back it: every message up to the first
/// closed error, and nothing from there on.
pub open spec fn stream_items<T>(rs: Seq<Result<T, RecvError>>) -> Seq<T>
    decreases rs.len(),
{
    if rs.len() == 0 {
        Seq::empty()
    } else {
        match rs[0] {
            Ok(m) => seq![m] + stream_items(rs.drop_first()),
            Err(_) => Seq::empty(),
        }
    }
}

/// The lazy sequence view terminates exactly at the channel's closing: it
/// yields every message received before the first closed error, in their
/// order and unaltered, and ends at that error.
pub proof fn lemma_stream_termination<T>(rs: Seq<Result<T, RecvError>>)
    ensures
        stream_items(rs).len() <= rs.len(),
        forall|i: int|
            0 <= i < stream_items(rs).len() ==> rs[i] == Ok::<T, RecvError>(
                #[trigger] stream_items(rs)[i],
            ),
        stream_items(rs).len() < rs.len() ==> rs[stream_items(rs).len() as int] is Err,
    decreases rs.len(),
{
    if rs.len() == 0 {
    } else {
        match rs[0] {
            Ok(m) => {
                lemma_stream_termination(rs.drop_first());
                let tail = stream_items(rs.drop_first());
                assert(stream_items(rs) == seq![m] + tail);
                assert forall|i: int| 0 <= i < stream_items(rs).len() implies rs[i] == Ok::<
                    T,
                    RecvError,
                >(#[trigger] stream_items(rs)[i]) by {
                    if i == 0 {
                        assert(stream_items(rs)[0] == m);
                    } else {
                        assert(stream_items(rs)[i] == tail[i - 1]);
                        assert(rs.drop_first()[i - 1] == rs[i]);
                    }
                }
                if stream_items(rs).len() < rs.len() {
                    assert(rs.drop_first()[tail.len() as int] == rs[stream_items(rs).len() as int]);
                }
            },
            Err(_) => {
            },
        }
    }
}

} // verus!
