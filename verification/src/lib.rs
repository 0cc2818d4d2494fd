//! An adaptive backoff layer over a multi-producer, multi-consumer channel.
//!
//! When a receiver finds the channel empty (or a sender finds it full), it
//! does not register for a wakeup at once: it first sleeps blindly for a
//! fixed relaxation duration and only then falls back to the channel's real
//! waiting operation. Each waiting side therefore has to be woken by the
//! other side at most once per relaxation window, which bounds the cost of
//! cross-task wakeups under heavy load, at the price of up to one relaxation
//! duration of extra latency whenever the fast path misses.
//!
//! The policy of a whole call — try without blocking; on a miss sleep
//! blindly, then wait for real; fail only on a closed, drained channel —
//! is decided by verified functions here. Driving a call through its
//! phases takes suspending a task or blocking a thread, which stays with
//! the caller: a driver performs each action the policy orders and feeds
//! the channel's outcomes back into it.

mod channel;
mod receiver;
mod sender;

pub use crate::receiver::RecvAction;
pub use crate::receiver::RecvError;
pub use crate::receiver::RelaxedReceiver;
pub use crate::receiver::TryRecvOutcome;
pub use crate::receiver::WaitRecvOutcome;
pub use crate::receiver::lemma_closed_detected_without_relaxing;
pub use crate::receiver::lemma_empty_commits_to_relaxing;
pub use crate::receiver::lemma_recv_delivers_unaltered;
pub use crate::receiver::lemma_recv_fails_only_when_closed;
pub use crate::receiver::lemma_stream_termination;
pub use crate::receiver::recv_action_of;
pub use crate::receiver::recv_call_relaxes;
pub use crate::receiver::recv_call_result;
pub use crate::receiver::recv_on_try;
pub use crate::receiver::recv_on_wait;
pub use crate::receiver::recv_wait_result;
pub use crate::receiver::stream_items;
pub use crate::receiver::stream_next;
pub use crate::receiver::stream_step;
pub use crate::sender::RelaxedSender;
pub use crate::sender::SendAction;
pub use crate::sender::SendError;
pub use crate::sender::TrySendOutcome;
pub use crate::sender::WaitSendOutcome;
pub use crate::sender::lemma_full_commits_to_relaxing;
pub use crate::sender::lemma_send_closed_detected_without_relaxing;
pub use crate::sender::lemma_send_returns_item_on_closed;
pub use crate::sender::lemma_send_succeeds_only_when_accepted;
pub use crate::sender::send_action_of;
pub use crate::sender::send_call_relaxes;
pub use crate::sender::send_call_result;
pub use crate::sender::send_on_try;
pub use crate::sender::send_on_wait;
pub use crate::sender::send_wait_result;

use vstd::prelude::*;

verus! {

/// The relaxation duration used when none is chosen, in milliseconds.
pub const DEFAULT_RELAX_MS: u64 = 100;

/// Builds a bounded channel of the given capacity and wraps both
/// endpoints with a chosen relaxation duration, given in milliseconds.
/// The underlying channel refuses a capacity of zero.
pub fn bounded_relaxing_for<T>(cap: usize, relax_ms: u64) -> (r: (
    RelaxedSender<T>,
    RelaxedReceiver<T>,
))
    requires
        1 <= cap,
    ensures
        r.0.spec_relaxes_for() == relax_ms,
        r.1.spec_relaxes_for() == relax_ms,
        r.0.spec_capacity() == Some(cap),
        r.1.spec_capacity() == Some(cap),
{
    let (s, rcv) = channel::raw_bounded::<T>(cap);
    (RelaxedSender::wrap_parts(s, relax_ms, Some(cap)), RelaxedReceiver::wrap_parts(
        rcv,
        relax_ms,
        Some(cap),
    ))
}

/// Builds a bounded channel of the given capacity and wraps both
/// endpoints with the default relaxation duration. The underlying channel
/// refuses a capacity of zero.
pub fn bounded<T>(cap: usize) -> (r: (RelaxedSender<T>, RelaxedReceiver<T>))
    requires
        1 <= cap,
    ensures
        r.0.spec_relaxes_for() == DEFAULT_RELAX_MS,
        r.1.spec_relaxes_for() == DEFAULT_RELAX_MS,
        r.0.spec_capacity() == Some(cap),
        r.1.spec_capacity() == Some(cap),
{
    bounded_relaxing_for(cap, DEFAULT_RELAX_MS)
}

/// Builds an unbounded channel and wraps its receiving endpoint with a
/// chosen relaxation duration, given in milliseconds. The sending
/// endpoint is returned raw: an unbounded channel is never full, so a
/// sender gains nothing from the backoff.
pub fn unbounded_relaxing_for<T>(relax_ms: u64) -> (r: (
    async_channel::Sender<T>,
    RelaxedReceiver<T>,
))
    ensures
        r.1.spec_relaxes_for() == relax_ms,
        r.1.spec_capacity() is None,
{
    let (s, rcv) = channel::raw_unbounded::<T>();
    (s, RelaxedReceiver::wrap_parts(rcv, relax_ms, None))
}

/// Builds an unbounded channel and wraps its receiving endpoint with the
/// default relaxation duration. The sending endpoint is returned raw: an
/// unbounded channel is never full, so a sender gains nothing from the
/// backoff.
pub fn unbounded<T>() -> (r: (async_channel::Sender<T>, RelaxedReceiver<T>))
    ensures
        r.1.spec_relaxes_for() == DEFAULT_RELAX_MS,
        r.1.spec_capacity() is None,
{
    unbounded_relaxing_for(DEFAULT_RELAX_MS)
}

} // verus!
