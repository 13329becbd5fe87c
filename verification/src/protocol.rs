//! The vocabulary between the library and whoever drives the output channel,
//! and the decision tables of the two operations that touch the channel.
//!
//! The library never calls the channel. It answers each event with a
//! [`Step`]; the driver performs the step on the channel and reports what
//! came back as the next event.

use vstd::prelude::*;

verus! {

/// What the output channel answered to one call.
#[derive(Debug, PartialEq, Eq)]
pub enum Reply<V, C> {
    /// The channel was not ready and made no progress.
    NotReady,
    /// The channel failed.
    Failed(C),
    /// The call went through, with this value.
    Done(V),
}

/// Why draining or closing ended in failure.
#[derive(Debug, PartialEq, Eq)]
pub enum DrainError<C> {
    /// The channel failed during a write, a flush or a close.
    Channel(C),
    /// The channel took no byte of a write although bytes were pending.
    UnexpectedEndOfOutput,
}

/// What the driver has to report while the buffer is drained.
#[derive(Debug, PartialEq, Eq)]
pub enum FlushEvent<C> {
    /// The operation is entered, for the first time or after a suspension.
    Enter,
    /// The channel's answer to the write of the pending bytes: how many of
    /// them it took, from the front.
    Write(Reply<usize, C>),
    /// The channel's answer to its own flush.
    Flush(Reply<(), C>),
}

/// What the driver has to report while the sink is closed.
#[derive(Debug, PartialEq, Eq)]
pub enum CloseEvent<C> {
    /// An event of the drain that comes first.
    Drain(FlushEvent<C>),
    /// The channel's answer to its own close.
    Close(Reply<(), C>),
}

/// What the driver does next.
#[derive(Debug, PartialEq, Eq)]
pub enum Step<C> {
    /// Offer all pending bytes to the channel's write, and report the
    /// answer as [`FlushEvent::Write`].
    Write,
    /// Call the channel's flush, and report the answer as
    /// [`FlushEvent::Flush`].
    Flush,
    /// Call the channel's close, and report the answer as
    /// [`CloseEvent::Close`].
    Close,
    /// Nothing more can be done now: enter the operation again later.
    Suspend,
    /// The operation is over, with this result.
    Finish(Result<(), DrainError<C>>),
}

/// The decision at the head of the drain loop: done when nothing is pending,
/// a write otherwise.
pub open spec fn drain_head<C>(pending: Seq<u8>) -> Step<C> {
    if pending.len() == 0 {
        Step::Finish(Ok(()))
    } else {
        Step::Write
    }
}

/// The step that answers an event of the drain, given the pending bytes
/// before the event.
pub open spec fn flush_step<C>(pending: Seq<u8>, event: FlushEvent<C>) -> Step<C> {
    match event {
        FlushEvent::Enter => drain_head(pending),
        FlushEvent::Write(Reply::NotReady) => Step::Suspend,
        FlushEvent::Write(Reply::Failed(e)) => Step::Finish(Err(DrainError::Channel(e))),
        FlushEvent::Write(Reply::Done(n)) => if n == 0 {
            Step::Finish(Err(DrainError::UnexpectedEndOfOutput))
        } else {
            Step::Flush
        },
        FlushEvent::Flush(Reply::NotReady) => Step::Suspend,
        FlushEvent::Flush(Reply::Failed(e)) => Step::Finish(Err(DrainError::Channel(e))),
        FlushEvent::Flush(Reply::Done(_)) => drain_head(pending),
    }
}

/// The bytes that the channel took with an event: the first `n` of the
/// pending bytes for a write that took `n`, none for any other event.
pub open spec fn taken<C>(pending: Seq<u8>, event: FlushEvent<C>) -> Seq<u8> {
    match event {
        FlushEvent::Write(Reply::Done(n)) => pending.take(n as int),
        _ => Seq::empty(),
    }
}

/// The bytes that stay pending after an event: those behind the first `n`
/// for a write that took `n`, all of them for any other event.
pub open spec fn kept<C>(pending: Seq<u8>, event: FlushEvent<C>) -> Seq<u8> {
    match event {
        FlushEvent::Write(Reply::Done(n)) => pending.skip(n as int),
        _ => pending,
    }
}

/// Whether an event can follow on the pending bytes: a channel takes no more
/// bytes than it was offered.
pub open spec fn fits<C>(pending: Seq<u8>, event: FlushEvent<C>) -> bool {
    match event {
        FlushEvent::Write(Reply::Done(n)) => n <= pending.len(),
        _ => true,
    }
}

/// The drain event inside a close event, if there is one.
pub open spec fn drain_part<C>(event: CloseEvent<C>) -> FlushEvent<C> {
    match event {
        CloseEvent::Drain(e) => e,
        CloseEvent::Close(_) => FlushEvent::Enter,
    }
}

/// The step that answers an event of a close, given the pending bytes
/// before the event. The drain comes first; where the drain would finish
/// with success, the channel's close is asked for instead.
pub open spec fn close_step<C>(pending: Seq<u8>, event: CloseEvent<C>) -> Step<C> {
    match event {
        CloseEvent::Drain(e) => match flush_step(pending, e) {
            Step::Finish(Ok(_)) => Step::Close,
            other => other,
        },
        CloseEvent::Close(Reply::NotReady) => Step::Suspend,
        CloseEvent::Close(Reply::Failed(e)) => Step::Finish(Err(DrainError::Channel(e))),
        CloseEvent::Close(Reply::Done(_)) => Step::Finish(Ok(())),
    }
}

} // verus!
