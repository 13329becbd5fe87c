//! The buffered drain engine: the accumulation buffer and every decision
//! about it.

use crate::buffer::{as_slice, contents};
use crate::encoder::Encoder;
use crate::protocol::{
    close_step, drain_part, fits, flush_step, kept, CloseEvent, DrainError, FlushEvent, Reply,
    Step,
};
use bytes::BytesMut;
use vstd::prelude::*;

verus! {

/// The capacity that a new buffer is allocated with. It is a hint and no
/// bound: the buffer grows as items are submitted.
pub const INITIAL_CAPACITY: usize = 8224;

/// The engine: the wrapped value, and the bytes encoded but not yet taken by
/// the channel.
pub struct FramedWrite2<T> {
    pub inner: T,
    buffer: BytesMut,
}

impl<T> View for FramedWrite2<T> {
    type V = Seq<u8>;

    /// The pending bytes, in the order in which the channel will get them.
    closed spec fn view(&self) -> Seq<u8> {
        contents(self.buffer)
    }
}

impl<T> FramedWrite2<T> {
    /// The wrapped value.
    pub closed spec fn wrapped(&self) -> T {
        self.inner
    }
}

/// An engine around `inner` with nothing pending.
pub fn framed_write_2<T>(inner: T) -> (engine: FramedWrite2<T>)
    ensures
        engine.wrapped() == inner,
        engine@ == Seq::<u8>::empty(),
{
    FramedWrite2 { inner, buffer: BytesMut::with_capacity(INITIAL_CAPACITY) }
}

impl<T> FramedWrite2<T> {
    /// Gives the wrapped value back. What was still pending is dropped with
    /// the engine.
    pub fn release(self) -> (inner: T)
        ensures
            inner == self.wrapped(),
    {
        self.inner
    }

    /// The pending bytes: what a write is to offer to the channel.
    pub fn pending(&self) -> (bytes: &[u8])
        ensures
            bytes@ == self@,
    {
        as_slice(&self.buffer)
    }

    /// The wrapped value, to call on, together with the pending bytes, to
    /// offer to it.
    pub fn parts(&mut self) -> (parts: (&mut T, &[u8]))
        ensures
            *parts.0 == old(self).wrapped(),
            parts.1@ == old(self)@,
            final(self).wrapped() == *final(parts.0),
            final(self)@ == old(self)@,
    {
        (&mut self.inner, as_slice(&self.buffer))
    }

    /// The readiness check: a new item is accepted at any time, whatever is
    /// pending.
    pub fn poll_ready<C>(&self) -> (step: Step<C>)
        ensures
            step == Step::<C>::Finish(Ok(())),
    {
        Step::Finish(Ok(()))
    }

    /// One decision of the drain.
    ///
    /// Entered, or after a flush of the channel, the drain is over when
    /// nothing is pending, and asks for a write of the pending bytes
    /// otherwise. A write that took `n > 0` bytes removes exactly the first
    /// `n` pending bytes and asks for a flush of the channel. A write that
    /// took none ends the drain with `UnexpectedEndOfOutput`. A channel that
    /// was not ready suspends the drain, a channel that failed ends it with
    /// that failure; in all three the pending bytes stay as they are.
    pub fn poll_flush<C>(&mut self, event: FlushEvent<C>) -> (step: Step<C>)
        requires
            fits(old(self)@, event),
        ensures
            step == flush_step(old(self)@, event),
            final(self)@ == kept(old(self)@, event),
            final(self).wrapped() == old(self).wrapped(),
            step != Step::<C>::Close,
            event == FlushEvent::<C>::Write(Reply::Done(0)) ==> step == Step::<C>::Finish(
                Err(DrainError::UnexpectedEndOfOutput),
            ) && final(self)@ == old(self)@,
            step == Step::<C>::Finish(Ok(())) ==> final(self)@.len() == 0,
    {
        match event {
            FlushEvent::Write(Reply::NotReady) | FlushEvent::Flush(Reply::NotReady) => Step::Suspend,
            FlushEvent::Write(Reply::Failed(e)) | FlushEvent::Flush(Reply::Failed(e)) => {
                Step::Finish(Err(DrainError::Channel(e)))
            },
            FlushEvent::Write(Reply::Done(n)) => {
                if n == 0 {
                    Step::Finish(Err(DrainError::UnexpectedEndOfOutput))
                } else {
                    let _ = self.buffer.split_to(n);
                    Step::Flush
                }
            },
            FlushEvent::Enter | FlushEvent::Flush(Reply::Done(_)) => {
                if self.buffer.is_empty() {
                    Step::Finish(Ok(()))
                } else {
                    Step::Write
                }
            },
        }
    }

    /// One decision of a close: the drain first, and the channel's close
    /// only once nothing is pending.
    pub fn poll_close<C>(&mut self, event: CloseEvent<C>) -> (step: Step<C>)
        requires
            fits(old(self)@, drain_part(event)),
        ensures
            step == close_step(old(self)@, event),
            final(self)@ == kept(old(self)@, drain_part(event)),
            final(self).wrapped() == old(self).wrapped(),
            step == Step::<C>::Close ==> final(self)@.len() == 0,
            event is Drain && old(self)@.len() > 0 ==> step != Step::<C>::Finish(Ok(())),
    {
        match event {
            CloseEvent::Drain(e) => match self.poll_flush(e) {
                Step::Finish(Ok(_)) => Step::Close,
                other => other,
            },
            CloseEvent::Close(Reply::NotReady) => Step::Suspend,
            CloseEvent::Close(Reply::Failed(e)) => Step::Finish(Err(DrainError::Channel(e))),
            CloseEvent::Close(Reply::Done(_)) => Step::Finish(Ok(())),
        }
    }
}

impl<T: Encoder> FramedWrite2<T> {
    /// Submits one item: the encoder appends its bytes behind what is
    /// pending. Where the encoder rejects the item, its error comes back as
    /// it is; what was pending before is still pending, in front, and the
    /// encoder may have left part of the item behind it.
    pub fn start_send(&mut self, item: T::Item) -> (r: Result<(), T::Error>)
        ensures
            old(self).wrapped().keeps(&final(self).wrapped()),
            old(self)@.is_prefix_of(final(self)@),
            r is Ok ==> final(self)@ == old(self)@ + old(self).wrapped().frame(item),
    {
        self.inner.encode(item, &mut self.buffer)
    }
}

} // verus!
