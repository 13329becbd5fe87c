//! The outer adapter: the sink as its users see it, over a channel and an
//! encoder given at construction and handed back on release.

use crate::encoder::Encoder;
use crate::engine::{framed_write_2, FramedWrite2};
use crate::fuse::Fuse;
use crate::protocol::{
    close_step, drain_part, fits, flush_step, kept, CloseEvent, DrainError, FlushEvent, Reply,
    Step,
};
use vstd::prelude::*;

verus! {

/// A sink of items, encoded by `E` and drained to the channel `T`. It adds
/// nothing to the engine it holds: every operation is the engine's.
pub struct FramedWrite<T, E> {
    inner: FramedWrite2<Fuse<T, E>>,
}

impl<T, E> View for FramedWrite<T, E> {
    type V = Seq<u8>;

    /// The pending bytes, in the order in which the channel will get them.
    closed spec fn view(&self) -> Seq<u8> {
        self.inner@
    }
}

impl<T, E> FramedWrite<T, E> {
    /// The output channel.
    pub closed spec fn channel(&self) -> T {
        self.inner.wrapped().0
    }

    /// The encoder.
    pub closed spec fn encoder(&self) -> E {
        self.inner.wrapped().1
    }

    /// A sink over `inner` and `encoder`, with nothing pending.
    pub fn new(inner: T, encoder: E) -> (sink: Self)
        ensures
            sink.channel() == inner,
            sink.encoder() == encoder,
            sink@ == Seq::<u8>::empty(),
    {
        Self { inner: framed_write_2(Fuse(inner, encoder)) }
    }

    /// Hands the channel and the encoder back. What was still pending is
    /// dropped with the sink.
    pub fn release(self) -> (pair: (T, E))
        ensures
            pair.0 == self.channel(),
            pair.1 == self.encoder(),
    {
        let fuse = self.inner.release();
        (fuse.0, fuse.1)
    }

    /// The pending bytes: what a write is to offer to the channel.
    pub fn pending(&self) -> (bytes: &[u8])
        ensures
            bytes@ == self@,
    {
        self.inner.pending()
    }

    /// The channel, to call on, together with the pending bytes, to offer to
    /// it.
    pub fn parts(&mut self) -> (parts: (&mut T, &[u8]))
        ensures
            *parts.0 == old(self).channel(),
            parts.1@ == old(self)@,
            final(self).channel() == *final(parts.0),
            final(self).encoder() == old(self).encoder(),
            final(self)@ == old(self)@,
    {
        let (fuse, bytes) = self.inner.parts();
        (&mut fuse.0, bytes)
    }

    /// The readiness check: a new item is accepted at any time.
    pub fn poll_ready<C>(&self) -> (step: Step<C>)
        ensures
            step == Step::<C>::Finish(Ok(())),
    {
        self.inner.poll_ready()
    }

    /// One decision of the drain: the engine's, unchanged.
    pub fn poll_flush<C>(&mut self, event: FlushEvent<C>) -> (step: Step<C>)
        requires
            fits(old(self)@, event),
        ensures
            step == flush_step(old(self)@, event),
            final(self)@ == kept(old(self)@, event),
            final(self).channel() == old(self).channel(),
            final(self).encoder() == old(self).encoder(),
            step != Step::<C>::Close,
            event == FlushEvent::<C>::Write(Reply::Done(0)) ==> step == Step::<C>::Finish(
                Err(DrainError::UnexpectedEndOfOutput),
            ) && final(self)@ == old(self)@,
            step == Step::<C>::Finish(Ok(())) ==> final(self)@.len() == 0,
    {
        self.inner.poll_flush(event)
    }

    /// One decision of a close: the engine's, unchanged.
    pub fn poll_close<C>(&mut self, event: CloseEvent<C>) -> (step: Step<C>)
        requires
            fits(old(self)@, drain_part(event)),
        ensures
            step == close_step(old(self)@, event),
            final(self)@ == kept(old(self)@, drain_part(event)),
            final(self).channel() == old(self).channel(),
            final(self).encoder() == old(self).encoder(),
            step == Step::<C>::Close ==> final(self)@.len() == 0,
            event is Drain && old(self)@.len() > 0 ==> step != Step::<C>::Finish(Ok(())),
    {
        self.inner.poll_close(event)
    }
}

impl<T, E: Encoder> FramedWrite<T, E> {
    /// Submits one item: the engine's submit, unchanged.
    pub fn start_send(&mut self, item: E::Item) -> (r: Result<(), E::Error>)
        ensures
            final(self).channel() == old(self).channel(),
            old(self).encoder().keeps(&final(self).encoder()),
            old(self)@.is_prefix_of(final(self)@),
            r is Ok ==> final(self)@ == old(self)@ + old(self).encoder().frame(item),
    {
        self.inner.start_send(item)
    }
}

} // verus!
