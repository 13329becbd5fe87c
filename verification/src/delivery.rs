//! What reaches the channel over a whole run of the sink: every byte that was
//! submitted, once, in the order of submission.
//!
//! A run is a sequence of operations on the pending bytes: an item is
//! submitted, or the channel answers during a drain. The functions here
//! follow a run with the same spec functions that the contracts of
//! `start_send`, `poll_flush` and `poll_close` are stated with, and the proof
//! functions say what holds of every run.

use crate::protocol::{fits, flush_step, kept, taken, FlushEvent, Reply, Step};
use vstd::prelude::*;

verus! {

/// One operation of a run.
pub enum Op<C> {
    /// An item was accepted; these are the bytes that its encoder appended.
    Submit(Seq<u8>),
    /// The channel answered, during a flush or during the drain of a close.
    Report(FlushEvent<C>),
}

/// Whether an operation can follow on the pending bytes.
pub open spec fn admits<C>(pending: Seq<u8>, op: Op<C>) -> bool {
    match op {
        Op::Submit(_) => true,
        Op::Report(event) => fits(pending, event),
    }
}

/// The pending bytes after an operation.
pub open spec fn pending_after<C>(pending: Seq<u8>, op: Op<C>) -> Seq<u8> {
    match op {
        Op::Submit(frame) => pending + frame,
        Op::Report(event) => kept(pending, event),
    }
}

/// The bytes that the channel took with an operation.
pub open spec fn delivered_by<C>(pending: Seq<u8>, op: Op<C>) -> Seq<u8> {
    match op {
        Op::Submit(_) => Seq::empty(),
        Op::Report(event) => taken(pending, event),
    }
}

/// Whether an operation is a write that took at least one byte.
pub open spec fn advances<C>(op: Op<C>) -> bool {
    match op {
        Op::Report(FlushEvent::Write(Reply::Done(n))) => n > 0,
        _ => false,
    }
}

/// Whether every operation of a run can follow on what is pending when it
/// comes.
pub open spec fn run_admitted<C>(pending: Seq<u8>, ops: Seq<Op<C>>) -> bool
    decreases ops.len(),
{
    ops.len() == 0 || (admits(pending, ops[0]) && run_admitted(
        pending_after(pending, ops[0]),
        ops.drop_first(),
    ))
}

/// The pending bytes at the end of a run.
pub open spec fn run_pending<C>(pending: Seq<u8>, ops: Seq<Op<C>>) -> Seq<u8>
    decreases ops.len(),
{
    if ops.len() == 0 {
        pending
    } else {
        run_pending(pending_after(pending, ops[0]), ops.drop_first())
    }
}

/// All bytes that the channel took during a run, in the order in which it
/// took them.
pub open spec fn run_delivered<C>(pending: Seq<u8>, ops: Seq<Op<C>>) -> Seq<u8>
    decreases ops.len(),
{
    if ops.len() == 0 {
        Seq::empty()
    } else {
        delivered_by(pending, ops[0]) + run_delivered(
            pending_after(pending, ops[0]),
            ops.drop_first(),
        )
    }
}

/// The bytes of all items submitted during a run, item after item in the
/// order of submission.
pub open spec fn run_submitted<C>(ops: Seq<Op<C>>) -> Seq<u8>
    decreases ops.len(),
{
    if ops.len() == 0 {
        Seq::empty()
    } else {
        match ops[0] {
            Op::Submit(frame) => frame + run_submitted(ops.drop_first()),
            Op::Report(_) => run_submitted(ops.drop_first()),
        }
    }
}

/// The number of writes of a run that took at least one byte.
pub open spec fn run_advances<C>(ops: Seq<Op<C>>) -> nat
    decreases ops.len(),
{
    if ops.len() == 0 {
        0
    } else if advances(ops[0]) {
        1 + run_advances(ops.drop_first())
    } else {
        run_advances(ops.drop_first())
    }
}

/// The run in which each of `events` is reported in turn and nothing is
/// submitted.
pub open spec fn reports<C>(events: Seq<FlushEvent<C>>) -> Seq<Op<C>> {
    Seq::new(events.len(), |i: int| Op::Report(events[i]))
}

/// An operation loses nothing and repeats nothing: what the channel took,
/// followed by what is pending afterwards, is what was pending before
/// followed by what was submitted.
pub proof fn lemma_op_keeps_stream<C>(pending: Seq<u8>, op: Op<C>)
    requires
        admits(pending, op),
    ensures
        delivered_by(pending, op) + pending_after(pending, op) == pending + match op {
            Op::Submit(frame) => frame,
            Op::Report(_) => Seq::empty(),
        },
{
    match op {
        Op::Submit(frame) => {
            assert(Seq::<u8>::empty() + (pending + frame) =~= pending + frame);
        },
        Op::Report(FlushEvent::Write(Reply::Done(n))) => {
            assert(pending.take(n as int) + pending.skip(n as int) =~= pending + Seq::<
                u8,
            >::empty());
        },
        Op::Report(_) => {
            assert(Seq::<u8>::empty() + pending =~= pending + Seq::<u8>::empty());
        },
    }
}

/// No loss, no repetition, no reordering, over any run: the bytes that the
/// channel took, followed by the bytes still pending, are the bytes pending
/// at the start followed by the bytes of all submitted items in the order of
/// submission. Suspensions and failures in between change nothing of it.
pub proof fn lemma_stream_kept<C>(pending: Seq<u8>, ops: Seq<Op<C>>)
    requires
        run_admitted(pending, ops),
    ensures
        run_delivered(pending, ops) + run_pending(pending, ops) == pending + run_submitted(ops),
    decreases ops.len(),
{
    if ops.len() == 0 {
        assert(Seq::<u8>::empty() + pending =~= pending + Seq::<u8>::empty());
    } else {
        let op = ops[0];
        let next = pending_after(pending, op);
        let tail = ops.drop_first();
        lemma_op_keeps_stream(pending, op);
        lemma_stream_kept(next, tail);
        let step = delivered_by(pending, op);
        let added = match op {
            Op::Submit(frame) => frame,
            Op::Report(_) => Seq::empty(),
        };
        assert(run_submitted(ops) =~= added + run_submitted(tail));
        assert(run_delivered(pending, ops) + run_pending(pending, ops) =~= step + (
        run_delivered(next, tail) + run_pending(next, tail)));
        assert(step + (next + run_submitted(tail)) =~= (step + next) + run_submitted(tail));
        assert((pending + added) + run_submitted(tail) =~= pending + (added + run_submitted(
            tail,
        )));
    }
}

/// Every submitted item reaches the channel: where a run starts with nothing
/// pending and ends with nothing pending, the channel took exactly the bytes
/// of the submitted items, item after item in the order of submission.
pub proof fn lemma_no_loss<C>(ops: Seq<Op<C>>)
    requires
        run_admitted(Seq::<u8>::empty(), ops),
        run_pending(Seq::<u8>::empty(), ops).len() == 0,
    ensures
        run_delivered(Seq::<u8>::empty(), ops) == run_submitted(ops),
{
    lemma_stream_kept(Seq::<u8>::empty(), ops);
    assert(run_delivered(Seq::<u8>::empty(), ops) + run_pending(Seq::<u8>::empty(), ops)
        =~= run_delivered(Seq::<u8>::empty(), ops));
    assert(Seq::<u8>::empty() + run_submitted(ops) =~= run_submitted(ops));
}

/// At every point of a run, what the channel has taken so far is the front
/// of the stream: of the bytes pending at the start followed by the bytes of
/// the submitted items.
pub proof fn lemma_delivered_is_front<C>(pending: Seq<u8>, ops: Seq<Op<C>>)
    requires
        run_admitted(pending, ops),
    ensures
        run_delivered(pending, ops).is_prefix_of(pending + run_submitted(ops)),
{
    lemma_stream_kept(pending, ops);
    let sent = run_delivered(pending, ops);
    let rest = run_pending(pending, ops);
    assert((sent + rest).subrange(0, sent.len() as int) =~= sent);
}

/// Every write that takes at least one byte shortens what is pending: the
/// number of such writes in a run is at most the number of bytes that the
/// channel took.
pub proof fn lemma_advances_bounded<C>(pending: Seq<u8>, ops: Seq<Op<C>>)
    requires
        run_admitted(pending, ops),
    ensures
        run_advances(ops) <= run_delivered(pending, ops).len(),
    decreases ops.len(),
{
    if ops.len() > 0 {
        lemma_advances_bounded(pending_after(pending, ops[0]), ops.drop_first());
    }
}

/// A run of reports submits nothing.
pub proof fn lemma_reports_submit_nothing<C>(events: Seq<FlushEvent<C>>)
    ensures
        run_submitted(reports(events)) == Seq::<u8>::empty(),
    decreases events.len(),
{
    if events.len() > 0 {
        lemma_reports_submit_nothing(events.drop_first());
        assert(reports(events).drop_first() =~= reports(events.drop_first()));
    }
}

/// Partial writes lose nothing and come to an end: however the channel cuts
/// the pending bytes into writes, and however often it is not ready in
/// between, what it took followed by what is still pending is what was
/// pending at the start; and once as many writes have taken at least one
/// byte as there were bytes pending, all of them are delivered and none is
/// pending.
pub proof fn lemma_partial_writes_deliver<C>(pending: Seq<u8>, events: Seq<FlushEvent<C>>)
    requires
        run_admitted(pending, reports(events)),
    ensures
        run_delivered(pending, reports(events)) + run_pending(pending, reports(events))
            == pending,
        run_advances(reports(events)) <= pending.len(),
        run_advances(reports(events)) == pending.len() ==> run_delivered(
            pending,
            reports(events),
        ) == pending && run_pending(pending, reports(events)).len() == 0,
{
    let ops = reports(events);
    lemma_stream_kept(pending, ops);
    lemma_advances_bounded(pending, ops);
    lemma_reports_submit_nothing(events);
    assert(pending + Seq::<u8>::empty() =~= pending);
    let sent = run_delivered(pending, ops);
    let rest = run_pending(pending, ops);
    assert((sent + rest).len() == sent.len() + rest.len());
    if run_advances(ops) == pending.len() {
        assert(rest.len() == 0);
        assert(sent + rest =~= sent);
    }
}

/// While bytes are pending a drain does not end in success: entered, or
/// after a flush of the channel, it asks for a write.
pub proof fn lemma_drain_goes_on<C>(pending: Seq<u8>, event: FlushEvent<C>)
    requires
        pending.len() > 0,
        event is Enter || event == FlushEvent::<C>::Flush(Reply::Done(())),
    ensures
        flush_step(pending, event) == Step::<C>::Write,
{
}

/// Order is kept: where `a` is submitted, then `b`, and then the channel
/// answers until nothing is pending, the channel took the bytes of `a`
/// immediately followed by the bytes of `b`.
pub proof fn lemma_order_kept<C>(a: Seq<u8>, b: Seq<u8>, events: Seq<FlushEvent<C>>)
    requires
        run_admitted(a + b, reports(events)),
        run_pending(a + b, reports(events)).len() == 0,
    ensures
        pending_after(pending_after(Seq::<u8>::empty(), Op::<C>::Submit(a)), Op::<C>::Submit(b))
            == a + b,
        run_delivered(a + b, reports(events)) == a + b,
        run_delivered(a + b, reports(events)).take(a.len() as int) == a,
        run_delivered(a + b, reports(events)).skip(a.len() as int) == b,
{
    lemma_partial_writes_deliver(a + b, events);
    let sent = run_delivered(a + b, reports(events));
    let rest = run_pending(a + b, reports(events));
    assert(sent + rest =~= sent);
    assert((Seq::<u8>::empty() + a) + b =~= a + b);
    assert((a + b).take(a.len() as int) =~= a);
    assert((a + b).skip(a.len() as int) =~= b);
}

} // verus!
