use bytes::BytesMut;
use framed_sink::encoder::Encoder;
use framed_sink::engine::{framed_write_2, FramedWrite2, INITIAL_CAPACITY};
use framed_sink::framed::FramedWrite;
use framed_sink::fuse::Fuse;
use framed_sink::protocol::{CloseEvent, DrainError, FlushEvent, Reply, Step};

/// Encodes a byte vector as it is.
struct Raw;

impl Encoder for Raw {
    type Item = Vec<u8>;
    type Error = &'static str;

    fn encode(&mut self, item: Vec<u8>, dst: &mut BytesMut) -> Result<(), &'static str> {
        dst.extend_from_slice(&item);
        Ok(())
    }
}

/// Encodes a byte vector as it is, but rejects an empty one.
struct Picky;

impl Encoder for Picky {
    type Item = Vec<u8>;
    type Error = &'static str;

    fn encode(&mut self, item: Vec<u8>, dst: &mut BytesMut) -> Result<(), &'static str> {
        if item.is_empty() {
            return Err("empty");
        }
        dst.extend_from_slice(&item);
        Ok(())
    }
}

/// Appends the first half of an item and then rejects it.
struct Halfway;

impl Encoder for Halfway {
    type Item = Vec<u8>;
    type Error = usize;

    fn encode(&mut self, item: Vec<u8>, dst: &mut BytesMut) -> Result<(), usize> {
        dst.extend_from_slice(&item[..item.len() / 2]);
        Err(item.len())
    }
}

/// A destination that takes at most `chunk` bytes with each write.
struct Chunked {
    taken: Vec<u8>,
    chunk: usize,
    writes: usize,
    flushes: usize,
    closed: bool,
}

fn chunked(chunk: usize) -> Chunked {
    Chunked { taken: Vec::new(), chunk, writes: 0, flushes: 0, closed: false }
}

impl Chunked {
    fn write(&mut self, bytes: &[u8]) -> usize {
        let n = bytes.len().min(self.chunk);
        self.taken.extend_from_slice(&bytes[..n]);
        self.writes += 1;
        n
    }
}

fn perform<E>(engine: &mut FramedWrite2<Fuse<Chunked, E>>, step: Step<u8>) -> Option<CloseEvent<u8>> {
    match step {
        Step::Write => {
            let (fuse, bytes) = engine.parts();
            let n = fuse.0.write(bytes);
            Some(CloseEvent::Drain(FlushEvent::Write(Reply::Done(n))))
        }
        Step::Flush => {
            engine.inner.0.flushes += 1;
            Some(CloseEvent::Drain(FlushEvent::Flush(Reply::Done(()))))
        }
        Step::Close => {
            engine.inner.0.closed = true;
            Some(CloseEvent::Close(Reply::Done(())))
        }
        Step::Suspend | Step::Finish(_) => None,
    }
}

fn run_flush<E>(engine: &mut FramedWrite2<Fuse<Chunked, E>>) -> Step<u8> {
    let mut event = FlushEvent::Enter;
    loop {
        let step = engine.poll_flush(event);
        if let Step::Finish(result) = step {
            return Step::Finish(result);
        }
        match perform(engine, step) {
            Some(CloseEvent::Drain(next)) => event = next,
            Some(CloseEvent::Close(_)) => unreachable!(),
            None => return Step::Suspend,
        }
    }
}

fn run_close<E>(engine: &mut FramedWrite2<Fuse<Chunked, E>>) -> Step<u8> {
    let mut event = CloseEvent::Drain(FlushEvent::Enter);
    loop {
        let step = engine.poll_close(event);
        if let Step::Finish(result) = step {
            return Step::Finish(result);
        }
        match perform(engine, step) {
            Some(next) => event = next,
            None => return Step::Suspend,
        }
    }
}

#[test]
fn rejected_item_reports_the_encoders_error() {
    let mut engine = framed_write_2(Halfway);
    assert_eq!(engine.start_send(vec![1, 2, 3, 4]), Err(4));
}

#[test]
fn rejected_item_leaves_what_the_encoder_wrote_behind_what_was_pending() {
    let mut engine = framed_write_2(Halfway);
    assert_eq!(engine.start_send(vec![1, 2, 3, 4]), Err(4));
    assert_eq!(engine.pending(), &[1, 2]);
    assert_eq!(engine.start_send(vec![5, 6]), Err(2));
    assert_eq!(engine.pending(), &[1, 2, 5]);
}

#[test]
fn new_engine_has_nothing_pending() {
    assert_eq!(INITIAL_CAPACITY, 8224);
    let mut engine = framed_write_2(Raw);
    assert!(engine.pending().is_empty());
    assert_eq!(engine.poll_flush::<u8>(FlushEvent::Enter), Step::Finish(Ok(())));
    assert_eq!(engine.poll_close::<u8>(CloseEvent::Drain(FlushEvent::Enter)), Step::Close);
}

#[test]
fn release_hands_back_what_was_wrapped() {
    let engine = framed_write_2(41u32);
    assert_eq!(engine.release(), 41);
    let sink = FramedWrite::new("channel", 7u8);
    assert_eq!(sink.release(), ("channel", 7));
}

#[test]
fn ready_whatever_is_pending() {
    let mut engine = framed_write_2(Raw);
    assert_eq!(engine.poll_ready::<u8>(), Step::Finish(Ok(())));
    engine.start_send(vec![0; 100_000]).unwrap();
    assert_eq!(engine.poll_ready::<u8>(), Step::Finish(Ok(())));
    assert_eq!(engine.pending().len(), 100_000);
}

#[test]
fn submit_appends_in_order() {
    let mut engine = framed_write_2(Raw);
    engine.start_send(vec![1, 2, 3]).unwrap();
    assert_eq!(engine.pending(), &[1, 2, 3]);
    engine.start_send(vec![]).unwrap();
    engine.start_send(vec![4, 5]).unwrap();
    assert_eq!(engine.pending(), &[1, 2, 3, 4, 5]);
}

#[test]
fn write_removes_exactly_the_bytes_taken_from_the_front() {
    let mut engine = framed_write_2(Raw);
    engine.start_send(vec![10, 11, 12, 13, 14]).unwrap();
    assert_eq!(engine.poll_flush::<u8>(FlushEvent::Enter), Step::Write);
    assert_eq!(engine.poll_flush::<u8>(FlushEvent::Write(Reply::Done(2))), Step::Flush);
    assert_eq!(engine.pending(), &[12, 13, 14]);
    assert_eq!(engine.poll_flush::<u8>(FlushEvent::Flush(Reply::Done(()))), Step::Write);
    assert_eq!(engine.poll_flush::<u8>(FlushEvent::Write(Reply::Done(3))), Step::Flush);
    assert!(engine.pending().is_empty());
    assert_eq!(engine.poll_flush::<u8>(FlushEvent::Flush(Reply::Done(()))), Step::Finish(Ok(())));
}

#[test]
fn zero_write_ends_the_drain_and_keeps_the_buffer() {
    let mut engine = framed_write_2(Raw);
    engine.start_send(vec![1, 2, 3]).unwrap();
    assert_eq!(engine.poll_flush::<u8>(FlushEvent::Enter), Step::Write);
    assert_eq!(
        engine.poll_flush::<u8>(FlushEvent::Write(Reply::Done(0))),
        Step::Finish(Err(DrainError::UnexpectedEndOfOutput))
    );
    assert_eq!(engine.pending(), &[1, 2, 3]);
}

#[test]
fn channel_failure_is_handed_on_and_keeps_the_buffer() {
    let mut engine = framed_write_2(Raw);
    engine.start_send(vec![1, 2, 3]).unwrap();
    assert_eq!(
        engine.poll_flush(FlushEvent::Write(Reply::Failed("broken pipe"))),
        Step::Finish(Err(DrainError::Channel("broken pipe")))
    );
    assert_eq!(engine.pending(), &[1, 2, 3]);
    assert_eq!(engine.poll_flush::<&str>(FlushEvent::Write(Reply::Done(1))), Step::Flush);
    assert_eq!(
        engine.poll_flush(FlushEvent::Flush(Reply::Failed("reset"))),
        Step::Finish(Err(DrainError::Channel("reset")))
    );
    assert_eq!(engine.pending(), &[2, 3]);
    assert_eq!(
        engine.poll_close(CloseEvent::Close(Reply::Failed("gone"))),
        Step::Finish(Err(DrainError::Channel("gone")))
    );
    assert_eq!(
        engine.poll_close(CloseEvent::Drain(FlushEvent::Write(Reply::Failed("late")))),
        Step::Finish(Err(DrainError::Channel("late")))
    );
    assert_eq!(engine.pending(), &[2, 3]);
}

#[test]
fn suspension_keeps_the_buffer_and_the_drain_resumes_where_it_stopped() {
    let mut engine = framed_write_2(Raw);
    engine.start_send(vec![1, 2, 3, 4]).unwrap();
    assert_eq!(engine.poll_flush::<u8>(FlushEvent::Write(Reply::NotReady)), Step::Suspend);
    assert_eq!(engine.pending(), &[1, 2, 3, 4]);
    assert_eq!(engine.poll_flush::<u8>(FlushEvent::Enter), Step::Write);
    assert_eq!(engine.poll_flush::<u8>(FlushEvent::Write(Reply::Done(3))), Step::Flush);
    assert_eq!(engine.poll_flush::<u8>(FlushEvent::Flush(Reply::NotReady)), Step::Suspend);
    assert_eq!(engine.pending(), &[4]);
    assert_eq!(engine.poll_close::<u8>(CloseEvent::Drain(FlushEvent::Enter)), Step::Write);
    assert_eq!(
        engine.poll_close::<u8>(CloseEvent::Drain(FlushEvent::Write(Reply::Done(1)))),
        Step::Flush
    );
    assert_eq!(
        engine.poll_close::<u8>(CloseEvent::Drain(FlushEvent::Flush(Reply::Done(())))),
        Step::Close
    );
    assert_eq!(engine.poll_close::<u8>(CloseEvent::Close(Reply::NotReady)), Step::Suspend);
    assert_eq!(engine.poll_close::<u8>(CloseEvent::Drain(FlushEvent::Enter)), Step::Close);
    assert_eq!(engine.poll_close::<u8>(CloseEvent::Close(Reply::Done(()))), Step::Finish(Ok(())));
}

#[test]
fn partial_writes_deliver_everything_once() {
    let data: Vec<u8> = (0u8..=200).collect();
    for chunk in [1usize, 2, 3, 7, 64, 200, 201, 1000] {
        let mut engine = framed_write_2(Fuse(chunked(chunk), Raw));
        engine.start_send(data.clone()).unwrap();
        assert_eq!(run_flush(&mut engine), Step::Finish(Ok(())));
        assert!(engine.pending().is_empty());
        let Fuse(channel, _) = engine.release();
        assert_eq!(channel.taken, data);
        assert_eq!(channel.writes, (data.len() + chunk - 1) / chunk);
        assert_eq!(channel.flushes, channel.writes);
        assert!(!channel.closed);
    }
}

#[test]
fn items_reach_the_channel_in_the_order_of_submission() {
    let mut engine = framed_write_2(Fuse(chunked(4), Raw));
    engine.start_send(b"first,".to_vec()).unwrap();
    engine.start_send(b"second,".to_vec()).unwrap();
    assert_eq!(run_flush(&mut engine), Step::Finish(Ok(())));
    engine.start_send(b"third".to_vec()).unwrap();
    assert_eq!(run_close(&mut engine), Step::Finish(Ok(())));
    let Fuse(channel, _) = engine.release();
    assert_eq!(channel.taken, b"first,second,third");
    assert!(channel.closed);
}

#[test]
fn close_drains_before_it_closes() {
    let mut engine = framed_write_2(Fuse(chunked(2), Raw));
    engine.start_send(vec![1, 2, 3]).unwrap();
    let mut event = CloseEvent::Drain(FlushEvent::Enter);
    loop {
        let step = engine.poll_close(event);
        if step == Step::Close {
            assert!(engine.pending().is_empty());
            assert_eq!(engine.inner.0.taken, vec![1, 2, 3]);
        }
        if let Step::Finish(result) = step {
            assert_eq!(result, Ok(()));
            break;
        }
        event = perform(&mut engine, step).unwrap();
    }
    assert!(engine.inner.0.closed);
    assert_eq!(engine.inner.0.writes, 2);
}

#[test]
fn failed_submit_leaves_earlier_items_to_be_flushed() {
    let mut engine = framed_write_2(Fuse(chunked(3), Picky));
    engine.start_send(b"kept".to_vec()).unwrap();
    assert_eq!(engine.start_send(Vec::new()), Err("empty"));
    assert_eq!(engine.pending(), b"kept");
    assert!(engine.inner.0.taken.is_empty());
    assert_eq!(run_flush(&mut engine), Step::Finish(Ok(())));
    let Fuse(channel, _) = engine.release();
    assert_eq!(channel.taken, b"kept");
}

#[test]
fn zero_write_of_a_real_destination_ends_the_flush() {
    let mut engine = framed_write_2(Fuse(chunked(0), Raw));
    engine.start_send(vec![1, 2]).unwrap();
    assert_eq!(run_flush(&mut engine), Step::Finish(Err(DrainError::UnexpectedEndOfOutput)));
    assert_eq!(engine.pending(), &[1, 2]);
    assert_eq!(engine.inner.0.writes, 1);
    assert_eq!(engine.inner.0.flushes, 0);
    assert_eq!(run_close(&mut engine), Step::Finish(Err(DrainError::UnexpectedEndOfOutput)));
    assert!(!engine.inner.0.closed);
}

#[test]
fn adapter_takes_the_same_decisions_as_the_engine() {
    let mut sink = FramedWrite::new(chunked(3), Raw);
    assert_eq!(sink.poll_ready::<u8>(), Step::Finish(Ok(())));
    sink.start_send(vec![1, 2, 3, 4]).unwrap();
    assert_eq!(sink.poll_flush::<u8>(FlushEvent::Enter), Step::Write);
    let n = {
        let (channel, bytes) = sink.parts();
        channel.write(bytes)
    };
    assert_eq!(n, 3);
    assert_eq!(sink.poll_flush::<u8>(FlushEvent::Write(Reply::Done(n))), Step::Flush);
    assert_eq!(sink.pending(), &[4]);
    assert_eq!(
        sink.poll_flush::<u8>(FlushEvent::Write(Reply::Done(0))),
        Step::Finish(Err(DrainError::UnexpectedEndOfOutput))
    );
    assert_eq!(sink.pending(), &[4]);
    assert_eq!(sink.poll_close::<u8>(CloseEvent::Drain(FlushEvent::Enter)), Step::Write);
    assert_eq!(
        sink.poll_close::<u8>(CloseEvent::Drain(FlushEvent::Write(Reply::Done(1)))),
        Step::Flush
    );
    assert_eq!(
        sink.poll_close::<u8>(CloseEvent::Drain(FlushEvent::Flush(Reply::Done(())))),
        Step::Close
    );
    assert_eq!(sink.poll_close::<u8>(CloseEvent::Close(Reply::Done(()))), Step::Finish(Ok(())));
    let (channel, _) = sink.release();
    assert_eq!(channel.taken, vec![1, 2, 3]);
}

#[test]
fn bundle_encodes_with_its_encoder_and_leaves_the_channel() {
    let mut fuse = Fuse(5u8, Raw);
    let mut dst = BytesMut::new();
    dst.extend_from_slice(b"x");
    assert_eq!(fuse.encode(vec![b'y', b'z'], &mut dst), Ok(()));
    assert_eq!(&dst[..], b"xyz");
    assert_eq!(fuse.0, 5);
}
