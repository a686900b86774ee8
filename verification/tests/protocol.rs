use stream_body::body::{PollOutcome, SizeHint, StreamBody};
use stream_body::data::StreamData;
use stream_body::state::State;

fn expect_chunk(r: PollOutcome) -> StreamData {
    match r {
        PollOutcome::Chunk(c) => c,
        _ => panic!("expected a chunk"),
    }
}

#[test]
fn empty_body_reports_end_of_stream() {
    let mut b: StreamBody<u32> = StreamBody::empty();
    assert!(b.is_end_stream());
    assert_eq!(b.size_hint(), SizeHint::Exact(0));
    assert!(matches!(b.poll_step(1), PollOutcome::EndOfStream));
    assert!(matches!(b.poll_step(2), PollOutcome::EndOfStream));
}

#[test]
fn empty_payload_is_idempotent() {
    let mut b: StreamBody<u32> = StreamBody::from_bytes(Vec::new());
    assert!(b.is_end_stream());
    assert_eq!(b.size_hint(), SizeHint::Exact(0));
    assert!(matches!(b.poll_step(1), PollOutcome::EndOfStream));
    assert!(matches!(b.poll_step(2), PollOutcome::EndOfStream));
}

#[test]
fn single_payload_emits_exactly_once() {
    let mut b: StreamBody<u32> = StreamBody::from_bytes(vec![0x01, 0x02, 0x03]);
    assert!(!b.is_end_stream());
    assert_eq!(b.size_hint(), SizeHint::Exact(3));
    let c = expect_chunk(b.poll_step(1));
    assert_eq!(c.remaining(), 3);
    assert_eq!(c.chunk(), &[0x01, 0x02, 0x03]);
    assert!(b.is_end_stream());
    let _ = b.release();
    assert!(matches!(b.poll_step(2), PollOutcome::EndOfStream));
    assert!(matches!(b.poll_step(3), PollOutcome::EndOfStream));
}

#[test]
fn no_new_chunk_while_one_is_outstanding() {
    let mut b: StreamBody<u32> = StreamBody::from_bytes(vec![9, 8, 7]);
    let c = expect_chunk(b.poll_step(1));
    assert_eq!(c.chunk(), &[9, 8, 7]);
    // The chunk has not been released: the poll suspends and records the
    // caller's waker instead of producing anything.
    assert!(matches!(b.poll_step(42), PollOutcome::Pending));
    assert!(matches!(b.poll_step(43), PollOutcome::Pending));
    let woken = b.release();
    assert_eq!(woken, Some(43));
    assert!(matches!(b.poll_step(44), PollOutcome::EndOfStream));
}

#[test]
fn channel_streams_hello_world_in_order() {
    let mut b: StreamBody<u32> = StreamBody::channel_with_capacity(16);
    assert_eq!(b.size_hint(), SizeHint::Unknown);
    let mut collected: Vec<u8> = Vec::new();

    assert!(matches!(b.poll_step(1), PollOutcome::NeedsRead));
    let c = expect_chunk(b.channel_read(b"hello"));
    assert_eq!(c.chunk(), b"hello");
    collected.extend_from_slice(c.chunk());
    let _ = b.release();

    assert!(matches!(b.poll_step(2), PollOutcome::NeedsRead));
    let c = expect_chunk(b.channel_read(b" world"));
    assert_eq!(c.chunk(), b" world");
    collected.extend_from_slice(c.chunk());
    let _ = b.release();

    assert!(matches!(b.poll_step(3), PollOutcome::NeedsRead));
    assert!(matches!(b.channel_read(b""), PollOutcome::EndOfStream));
    assert!(b.is_end_stream());
    assert!(matches!(b.poll_step(4), PollOutcome::EndOfStream));

    assert_eq!(collected, b"hello world");
}

#[test]
fn channel_refuses_refill_while_chunk_outstanding() {
    let mut b: StreamBody<u32> = StreamBody::channel_with_capacity(8);
    assert!(matches!(b.poll_step(1), PollOutcome::NeedsRead));
    let c = expect_chunk(b.channel_read(b"abc"));
    assert_eq!(c.chunk(), b"abc");
    // A slow consumer holds the chunk across several turns: the producer
    // makes no progress, and the stream state does not move.
    assert!(matches!(b.channel_read(b"xyz"), PollOutcome::Pending));
    assert!(matches!(b.channel_read(b"xyz"), PollOutcome::Pending));
    assert!(!b.is_end_stream());
    let _ = b.release();
    // Only now is the next refill accepted.
    let c2 = expect_chunk(b.channel_read(b"xyz"));
    assert_eq!(c2.chunk(), b"xyz");
}

#[test]
fn closed_pipe_means_end_of_stream_for_good() {
    let mut b: StreamBody<u32> = StreamBody::channel_with_capacity(8);
    assert!(matches!(b.poll_step(1), PollOutcome::NeedsRead));
    assert!(matches!(b.channel_read(b""), PollOutcome::EndOfStream));
    assert!(b.is_end_stream());
    // No resurrection: later data is ignored and every poll keeps
    // reporting end-of-stream.
    assert!(matches!(b.channel_read(b"late"), PollOutcome::EndOfStream));
    assert!(matches!(b.poll_step(2), PollOutcome::EndOfStream));
    assert!(matches!(b.poll_step(3), PollOutcome::EndOfStream));
}

#[test]
fn no_chunk_after_transport_error() {
    let mut b: StreamBody<u32> = StreamBody::channel_with_capacity(8);
    assert!(matches!(b.poll_step(1), PollOutcome::NeedsRead));
    b.record_error();
    assert!(matches!(b.poll_step(2), PollOutcome::Failed));
    assert!(matches!(b.channel_read(b"stale"), PollOutcome::Failed));
    assert!(matches!(b.poll_step(3), PollOutcome::Failed));
}

#[test]
fn chunk_cursor_advances_and_never_replays() {
    let mut c = StreamData::new(&[10, 20, 30, 40]);
    assert_eq!(c.remaining(), 4);
    assert_eq!(c.chunk(), &[10, 20, 30, 40]);
    c.advance(1);
    assert_eq!(c.remaining(), 3);
    assert_eq!(c.chunk(), &[20, 30, 40]);
    c.advance(3);
    assert_eq!(c.remaining(), 0);
    assert_eq!(c.chunk(), &[] as &[u8]);
}

#[test]
fn latch_records_and_returns_the_waker() {
    let mut s: State<&'static str> = State::new();
    assert!(s.poll_ready("first"));
    s.begin();
    assert!(!s.poll_ready("second"));
    assert!(!s.poll_ready("third"));
    let w = s.release();
    assert_eq!(w, Some("third"));
    let w2 = s.release();
    assert_eq!(w2, None);
    assert!(s.poll_ready("fourth"));
}

#[test]
fn default_channel_capacity_accepts_a_full_buffer() {
    let mut b: StreamBody<u32> = StreamBody::channel();
    assert!(matches!(b.poll_step(1), PollOutcome::NeedsRead));
    let block = vec![0xAB; 8 * 1024];
    let c = expect_chunk(b.channel_read(&block));
    assert_eq!(c.remaining(), 8 * 1024);
    assert_eq!(c.chunk(), block.as_slice());
}

#[test]
fn from_conversion_builds_a_single_payload_stream() {
    let mut b: StreamBody<u32> = StreamBody::from(vec![7u8, 8, 9]);
    assert_eq!(b.size_hint(), SizeHint::Exact(3));
    let c = expect_chunk(b.poll_step(1));
    assert_eq!(c.chunk(), &[7, 8, 9]);

    let mut e: StreamBody<u32> = StreamBody::from(Vec::new());
    assert!(e.is_end_stream());
    assert_eq!(e.size_hint(), SizeHint::Exact(0));
    assert!(matches!(e.poll_step(1), PollOutcome::EndOfStream));
}
