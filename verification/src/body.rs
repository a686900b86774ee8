//! The stream core: the poll-next-chunk protocol in its two strategies.
//!
//! A `StreamBody` hands discrete data chunks to a consumer, one at a time.
//! The *single-payload* strategy wraps one in-memory payload (or none) and
//! emits it exactly once. The *channel* strategy is refilled from an
//! external byte transport: each poll asks the driver to read into the
//! fixed-capacity buffer, and the freshly filled region becomes the next
//! chunk. In both strategies the consumption latch enforces backpressure:
//! no new chunk is produced, and the buffer is never refilled, while a
//! previously produced chunk has not been released.
//!
//! The transport itself (a pipe read-end, a background copy task) is
//! asynchronous plumbing that lives outside this crate; the driver performs
//! each read and reports its outcome to [`StreamBody::channel_read`]. Every
//! decision of the protocol is made here, against the ghost model
//! [`BodyModel`] and the transition functions [`spec_poll`], [`spec_read`],
//! [`spec_release`] and [`spec_record_error`].

use crate::data::StreamData;
use crate::state::State;
use vstd::prelude::*;

verus! {

/// The buffer capacity a channel stream gets when none is specified.
pub const DEFAULT_BUF_SIZE: usize = 8 * 1024;

/// What is known in advance about the total number of body bytes:
/// exact for a single-payload stream, unknown for a channel stream.
#[derive(Clone, Copy, Debug, PartialEq, Eq, Structural)]
pub enum SizeHint {
    Exact(u64),
    Unknown,
}

/// The answer a stream gives to one poll step or read completion.
pub enum PollOutcome {
    /// The caller must suspend: either the previous chunk is still
    /// outstanding (backpressure), or nothing can be decided yet.
    Pending,
    /// The next data chunk; exactly one may be outstanding at a time.
    Chunk(StreamData),
    /// No further data will ever be produced.
    EndOfStream,
    /// Channel strategy only: the driver must read from the transport into
    /// the stream's buffer and report the outcome via `channel_read`.
    NeedsRead,
    /// A transport error was recorded earlier; no data follows it.
    Failed,
}

/// The ghost model of a stream body: everything its transitions decide on.
pub ghost struct BodyModel<W> {
    /// True for the single-payload strategy, false for the channel strategy.
    pub once: bool,
    /// The single payload, if any (single-payload strategy only).
    pub payload: Option<Seq<u8>>,
    /// The fixed size of the reusable buffer (channel strategy only).
    pub capacity: nat,
    /// True once end-of-stream has been reached; never becomes false again.
    pub eof: bool,
    /// True once a transport error has been recorded; no chunk follows.
    pub errored: bool,
    /// The consumption latch: true when no chunk is outstanding.
    pub consumed: bool,
    /// The resumption handle of a poll suspended on the latch.
    pub waker: Option<W>,
}

/// The outcome of a transition, at the model level.
pub ghost enum SpecOutcome {
    /// Suspended, or a refill refused while a chunk is outstanding.
    Pending,
    /// A chunk holding exactly these bytes is handed out.
    Emit(Seq<u8>),
    EndOfStream,
    /// The driver must read from the transport.
    NeedsRead,
    /// The stream failed earlier and produces nothing more.
    Failed,
}

/// The model of a freshly constructed empty stream: a single-payload
/// stream with no payload, already exhausted.
pub open spec fn empty_model<W>() -> BodyModel<W> {
    BodyModel {
        once: true,
        payload: None,
        capacity: 0,
        eof: false,
        errored: false,
        consumed: true,
        waker: None,
    }
}

/// The model of a fresh single-payload stream over `payload`.
pub open spec fn once_model<W>(payload: Seq<u8>) -> BodyModel<W> {
    BodyModel { payload: Some(payload), eof: false, ..empty_model::<W>() }
}

/// The model of a fresh channel stream with a buffer of `capacity` bytes.
pub open spec fn channel_model<W>(capacity: nat) -> BodyModel<W> {
    BodyModel { once: false, capacity, eof: false, ..empty_model::<W>() }
}

/// How many bytes a single-payload stream holds in total.
pub open spec fn payload_len<W>(m: BodyModel<W>) -> nat {
    match m.payload {
        Some(p) => p.len(),
        None => 0,
    }
}

/// One poll step. The latch is checked first: while a chunk is outstanding
/// the caller suspends and its waker is recorded, whatever else the stream
/// holds — this is the backpressure mechanism. A failed stream then reports
/// failure, an exhausted one end-of-stream. A single-payload stream emits
/// its payload exactly once; a channel stream asks the driver to read.
/// The latch is only taken at the moment a chunk is definitively produced.
pub open spec fn spec_poll<W>(m: BodyModel<W>, w: W) -> (BodyModel<W>, SpecOutcome) {
    if !m.consumed {
        (BodyModel { waker: Some(w), ..m }, SpecOutcome::Pending)
    } else if m.errored {
        (m, SpecOutcome::Failed)
    } else if m.eof {
        (m, SpecOutcome::EndOfStream)
    } else if m.once {
        match m.payload {
            Some(p) => (
                BodyModel { consumed: false, eof: true, ..m },
                SpecOutcome::Emit(p),
            ),
            None => (BodyModel { eof: true, ..m }, SpecOutcome::EndOfStream),
        }
    } else {
        (m, SpecOutcome::NeedsRead)
    }
}

/// A read completion on a channel stream, reporting that `data` was read
/// from the transport (empty means the write half closed). A refill is
/// refused outright while a chunk is outstanding; a failed or exhausted
/// stream accepts no data either. Otherwise an empty read marks
/// end-of-stream and a nonempty one is emitted, byte for byte, as the next
/// chunk, closing the latch.
pub open spec fn spec_read<W>(m: BodyModel<W>, data: Seq<u8>) -> (BodyModel<W>, SpecOutcome) {
    if !m.consumed {
        (m, SpecOutcome::Pending)
    } else if m.errored {
        (m, SpecOutcome::Failed)
    } else if m.eof {
        (m, SpecOutcome::EndOfStream)
    } else if data.len() == 0 {
        (BodyModel { eof: true, ..m }, SpecOutcome::EndOfStream)
    } else {
        (BodyModel { consumed: false, ..m }, SpecOutcome::Emit(data))
    }
}

/// Releasing the outstanding chunk: the only transition that reopens the
/// latch. The recorded waker is taken out (the caller must invoke it).
pub open spec fn spec_release<W>(m: BodyModel<W>) -> BodyModel<W> {
    BodyModel { consumed: true, waker: None, ..m }
}

/// Recording a transport error: the stream produces no data afterwards.
pub open spec fn spec_record_error<W>(m: BodyModel<W>) -> BodyModel<W> {
    BodyModel { errored: true, ..m }
}

/// How an executable poll answer realizes a model-level outcome: the
/// variants agree, and an emitted chunk holds exactly the emitted bytes,
/// with its cursor at the start.
pub open spec fn outcome_matches(r: PollOutcome, s: SpecOutcome) -> bool {
    match r {
        PollOutcome::Pending => s is Pending,
        PollOutcome::Chunk(c) => c.wf() && s == SpecOutcome::Emit(c@),
        PollOutcome::EndOfStream => s is EndOfStream,
        PollOutcome::NeedsRead => s is NeedsRead,
        PollOutcome::Failed => s is Failed,
    }
}

struct OnceInner<W> {
    data: Option<Vec<u8>>,
    reached_eof: bool,
    state: State<W>,
}

struct ChannelInner<W> {
    capacity: usize,
    reached_eof: bool,
    errored: bool,
    state: State<W>,
}

enum Inner<W> {
    Once(OnceInner<W>),
    Channel(ChannelInner<W>),
}

/// A body stream which hands out chunks one at a time.
///
/// `W` is the executor's resumption-handle (waker) type.
pub struct StreamBody<W> {
    inner: Inner<W>,
}

impl<W> View for StreamBody<W> {
    type V = BodyModel<W>;

    closed spec fn view(&self) -> BodyModel<W> {
        match self.inner {
            Inner::Once(i) => BodyModel {
                once: true,
                payload: match i.data {
                    Some(v) => Some(v@),
                    None => None,
                },
                capacity: 0,
                eof: i.reached_eof,
                errored: false,
                consumed: i.state.consumed,
                waker: i.state.waker,
            },
            Inner::Channel(c) => BodyModel {
                once: false,
                payload: None,
                capacity: c.capacity as nat,
                eof: c.reached_eof,
                errored: c.errored,
                consumed: c.state.consumed,
                waker: c.state.waker,
            },
        }
    }
}

impl<W> StreamBody<W> {
    /// Creates an empty body: exhausted from the start.
    pub fn empty() -> (b: StreamBody<W>)
        ensures
            b@ == (BodyModel { eof: true, ..empty_model::<W>() }),
    {
        StreamBody {
            inner: Inner::Once(OnceInner { data: None, reached_eof: true, state: State::new() }),
        }
    }

    /// Creates a single-payload body over `data`; empty data gives an
    /// empty, already exhausted body.
    pub fn from_bytes(data: Vec<u8>) -> (b: StreamBody<W>)
        ensures
            data@.len() == 0 ==> b@ == (BodyModel { eof: true, ..empty_model::<W>() }),
            data@.len() > 0 ==> b@ == once_model::<W>(data@),
    {
        if data.len() == 0 {
            StreamBody::empty()
        } else {
            StreamBody {
                inner: Inner::Once(OnceInner {
                    data: Some(data),
                    reached_eof: false,
                    state: State::new(),
                }),
            }
        }
    }

    /// Creates a channel body with the default buffer capacity. The driver
    /// pairs it with the read end of a byte pipe and feeds it via
    /// [`StreamBody::channel_read`].
    pub fn channel() -> (b: StreamBody<W>)
        ensures
            b@ == channel_model::<W>(DEFAULT_BUF_SIZE as nat),
    {
        StreamBody::channel_with_capacity(DEFAULT_BUF_SIZE)
    }

    /// Creates a channel body whose reusable buffer holds `capacity` bytes.
    pub fn channel_with_capacity(capacity: usize) -> (b: StreamBody<W>)
        ensures
            b@ == channel_model::<W>(capacity as nat),
    {
        StreamBody {
            inner: Inner::Channel(ChannelInner {
                capacity,
                reached_eof: false,
                errored: false,
                state: State::new(),
            }),
        }
    }

    /// One poll step, realizing [`spec_poll`]: backpressure first, then
    /// failure, exhaustion, payload emission or a read request. `waker` is
    /// recorded only when the caller must wait on the latch.
    pub fn poll_step(&mut self, waker: W) -> (r: PollOutcome)
        ensures
            final(self)@ == spec_poll(old(self)@, waker).0,
            outcome_matches(r, spec_poll(old(self)@, waker).1),
    {
        match &mut self.inner {
            Inner::Once(inner) => {
                if !inner.state.poll_ready(waker) {
                    return PollOutcome::Pending;
                }
                if inner.reached_eof {
                    return PollOutcome::EndOfStream;
                }
                match &inner.data {
                    Some(bytes) => {
                        inner.state.begin();
                        inner.reached_eof = true;
                        PollOutcome::Chunk(StreamData::new(bytes.as_slice()))
                    },
                    None => {
                        inner.reached_eof = true;
                        PollOutcome::EndOfStream
                    },
                }
            },
            Inner::Channel(inner) => {
                if !inner.state.poll_ready(waker) {
                    return PollOutcome::Pending;
                }
                if inner.errored {
                    return PollOutcome::Failed;
                }
                if inner.reached_eof {
                    return PollOutcome::EndOfStream;
                }
                PollOutcome::NeedsRead
            },
        }
    }

    /// Reports the outcome of the transport read that a `NeedsRead` answer
    /// asked for: `data` is the region of the stream's buffer that the read
    /// filled (at most the buffer's capacity), empty when the write half
    /// closed. Realizes [`spec_read`]: while a chunk is outstanding the
    /// refill is refused and nothing changes; otherwise the filled region is
    /// handed out as the next chunk, or end-of-stream is recorded.
    pub fn channel_read(&mut self, data: &[u8]) -> (r: PollOutcome)
        requires
            !old(self)@.once,
            data@.len() <= old(self)@.capacity,
        ensures
            final(self)@ == spec_read(old(self)@, data@).0,
            outcome_matches(r, spec_read(old(self)@, data@).1),
    {
        match &mut self.inner {
            Inner::Once(_) => unreached(),
            Inner::Channel(inner) => {
                if !inner.state.consumed {
                    return PollOutcome::Pending;
                }
                if inner.errored {
                    return PollOutcome::Failed;
                }
                if inner.reached_eof {
                    return PollOutcome::EndOfStream;
                }
                if data.len() == 0 {
                    inner.reached_eof = true;
                    return PollOutcome::EndOfStream;
                }
                inner.state.begin();
                PollOutcome::Chunk(StreamData::new(data))
            },
        }
    }

    /// Records that the transport failed; realizes [`spec_record_error`].
    /// The error value itself is returned to the poll caller by the driver;
    /// the stream only remembers that no data may follow it.
    pub fn record_error(&mut self)
        requires
            !old(self)@.once,
        ensures
            final(self)@ == spec_record_error(old(self)@),
    {
        match &mut self.inner {
            Inner::Once(_) => unreached(),
            Inner::Channel(inner) => {
                inner.errored = true;
            },
        }
    }

    /// Releases the outstanding chunk; realizes [`spec_release`]. Called
    /// exactly once per produced chunk, when the chunk is destroyed. The
    /// returned waker, if any, must be invoked by the caller: it resumes
    /// the poll that found the latch closed.
    pub fn release(&mut self) -> (w: Option<W>)
        ensures
            final(self)@ == spec_release(old(self)@),
            w == old(self)@.waker,
    {
        match &mut self.inner {
            Inner::Once(inner) => inner.state.release(),
            Inner::Channel(inner) => inner.state.release(),
        }
    }

    /// Whether end-of-stream has been reached.
    pub fn is_end_stream(&self) -> (r: bool)
        ensures
            r == self@.eof,
    {
        match &self.inner {
            Inner::Once(inner) => inner.reached_eof,
            Inner::Channel(inner) => inner.reached_eof,
        }
    }

    /// The size estimate: exact for a single-payload stream (zero when
    /// there is no payload), unknown for a channel stream.
    pub fn size_hint(&self) -> (h: SizeHint)
        ensures
            self@.once ==> h == SizeHint::Exact(payload_len(self@) as u64),
            !self@.once ==> h == SizeHint::Unknown,
    {
        match &self.inner {
            Inner::Once(inner) => match &inner.data {
                Some(data) => SizeHint::Exact(data.len() as u64),
                None => SizeHint::Exact(0),
            },
            Inner::Channel(_) => SizeHint::Unknown,
        }
    }
}

impl<W> From<Vec<u8>> for StreamBody<W> {
    /// The standard conversion builds a single-payload body, exactly as
    /// [`StreamBody::from_bytes`] does; [`lemma_from_model`] states the
    /// model of the result.
    fn from(data: Vec<u8>) -> StreamBody<W> {
        if data.len() == 0 {
            StreamBody {
                inner: Inner::Once(OnceInner {
                    data: None,
                    reached_eof: true,
                    state: State::new(),
                }),
            }
        } else {
            StreamBody {
                inner: Inner::Once(OnceInner {
                    data: Some(data),
                    reached_eof: false,
                    state: State::new(),
                }),
            }
        }
    }
}

impl<W> vstd::std_specs::convert::FromSpecImpl<Vec<u8>> for StreamBody<W> {
    closed spec fn obeys_from_spec() -> bool {
        true
    }

    closed spec fn from_spec(data: Vec<u8>) -> StreamBody<W> {
        if data@.len() == 0 {
            StreamBody {
                inner: Inner::Once(OnceInner {
                    data: None,
                    reached_eof: true,
                    state: State { consumed: true, waker: None },
                }),
            }
        } else {
            StreamBody {
                inner: Inner::Once(OnceInner {
                    data: Some(data),
                    reached_eof: false,
                    state: State { consumed: true, waker: None },
                }),
            }
        }
    }
}

/// What the standard conversion from a byte vector yields, at the model
/// level: empty data gives the empty, already exhausted stream, anything
/// else a fresh single-payload stream over exactly those bytes.
pub proof fn lemma_from_model<W>(data: Vec<u8>)
    ensures
        <StreamBody<W> as vstd::std_specs::convert::FromSpec<Vec<u8>>>::obeys_from_spec(),
        data@.len() == 0
            ==> (<StreamBody<W> as vstd::std_specs::convert::FromSpec<Vec<u8>>>::from_spec(data))@
                == (BodyModel { eof: true, ..empty_model::<W>() }),
        data@.len() > 0
            ==> (<StreamBody<W> as vstd::std_specs::convert::FromSpec<Vec<u8>>>::from_spec(data))@
                == once_model::<W>(data@),
{
}

} // verus!
