//! The laws of the chunk hand-off protocol, proved over the model
//! transitions of [`crate::body`].

use crate::body::{
    spec_poll, spec_read, spec_record_error, spec_release, BodyModel, SpecOutcome,
    empty_model, payload_len,
};
use vstd::prelude::*;

verus! {

/// A channel stream that can still produce data: latch open, not exhausted,
/// not failed.
pub open spec fn fresh_channel<W>(m: BodyModel<W>) -> bool {
    &&& !m.once
    &&& !m.eof
    &&& !m.errored
    &&& m.consumed
}

/// The concatenation of a sequence of byte blocks, in order.
pub open spec fn concat_bytes(blocks: Seq<Seq<u8>>) -> Seq<u8>
    decreases blocks.len(),
{
    if blocks.len() == 0 {
        Seq::empty()
    } else {
        blocks[0] + concat_bytes(blocks.drop_first())
    }
}

/// The chunks a channel stream emits when a driver feeds it `blocks`, one
/// read per chunk, the consumer releasing each chunk before the next read;
/// `None` if any step fails to emit.
pub open spec fn spec_drive<W>(m: BodyModel<W>, blocks: Seq<Seq<u8>>) -> Option<Seq<Seq<u8>>>
    decreases blocks.len(),
{
    if blocks.len() == 0 {
        Some(Seq::empty())
    } else {
        match spec_read(m, blocks[0]).1 {
            SpecOutcome::Emit(bytes) => match spec_drive(
                spec_release(spec_read(m, blocks[0]).0),
                blocks.drop_first(),
            ) {
                Some(rest) => Some(seq![bytes] + rest),
                None => None,
            },
            _ => None,
        }
    }
}

/// Single-outstanding-chunk invariant: while the previously produced chunk
/// has not been released (`!m.consumed`), neither a poll nor a read
/// completion emits a new chunk — the poll suspends and the refill is
/// refused. A chunk is only emitted through an open latch, and emitting it
/// closes the latch; no transition but `spec_release` reopens it.
pub proof fn lemma_single_outstanding_chunk<W>(m: BodyModel<W>, w: W, data: Seq<u8>)
    ensures
        !m.consumed ==> spec_poll(m, w).1 is Pending,
        !m.consumed ==> spec_read(m, data).1 is Pending,
        spec_poll(m, w).1 is Emit ==> m.consumed && !spec_poll(m, w).0.consumed,
        spec_read(m, data).1 is Emit ==> m.consumed && !spec_read(m, data).0.consumed,
        spec_poll(m, w).0.consumed ==> m.consumed,
        spec_read(m, data).0.consumed ==> m.consumed,
        spec_record_error(m).consumed == m.consumed,
        spec_release(m).consumed,
{
}

/// One thing a driver can do to a stream: poll it, complete a transport
/// read, release the outstanding chunk, or record a transport error.
pub ghost enum Event<W> {
    Poll(W),
    Read(Seq<u8>),
    Release,
    Fail,
}

/// The model after one driver event.
pub open spec fn step_model<W>(m: BodyModel<W>, e: Event<W>) -> BodyModel<W> {
    match e {
        Event::Poll(w) => spec_poll(m, w).0,
        Event::Read(d) => spec_read(m, d).0,
        Event::Release => spec_release(m),
        Event::Fail => spec_record_error(m),
    }
}

/// The bytes one driver event hands out as a chunk, if any.
pub open spec fn step_emits<W>(m: BodyModel<W>, e: Event<W>) -> Option<Seq<u8>> {
    match e {
        Event::Poll(w) => match spec_poll(m, w).1 {
            SpecOutcome::Emit(b) => Some(b),
            _ => None,
        },
        Event::Read(d) => match spec_read(m, d).1 {
            SpecOutcome::Emit(b) => Some(b),
            _ => None,
        },
        Event::Release => None,
        Event::Fail => None,
    }
}

/// The model after the first `i` events of `es` have been applied to `m`.
pub open spec fn model_at<W>(m: BodyModel<W>, es: Seq<Event<W>>, i: int) -> BodyModel<W>
    decreases i,
{
    if i <= 0 {
        m
    } else {
        step_model(model_at(m, es, i - 1), es[i - 1])
    }
}

/// A closed latch stays closed under every event but a release.
proof fn lemma_latch_stays_closed<W>(m: BodyModel<W>, es: Seq<Event<W>>, p: int, q: int)
    requires
        0 <= p <= q,
        !model_at(m, es, p).consumed,
        forall|k: int| p <= k < q ==> !((#[trigger] es[k]) is Release),
    ensures
        !model_at(m, es, q).consumed,
    decreases q - p,
{
    if q > p {
        lemma_latch_stays_closed(m, es, p, q - 1);
    }
}

/// Single-outstanding-chunk invariant over whole runs: however a stream is
/// driven, between any two events that emit a chunk there is a release —
/// a new chunk is never handed out while the previous one is outstanding.
pub proof fn lemma_trace_single_outstanding<W>(
    m: BodyModel<W>,
    es: Seq<Event<W>>,
    i: int,
    j: int,
)
    requires
        0 <= i < j < es.len(),
        step_emits(model_at(m, es, i), es[i]) is Some,
        step_emits(model_at(m, es, j), es[j]) is Some,
    ensures
        exists|k: int| i < k < j && (#[trigger] es[k]) is Release,
{
    if !(exists|k: int| i < k < j && (#[trigger] es[k]) is Release) {
        assert forall|k: int| i + 1 <= k < j implies !((#[trigger] es[k]) is Release) by {
            if es[k] is Release {
                assert(i < k < j && es[k] is Release);
            }
        }
        // Emitting at i closes the latch; without a release it never
        // reopens, so the emission at j is impossible.
        assert(!model_at(m, es, i + 1).consumed);
        lemma_latch_stays_closed(m, es, i + 1, j);
        assert(false);
    }
}

/// Buffer-reuse safety: while a chunk is outstanding, a read completion
/// changes nothing — in particular the stream accepts no refill, so the
/// region the outstanding chunk was taken from is never overwritten before
/// the chunk is released.
pub proof fn lemma_no_refill_while_outstanding<W>(m: BodyModel<W>, data: Seq<u8>)
    requires
        !m.consumed,
    ensures
        spec_read(m, data).0 == m,
        spec_read(m, data).1 is Pending,
{
}

/// Ordering: a channel stream fed the nonempty blocks `b1 .. bn`, in that
/// order, each fitting the buffer, emits exactly those blocks as chunks, in
/// that order — so the concatenation of all chunks equals the concatenation
/// of everything written, with no gaps, duplicates or reordering.
pub proof fn lemma_channel_ordering<W>(m: BodyModel<W>, blocks: Seq<Seq<u8>>)
    requires
        fresh_channel(m),
        forall|i: int| 0 <= i < blocks.len() ==> #[trigger] blocks[i].len() > 0,
        forall|i: int| 0 <= i < blocks.len() ==> #[trigger] blocks[i].len() <= m.capacity,
    ensures
        spec_drive(m, blocks) == Some(blocks),
        concat_bytes(spec_drive(m, blocks)->Some_0) == concat_bytes(blocks),
    decreases blocks.len(),
{
    if blocks.len() == 0 {
        assert(blocks =~= Seq::<Seq<u8>>::empty());
    } else {
        let m1 = spec_read(m, blocks[0]).0;
        let m2 = spec_release(m1);
        assert(fresh_channel(m2));
        lemma_channel_ordering(m2, blocks.drop_first());
        assert(seq![blocks[0]] + blocks.drop_first() =~= blocks);
    }
}

/// Empty-payload idempotence: a single-payload stream built from
/// zero-length data is exhausted from the start, reports end-of-stream on
/// its very first poll without changing state, and its exact size is zero.
pub proof fn lemma_empty_payload<W>(w: W)
    ensures
        (BodyModel { eof: true, ..empty_model::<W>() }).eof,
        spec_poll(BodyModel { eof: true, ..empty_model::<W>() }, w).1 is EndOfStream,
        spec_poll(BodyModel { eof: true, ..empty_model::<W>() }, w).0
            == (BodyModel { eof: true, ..empty_model::<W>() }),
        payload_len(BodyModel { eof: true, ..empty_model::<W>() }) == 0,
{
}

/// End-of-stream propagation: once a stream is exhausted it stays
/// exhausted under every transition, never emits a chunk again, and — as
/// long as nothing else is outstanding or failed — answers every further
/// poll with end-of-stream.
pub proof fn lemma_eof_permanent<W>(m: BodyModel<W>, w: W, data: Seq<u8>)
    requires
        m.eof,
    ensures
        spec_poll(m, w).0.eof,
        !(spec_poll(m, w).1 is Emit),
        spec_read(m, data).0.eof,
        !(spec_read(m, data).1 is Emit),
        spec_release(m).eof,
        spec_record_error(m).eof,
        m.consumed && !m.errored ==> spec_poll(m, w).1 is EndOfStream,
        m.consumed && !m.errored ==> spec_read(m, data).1 is EndOfStream,
{
}

/// End-of-stream propagation over whole runs: an exhausted stream stays
/// exhausted after every further event, and no later event resurrects it
/// with another chunk.
pub proof fn lemma_trace_eof_permanent<W>(m: BodyModel<W>, es: Seq<Event<W>>, i: int, j: int)
    requires
        0 <= i <= j,
        model_at(m, es, i).eof,
    ensures
        model_at(m, es, j).eof,
        j < es.len() ==> step_emits(model_at(m, es, j), es[j]) is None,
    decreases j - i,
{
    if j > i {
        lemma_trace_eof_permanent(m, es, i, j - 1);
    }
}

/// No data after an error: once a transport error has been recorded, no
/// transition emits a chunk — stale buffer contents are never re-emitted —
/// the error mark is permanent, and a poll that is not suspended on the
/// latch reports the failure.
pub proof fn lemma_no_data_after_error<W>(m: BodyModel<W>, w: W, data: Seq<u8>)
    requires
        m.errored,
    ensures
        !(spec_poll(m, w).1 is Emit),
        !(spec_read(m, data).1 is Emit),
        spec_poll(m, w).0.errored,
        spec_read(m, data).0.errored,
        spec_release(m).errored,
        m.consumed ==> spec_poll(m, w).1 is Failed,
{
}

} // verus!
