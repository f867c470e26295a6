//! What follows from the sessions' contracts over any number of calls.

use crate::codec::{wrong_start, DecoderPhase};
use crate::compressor::{compress_effect, flush_effect, fresh_compressor, CompressorView};
use crate::decompressor::{decompress_effect, fresh_decompressor, DecompressorView};
use crate::drain::{limit_reached, phase_after, room_left, verdict_of, Step, Verdict, BUFSIZ};
use crate::error::{refused, returned, Bz2Error, Late};
use vstd::prelude::*;

verus! {

/// The chunks of a sequence, joined in order.
pub open spec fn joined(chunks: Seq<Seq<u8>>) -> Seq<u8>
    decreases chunks.len(),
{
    if chunks.len() == 0 {
        Seq::empty()
    } else {
        joined(chunks.drop_last()) + chunks.last()
    }
}

/// A series of accepted `compress` calls: call `i` takes a session from
/// `states[i]` to `states[i + 1]`, is fed `chunks[i]` and returns `outs[i]`.
pub open spec fn compress_run(
    states: Seq<CompressorView>,
    chunks: Seq<Seq<u8>>,
    outs: Seq<Seq<u8>>,
) -> bool {
    &&& states.len() == chunks.len() + 1
    &&& outs.len() == chunks.len()
    &&& forall|i: int|
        0 <= i < chunks.len() ==> compress_effect(
            states[i],
            #[trigger] chunks[i],
            states[i + 1],
            Ok(outs[i]),
        )
}

/// A series of accepted `decompress` calls: call `i` takes a session from
/// `states[i]` to `states[i + 1]`, is fed `chunks[i]` under `limits[i]` and
/// returns `outs[i]`.
pub open spec fn decompress_run(
    states: Seq<DecompressorView>,
    chunks: Seq<Seq<u8>>,
    limits: Seq<Option<usize>>,
    outs: Seq<Seq<u8>>,
) -> bool {
    &&& states.len() == chunks.len() + 1
    &&& limits.len() == chunks.len()
    &&& outs.len() == chunks.len()
    &&& forall|i: int| 0 <= i < states.len() ==> (#[trigger] states[i]).consistent()
    &&& forall|i: int|
        0 <= i < chunks.len() ==> decompress_effect(
            states[i],
            #[trigger] chunks[i],
            limits[i],
            states[i + 1],
            Ok(outs[i]),
        )
}

/// A step never writes more than the scratch size, whatever the limit, and
/// never takes the output of a call beyond the limit; there is no room
/// exactly when the limit is reached.
pub proof fn room_is_bounded(limit: Option<usize>, collected: nat)
    ensures
        room_left(limit, collected) <= BUFSIZ,
        limit matches Some(most) ==> collected <= most ==> collected + room_left(limit, collected)
            <= most,
        room_left(limit, collected) == 0 <==> (limit matches Some(most) && collected >= most),
{
}

/// The verdict on a step that had room agrees with the phase the step
/// leaves the stream in.  The drain goes on while the stream works, ends
/// when the stream has ended, is starved when the stream waits for input,
/// and fails exactly when the codec rejected the step or cannot go on.
pub proof fn verdict_agrees_with_phase(step: Step, offered: nat, room: nat)
    requires
        room > 0,
    ensures
        verdict_of(step, offered) == Verdict::Continue <==> phase_after(step, offered, room)
            == DecoderPhase::Working,
        verdict_of(step, offered) == Verdict::Ended <==> phase_after(step, offered, room)
            == DecoderPhase::Ended,
        verdict_of(step, offered) == Verdict::Starved <==> phase_after(step, offered, room)
            == DecoderPhase::Waiting,
        verdict_of(step, offered) == Verdict::Failed <==> (phase_after(step, offered, room)
            == DecoderPhase::Rejected || phase_after(step, offered, room)
            == DecoderPhase::Stalled),
{
}

/// A call fails only with the codec, and always with it.  After the calls
/// that the session refuses on its own account, and after the call with a
/// limit of zero, which does not ask the codec, `decompress` returns the
/// corrupt-stream error exactly when the codec has rejected a step or
/// cannot go on, and otherwise it succeeds.
pub proof fn decompress_fails_only_with_the_codec(
    before: DecompressorView,
    data: Seq<u8>,
    limit: Option<usize>,
    after: DecompressorView,
    res: Result<Seq<u8>, Bz2Error>,
)
    requires
        before.consistent(),
        !before.eof,
        !before.broken,
        decompress_effect(before, data, limit, after, res),
    ensures
        !before.failed(),
        res is Err <==> after.failed(),
        res is Err <==> refused(res, Bz2Error::CorruptStreamError),
        res is Err <==> after.broken,
        limit == Some(0usize) ==> res is Ok,
{
}

/// Where the codec goes along, every call succeeds: a session that is not
/// at the end and is fed any bytes under any limit returns `Ok` unless the
/// codec has rejected a step of this call or cannot go on.  What it
/// returns is then what the stream gave out, and afterwards the session is
/// at the end, or asks for input with all its input taken, or has given as
/// much as the limit allows.
pub proof fn success_is_owed(
    before: DecompressorView,
    data: Seq<u8>,
    limit: Option<usize>,
    after: DecompressorView,
    res: Result<Seq<u8>, Bz2Error>,
)
    requires
        before.consistent(),
        after.consistent(),
        !before.eof,
        decompress_effect(before, data, limit, after, res),
        !after.failed(),
    ensures
        res matches Ok(out) && {
            &&& after.produced == before.produced + out
            &&& after.supplied() == before.supplied() + data
            &&& after.eof || limit_reached(limit, out.len()) || (after.needs_input
                && after.consumed == before.supplied() + data)
        },
{
    if limit == Some(0usize) {
        assert(after.produced == before.produced + res->Ok_0);
        assert(after.supplied() =~= before.supplied() + data);
    }
}

/// What cannot be the start of a stream is refused at once: a new session
/// fed bytes whose first four do not read as the header returns the
/// corrupt-stream error, under any limit above zero, and is broken.
pub proof fn a_wrong_start_is_refused(
    data: Seq<u8>,
    limit: Option<usize>,
    after: DecompressorView,
    res: Result<Seq<u8>, Bz2Error>,
)
    requires
        wrong_start(data),
        limit != Some(0usize),
        after.consistent(),
        decompress_effect(fresh_decompressor(), data, limit, after, res),
    ensures
        refused(res, Bz2Error::CorruptStreamError),
        after.broken,
        !after.eof,
        !after.needs_input,
{
    assert(fresh_decompressor().pending + data =~= data);
}

/// A stream that waits after a call without a limit: the call succeeded,
/// the session asks for input, it is not at the end, and the codec has
/// taken every byte the session was ever given, this call's included.  If
/// the stream gave nothing out meanwhile, the call returned nothing.
pub proof fn a_waiting_stream_asks_for_input(
    before: DecompressorView,
    data: Seq<u8>,
    after: DecompressorView,
    res: Result<Seq<u8>, Bz2Error>,
)
    requires
        before.consistent(),
        after.consistent(),
        !before.eof,
        !before.broken,
        decompress_effect(before, data, None, after, res),
        after.phase == DecoderPhase::Waiting,
    ensures
        res matches Ok(out) && (after.produced == before.produced ==> out.len() == 0),
        after.needs_input,
        !after.eof,
        after.consumed == before.supplied() + data,
{
    let out = res->Ok_0;
    assert(after.supplied() =~= after.consumed);
    if after.produced == before.produced {
        assert(out.len() == 0) by {
            assert((before.produced + out).len() == before.produced.len());
        }
    }
}

/// A stream that has ended after a call: the call succeeded, whatever the
/// limit above zero, the session is at the end and needs no input, and
/// what the codec did not take of the session's input is the unused data.
pub proof fn a_call_that_reaches_the_end(
    before: DecompressorView,
    data: Seq<u8>,
    limit: Option<usize>,
    after: DecompressorView,
    res: Result<Seq<u8>, Bz2Error>,
)
    requires
        before.consistent(),
        after.consistent(),
        !before.eof,
        !before.broken,
        decompress_effect(before, data, limit, after, res),
        after.phase == DecoderPhase::Ended,
    ensures
        res matches Ok(out) && after.produced == before.produced + out,
        after.eof,
        !after.needs_input,
        after.consumed + after.unused_data == before.supplied() + data,
{
    assert(after.supplied() =~= after.consumed + after.unused_data);
}

/// A session is flushed after `flush`, whatever `flush` returned: a second
/// `flush` is refused with a state error and changes nothing.
pub proof fn flush_only_once(
    before: CompressorView,
    between: CompressorView,
    after: CompressorView,
    first: Result<Seq<u8>, Bz2Error>,
    second: Result<Seq<u8>, Bz2Error>,
)
    requires
        flush_effect(before, between, first),
        flush_effect(between, after, second),
    ensures
        between.flushed,
        refused(second, Bz2Error::StateError(Late::Flush)),
        after == between,
{
}

/// After `flush`, `compress` is refused with a state error, whatever it is
/// fed, and changes nothing.
pub proof fn no_compress_after_flush(
    before: CompressorView,
    between: CompressorView,
    after: CompressorView,
    flushed: Result<Seq<u8>, Bz2Error>,
    data: Seq<u8>,
    res: Result<Seq<u8>, Bz2Error>,
)
    requires
        flush_effect(before, between, flushed),
        compress_effect(between, data, after, res),
    ensures
        refused(res, Bz2Error::StateError(Late::Compress)),
        after == between,
{
}

/// Feeding nothing to a session that has not been flushed succeeds,
/// returns nothing and changes nothing.
pub proof fn empty_compress_is_idle(
    before: CompressorView,
    after: CompressorView,
    res: Result<Seq<u8>, Bz2Error>,
)
    requires
        !before.flushed,
        compress_effect(before, Seq::empty(), after, res),
    ensures
        returned(res, Seq::empty()),
        after == before,
{
    assert(res->Ok_0 =~= Seq::<u8>::empty());
}

/// Over any series of `compress` calls, the session has accepted exactly
/// the chunks it was fed, in order, and has returned exactly what it
/// emitted: no byte is lost, doubled or moved.
pub proof fn compress_keeps_every_byte(
    states: Seq<CompressorView>,
    chunks: Seq<Seq<u8>>,
    outs: Seq<Seq<u8>>,
)
    requires
        compress_run(states, chunks, outs),
    ensures
        states.last().consumed == states[0].consumed + joined(chunks),
        states.last().emitted == states[0].emitted + joined(outs),
        states.last().level == states[0].level,
        !states.last().flushed ==> !states[0].flushed,
    decreases chunks.len(),
{
    if chunks.len() > 0 {
        // All calls but the last form a shorter series, of which the claim
        // holds; the last call adds its chunk and its output at the end.
        let earlier = states.drop_last();
        assert forall|i: int| 0 <= i < chunks.len() - 1 implies compress_effect(
            earlier[i],
            #[trigger] chunks.drop_last()[i],
            earlier[i + 1],
            Ok(outs.drop_last()[i]),
        ) by {}
        compress_keeps_every_byte(earlier, chunks.drop_last(), outs.drop_last());
    }
}

/// How the input is cut into chunks makes no difference to what the codec
/// is handed: two series of calls that start from the same session and feed
/// the same bytes leave the codec with the same input.
pub proof fn chunking_is_invisible(
    states_a: Seq<CompressorView>,
    chunks_a: Seq<Seq<u8>>,
    outs_a: Seq<Seq<u8>>,
    states_b: Seq<CompressorView>,
    chunks_b: Seq<Seq<u8>>,
    outs_b: Seq<Seq<u8>>,
)
    requires
        compress_run(states_a, chunks_a, outs_a),
        compress_run(states_b, chunks_b, outs_b),
        states_a[0] == states_b[0],
        joined(chunks_a) == joined(chunks_b),
    ensures
        states_a.last().consumed == states_b.last().consumed,
        states_a.last().level == states_b.last().level,
{
    compress_keeps_every_byte(states_a, chunks_a, outs_a);
    compress_keeps_every_byte(states_b, chunks_b, outs_b);
}

/// The whole life of a compressor: made at `level`, fed some chunks, then
/// flushed.  What it has accepted is the chunks joined, and what it has
/// returned, the last call included, is all that the codec emitted.
pub proof fn compressor_life(
    level: nat,
    states: Seq<CompressorView>,
    chunks: Seq<Seq<u8>>,
    outs: Seq<Seq<u8>>,
    end: CompressorView,
    rest: Seq<u8>,
)
    requires
        compress_run(states, chunks, outs),
        states[0] == fresh_compressor(level),
        flush_effect(states.last(), end, Ok(rest)),
    ensures
        end.level == level,
        end.flushed,
        end.consumed == joined(chunks),
        end.emitted == joined(outs) + rest,
        rest.len() > 0,
{
    compress_keeps_every_byte(states, chunks, outs);
}

/// Over any series of `decompress` calls, whatever the limits, the session
/// has accepted exactly the chunks it was fed, in order, and has returned
/// exactly what the stream gave out.
pub proof fn decompress_keeps_every_byte(
    states: Seq<DecompressorView>,
    chunks: Seq<Seq<u8>>,
    limits: Seq<Option<usize>>,
    outs: Seq<Seq<u8>>,
)
    requires
        decompress_run(states, chunks, limits, outs),
    ensures
        states.last().supplied() == states[0].supplied() + joined(chunks),
        states.last().produced == states[0].produced + joined(outs),
        states[0].consumed.is_prefix_of(states.last().consumed),
    decreases chunks.len(),
{
    if chunks.len() > 0 {
        // As for the compressor: the claim holds of all calls but the last,
        // and the last call adds its chunk and its output at the end.
        let earlier = states.drop_last();
        assert forall|i: int| 0 <= i < earlier.len() implies (#[trigger] earlier[i]).consistent(
        ) by {}
        assert forall|i: int| 0 <= i < chunks.len() - 1 implies decompress_effect(
            earlier[i],
            #[trigger] chunks.drop_last()[i],
            limits.drop_last()[i],
            earlier[i + 1],
            Ok(outs.drop_last()[i]),
        ) by {}
        decompress_keeps_every_byte(
            earlier,
            chunks.drop_last(),
            limits.drop_last(),
            outs.drop_last(),
        );
        assert(states[0].supplied() + joined(chunks) =~= (states[0].supplied() + joined(
            chunks.drop_last(),
        )) + chunks.last());
    }
}

/// From end to end: a compressor is fed some chunks and flushed, and what it
/// returned is fed to a new decompressor, cut into chunks in any other way.
/// Then the compression stream took exactly the bytes that the compressor
/// was fed, the decompressor accepted exactly the bytes that the
/// compression stream gave out, and what the decompressor returned is what
/// the decompression stream gave out.  The sessions add nothing and lose
/// nothing, however the bytes are cut; what the streams make of them is the
/// codec's part.
pub proof fn pipeline_keeps_every_byte(
    level: nat,
    written: Seq<CompressorView>,
    raw_chunks: Seq<Seq<u8>>,
    packed: Seq<Seq<u8>>,
    flushed: CompressorView,
    rest: Seq<u8>,
    read: Seq<DecompressorView>,
    packed_chunks: Seq<Seq<u8>>,
    limits: Seq<Option<usize>>,
    unpacked: Seq<Seq<u8>>,
)
    requires
        compress_run(written, raw_chunks, packed),
        written[0] == fresh_compressor(level),
        flush_effect(written.last(), flushed, Ok(rest)),
        decompress_run(read, packed_chunks, limits, unpacked),
        read[0] == fresh_decompressor(),
        joined(packed_chunks) == joined(packed) + rest,
    ensures
        flushed.consumed == joined(raw_chunks),
        read.last().supplied() == flushed.emitted,
        read.last().produced == joined(unpacked),
{
    compressor_life(level, written, raw_chunks, packed, flushed, rest);
    decompress_keeps_every_byte(read, packed_chunks, limits, unpacked);
}

/// At the end of the stream, what the session was fed is cut in two at the
/// point where the codec stopped taking input: the stream before it, the
/// unused data after it.  No byte of the stream is in the unused data and
/// no byte of the unused data went to the codec.
pub proof fn unused_data_is_what_follows(
    states: Seq<DecompressorView>,
    chunks: Seq<Seq<u8>>,
    limits: Seq<Option<usize>>,
    outs: Seq<Seq<u8>>,
)
    requires
        decompress_run(states, chunks, limits, outs),
        states[0] == fresh_decompressor(),
        states.last().eof,
    ensures
        joined(chunks) == states.last().consumed + states.last().unused_data,
        states.last().unused_data == joined(chunks).skip(states.last().consumed.len() as int),
        states.last().produced == joined(outs),
{
    decompress_keeps_every_byte(states, chunks, limits, outs);
}

/// A stream followed by trailing bytes, fed to a new session in one call:
/// where the codec finds the end of the stream after `stream`, the unused
/// data is exactly `trailing` and the call returns all that the stream
/// gave out.
pub proof fn trailing_bytes_are_kept(
    stream: Seq<u8>,
    trailing: Seq<u8>,
    limit: Option<usize>,
    after: DecompressorView,
    out: Seq<u8>,
)
    requires
        after.consistent(),
        decompress_effect(fresh_decompressor(), stream + trailing, limit, after, Ok(out)),
        after.eof,
        after.consumed == stream,
    ensures
        after.unused_data == trailing,
        after.produced == out,
        !after.needs_input,
{
    assert((stream + trailing).skip(stream.len() as int) =~= trailing);
}

/// The end of the stream is final: every later `decompress` is refused and
/// changes nothing, so the unused data stays as it is.
pub proof fn end_of_stream_is_final(
    before: DecompressorView,
    data: Seq<u8>,
    limit: Option<usize>,
    after: DecompressorView,
    res: Result<Seq<u8>, Bz2Error>,
)
    requires
        before.eof,
        decompress_effect(before, data, limit, after, res),
    ensures
        refused(res, Bz2Error::StreamExhaustedError),
        after == before,
{
}

/// A session that asks for input has handed the codec every byte it was
/// given.
pub proof fn needs_input_means_all_taken(session: DecompressorView)
    requires
        session.consistent(),
        session.needs_input,
    ensures
        !session.eof,
        session.supplied() == session.consumed,
{
}

} // verus!
