//! The boundary to the bzip2 codec.
//!
//! The codec's streams are opaque here.  What the library needs to know of
//! a stream has a name: the bytes it has taken in, the bytes it has given
//! out, the phase it is in, and for a compression stream its level.  Each
//! function of this file makes one call into the codec and states, over
//! those names, what the codec's source shows of that call.  None of this is
//! proved; the rest of the crate is proved against it.

use bzip2::{Action, Compress, Compression, Decompress, Status};
use vstd::prelude::*;

verus! {

/// The codec's compression stream.
#[verifier::external_type_specification]
#[verifier::external_body]
pub struct ExCompress(bzip2::Compress);

/// The codec's decompression stream.
#[verifier::external_type_specification]
#[verifier::external_body]
pub struct ExDecompress(bzip2::Decompress);

/// The codec's error value.
#[verifier::external_type_specification]
#[verifier::external_body]
pub struct ExCodecError(bzip2::Error);

/// Where a compression stream stands in its life.
pub enum EncoderPhase {
    /// Input is accepted.
    Running,
    /// The end of input has been signalled and output is still owed.
    Finishing,
    /// The stream is complete: nothing more goes in or comes out.
    Ended,
}

/// Where a decompression stream stands in its life: a record of how its
/// last call went.
pub enum DecoderPhase {
    /// The stream's last call took input, gave output, or had no room to
    /// write to: it may have more to give.
    Working,
    /// The stream is new, or its last call was offered room to write and no
    /// input and moved nothing: it waits for input.
    Waiting,
    /// A call has reported the end of the stream.
    Ended,
    /// The stream's last call reported that the codec lacks the memory it
    /// needs, or was offered input and room and moved nothing: it cannot go
    /// on.
    Stalled,
    /// The codec rejected the stream's last call.
    Rejected,
}

/// What the codec is asked to do with a compression stream.
#[derive(Clone, Copy, PartialEq, Eq, Structural)]
pub enum StreamAction {
    /// Take more input.
    Run,
    /// Take no more input and bring the stream to its end.
    Finish,
}

/// What the codec reports of a call that it accepted.
#[derive(Debug, Clone, Copy, PartialEq, Eq, Structural)]
pub enum StreamStatus {
    /// Decompression went on; there is nothing more to say.
    Fine,
    /// A request to flush the current block was taken.
    FlushOk,
    /// A request to run was taken.
    RunOk,
    /// A request to finish was taken and more output is owed.
    FinishOk,
    /// The stream has reached its end.
    StreamEnd,
    /// The codec could not get the memory it needs.
    MemNeeded,
}

/// The block size, in units of 100 kB, that a compression stream was made
/// with.
pub uninterp spec fn enc_level(c: Compress) -> nat;

/// The phase a compression stream is in.
pub uninterp spec fn enc_phase(c: Compress) -> EncoderPhase;

/// All the bytes a compression stream has taken in since it was made, in
/// order.
pub uninterp spec fn enc_taken(c: Compress) -> Seq<u8>;

/// All the bytes a compression stream has given out since it was made, in
/// order.
pub uninterp spec fn enc_given(c: Compress) -> Seq<u8>;

/// The phase a decompression stream is in.
pub uninterp spec fn dec_phase(d: Decompress) -> DecoderPhase;

/// All the bytes a decompression stream has taken in since it was made, in
/// order.
pub uninterp spec fn dec_taken(d: Decompress) -> Seq<u8>;

/// All the bytes a decompression stream has given out since it was made,
/// in order.
pub uninterp spec fn dec_given(d: Decompress) -> Seq<u8>;

/// `after` is `before` followed by some leading part of `source`.
pub open spec fn grown_from(before: Seq<u8>, after: Seq<u8>, source: Seq<u8>) -> bool {
    &&& before.len() <= after.len() <= before.len() + source.len()
    &&& after == before + source.take(after.len() - before.len())
}

/// The size of the codec's byte counters: they count modulo this.
pub open spec fn counter_modulus() -> int {
    0x1_0000_0000_0000_0000
}

/// The calls that a compression stream accepts: to run while it is running
/// and there is input, to finish without input until it has ended.
pub open spec fn encoder_accepts(
    action: StreamAction,
    phase: EncoderPhase,
    input_len: nat,
) -> bool {
    match action {
        StreamAction::Run => phase == EncoderPhase::Running && input_len > 0,
        StreamAction::Finish => phase != EncoderPhase::Ended && input_len == 0,
    }
}

/// What a compression stream answers to an accepted call, and the phase it
/// is in afterwards.
pub open spec fn encoder_answer(
    action: StreamAction,
    status: StreamStatus,
    phase: EncoderPhase,
) -> bool {
    match action {
        StreamAction::Run => status == StreamStatus::RunOk && phase == EncoderPhase::Running,
        StreamAction::Finish => {
            ||| status == StreamStatus::FinishOk && phase == EncoderPhase::Finishing
            ||| status == StreamStatus::StreamEnd && phase == EncoderPhase::Ended
        },
    }
}

/// The phase of a decompression stream after an accepted call that answered
/// `status` and was offered `offered` bytes of input and `room` bytes to
/// write to; `idle` says that the call moved no byte either way.
pub open spec fn decoder_phase_after(
    status: StreamStatus,
    idle: bool,
    offered: nat,
    room: nat,
) -> DecoderPhase {
    if status == StreamStatus::StreamEnd {
        DecoderPhase::Ended
    } else if status == StreamStatus::MemNeeded {
        DecoderPhase::Stalled
    } else if idle && room > 0 {
        if offered == 0 {
            DecoderPhase::Waiting
        } else {
            DecoderPhase::Stalled
        }
    } else {
        DecoderPhase::Working
    }
}

/// Whether `input` cannot be the start of a stream: one of its first four
/// bytes is not what the header has there, which is `B`, `Z`, `h` and a
/// digit from 1 to 9.
pub open spec fn wrong_start(input: Seq<u8>) -> bool {
    ||| input.len() >= 1 && input[0] != 0x42
    ||| input.len() >= 2 && input[1] != 0x5a
    ||| input.len() >= 3 && input[2] != 0x68
    ||| input.len() >= 4 && !(0x31 <= input[3] <= 0x39)
}

/// `bzip2::Compress::new`, with the level made by `bzip2::Compression::new`.
///
/// The codec takes levels 1 to 9 and work factors up to 250, and `bzip2`
/// panics on others.  The new stream is running, has taken and given
/// nothing, and keeps its level.
#[verifier::external_body]
pub(crate) fn encoder_new(level: u32, work_factor: u32) -> (c: Compress)
    requires
        1 <= level <= 9,
        work_factor <= 250,
    ensures
        enc_level(c) == level,
        enc_phase(c) == EncoderPhase::Running,
        enc_taken(c) == Seq::<u8>::empty(),
        enc_given(c) == Seq::<u8>::empty(),
{
    Compress::new(Compression::new(level), work_factor)
}

/// `bzip2::Compress::total_in`: the number of bytes taken in so far, as the
/// codec's 64-bit counter holds it.
#[verifier::external_body]
pub(crate) fn encoder_total_in(c: &Compress) -> (n: u64)
    ensures
        n == enc_taken(*c).len() % (counter_modulus() as nat),
{
    c.total_in()
}

/// `bzip2::Compress::total_out`: the number of bytes given out so far, as
/// the codec's 64-bit counter holds it.
#[verifier::external_body]
pub(crate) fn encoder_total_out(c: &Compress) -> (n: u64)
    ensures
        n == enc_given(*c).len() % (counter_modulus() as nat),
{
    c.total_out()
}

/// `bzip2::Compress::compress`, with the whole of `scratch` to write to.
///
/// This states the codec's state machine, `BZ2_bzCompress` of libbz2, for
/// the two requests that the library makes:
///
/// * a running stream that is asked to run, with input on offer and room
///   to write, moves at least one byte, answers `RunOk` and stays running;
/// * a stream that has not ended and is asked to finish, with no input,
///   writes at least one byte of what it owes, and answers `FinishOk`
///   while more is owed, `StreamEnd` when the stream is complete.
///
/// Either way the bytes taken are a leading part of `input` and the bytes
/// given out are the leading part of what `scratch` then holds.  The calls
/// that `requires` leaves out are those that the codec refuses, and the
/// request to run that can move nothing, on which `bzip2` panics.
#[verifier::external_body]
pub(crate) fn encoder_step(
    c: &mut Compress,
    input: &[u8],
    scratch: &mut Vec<u8>,
    action: StreamAction,
) -> (res: Result<StreamStatus, bzip2::Error>)
    requires
        old(scratch)@.len() > 0,
        encoder_accepts(action, enc_phase(*old(c)), input@.len()),
    ensures
        final(scratch)@.len() == old(scratch)@.len(),
        enc_level(*final(c)) == enc_level(*old(c)),
        grown_from(enc_taken(*old(c)), enc_taken(*final(c)), input@),
        grown_from(enc_given(*old(c)), enc_given(*final(c)), final(scratch)@),
        enc_taken(*final(c)).len() + enc_given(*final(c)).len() > enc_taken(*old(c)).len()
            + enc_given(*old(c)).len(),
        res matches Ok(status) && encoder_answer(action, status, enc_phase(*final(c))),
{
    let action = match action {
        StreamAction::Run => Action::Run,
        StreamAction::Finish => Action::Finish,
    };
    match c.compress(input, scratch.as_mut_slice(), action) {
        Ok(Status::Ok) => Ok(StreamStatus::Fine),
        Ok(Status::FlushOk) => Ok(StreamStatus::FlushOk),
        Ok(Status::RunOk) => Ok(StreamStatus::RunOk),
        Ok(Status::FinishOk) => Ok(StreamStatus::FinishOk),
        Ok(Status::StreamEnd) => Ok(StreamStatus::StreamEnd),
        Ok(Status::MemNeeded) => Ok(StreamStatus::MemNeeded),
        Err(e) => Err(e),
    }
}

/// `bzip2::Decompress::new`.  With `small` the codec decodes in less memory
/// and more time; the bytes are the same.  The new stream has taken and
/// given nothing, and waits for input.
#[verifier::external_body]
pub(crate) fn decoder_new(small: bool) -> (d: Decompress)
    ensures
        dec_phase(d) == DecoderPhase::Waiting,
        dec_taken(d) == Seq::<u8>::empty(),
        dec_given(d) == Seq::<u8>::empty(),
{
    Decompress::new(small)
}

/// `bzip2::Decompress::total_in`: the number of bytes taken in so far, as
/// the codec's 64-bit counter holds it.
#[verifier::external_body]
pub(crate) fn decoder_total_in(d: &Decompress) -> (n: u64)
    ensures
        n == dec_taken(*d).len() % (counter_modulus() as nat),
{
    d.total_in()
}

/// `bzip2::Decompress::total_out`: the number of bytes given out so far, as
/// the codec's 64-bit counter holds it.
#[verifier::external_body]
pub(crate) fn decoder_total_out(d: &Decompress) -> (n: u64)
    ensures
        n == dec_given(*d).len() % (counter_modulus() as nat),
{
    d.total_out()
}

/// `bzip2::Decompress::decompress`, with the whole of `scratch` to write to.
///
/// Where the codec accepts the call, the stream has taken a leading part of
/// `input`, and what it gave out is the leading part of what `scratch` then
/// holds.  The stream's phase records how the call went: rejected where the
/// codec returned an error, and for an accepted call what
/// `decoder_phase_after` says.  A stream that has taken nothing reads the
/// header first and rejects the call at the first byte on offer that is
/// not the header's.  Beyond that, how much is moved and whether the call
/// is accepted depends on the bytes of the stream: nothing is promised of
/// either, and nothing is said of what a rejected call moved.
#[verifier::external_body]
pub(crate) fn decoder_step(d: &mut Decompress, input: &[u8], scratch: &mut Vec<u8>) -> (res: Result<
    StreamStatus,
    bzip2::Error,
>)
    ensures
        final(scratch)@.len() == old(scratch)@.len(),
        res is Ok ==> grown_from(dec_taken(*old(d)), dec_taken(*final(d)), input@),
        res is Ok ==> grown_from(dec_given(*old(d)), dec_given(*final(d)), final(scratch)@),
        res is Err ==> dec_phase(*final(d)) == DecoderPhase::Rejected,
        dec_taken(*old(d)).len() == 0 && wrong_start(input@) ==> res is Err,
        res matches Ok(status) ==> dec_phase(*final(d)) == decoder_phase_after(
            status,
            dec_taken(*final(d)) == dec_taken(*old(d)) && dec_given(*final(d)) == dec_given(
                *old(d),
            ),
            input@.len(),
            old(scratch)@.len(),
        ),
{
    match d.decompress(input, scratch.as_mut_slice()) {
        Ok(Status::Ok) => Ok(StreamStatus::Fine),
        Ok(Status::FlushOk) => Ok(StreamStatus::FlushOk),
        Ok(Status::RunOk) => Ok(StreamStatus::RunOk),
        Ok(Status::FinishOk) => Ok(StreamStatus::FinishOk),
        Ok(Status::StreamEnd) => Ok(StreamStatus::StreamEnd),
        Ok(Status::MemNeeded) => Ok(StreamStatus::MemNeeded),
        Err(e) => Err(e),
    }
}

} // verus!
