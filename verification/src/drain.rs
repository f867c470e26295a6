//! The bounded output drain that both sessions share.
//!
//! A session drives its codec stream in steps.  Each step offers the stream
//! some input and a scratch buffer of bounded size, measures how far the
//! stream got by its byte counters, and moves what was written into the
//! growing result.

use crate::codec::{
    counter_modulus, dec_given, dec_phase, dec_taken, decoder_phase_after, decoder_step,
    decoder_total_in, decoder_total_out, enc_given, enc_level, enc_phase, enc_taken,
    encoder_accepts, encoder_answer, encoder_step, encoder_total_in, encoder_total_out,
    wrong_start, DecoderPhase, StreamAction, StreamStatus,
};
use bzip2::{Compress, Decompress};
use vstd::arithmetic::div_mod::{lemma_small_mod, lemma_sub_mod_noop};
use vstd::math::{max, min};
use vstd::prelude::*;
use vstd::slice::{slice_subrange, slice_to_vec};

verus! {

/// The most that one step asks a stream to write.
pub const BUFSIZ: usize = 8192;

/// How far one step brought a stream.
#[derive(Debug, Clone, Copy)]
pub struct StepReport {
    /// The number of input bytes the stream took.
    pub consumed: usize,
    /// The number of output bytes the stream wrote.
    pub produced: usize,
    /// What the stream said of the call.
    pub status: StreamStatus,
}

/// What came of one step of a decompression stream.
#[derive(Debug, Clone, Copy)]
pub enum Step {
    /// The codec accepted the call; the report says how far it got.
    Accepted(StepReport),
    /// The codec rejected the call.
    Rejected,
}

/// What a session does after a step of its decompression stream.
#[derive(Debug, Clone, Copy, PartialEq, Eq, Structural)]
pub enum Verdict {
    /// The step moved bytes and the stream goes on: step again.
    Continue,
    /// The stream has reached its end.
    Ended,
    /// The step moved nothing and there was no input to offer: the stream
    /// waits for more.
    Starved,
    /// The stream cannot go on: the codec rejected the step or lacks the
    /// memory it needs, or the step moved nothing although there was input
    /// to take and room to write.
    Failed,
}

/// The verdict on a step that was offered `offered` bytes of input, and
/// room to write to.
pub open spec fn verdict_of(step: Step, offered: nat) -> Verdict {
    match step {
        Step::Rejected => Verdict::Failed,
        Step::Accepted(report) => if report.status == StreamStatus::StreamEnd {
            Verdict::Ended
        } else if report.status == StreamStatus::MemNeeded {
            Verdict::Failed
        } else if report.consumed > 0 || report.produced > 0 {
            Verdict::Continue
        } else if offered == 0 {
            Verdict::Starved
        } else {
            Verdict::Failed
        },
    }
}

/// The phase that a step leaves the stream in, where the step was offered
/// `offered` bytes of input and `room` bytes to write to.
pub open spec fn phase_after(step: Step, offered: nat, room: nat) -> DecoderPhase {
    match step {
        Step::Rejected => DecoderPhase::Rejected,
        Step::Accepted(report) => decoder_phase_after(
            report.status,
            report.consumed == 0 && report.produced == 0,
            offered,
            room,
        ),
    }
}

/// Decides what follows a step that was offered `offered` bytes of input,
/// and room to write to.
pub fn judge(step: &Step, offered: usize) -> (verdict: Verdict)
    ensures
        verdict == verdict_of(*step, offered as nat),
{
    match step {
        Step::Rejected => Verdict::Failed,
        Step::Accepted(report) => match report.status {
            StreamStatus::StreamEnd => Verdict::Ended,
            StreamStatus::MemNeeded => Verdict::Failed,
            _ => {
                if report.consumed > 0 || report.produced > 0 {
                    Verdict::Continue
                } else if offered == 0 {
                    Verdict::Starved
                } else {
                    Verdict::Failed
                }
            },
        },
    }
}

/// The caller's bound on the output of one call: none where `max_length`
/// is absent or negative.
pub open spec fn output_limit(max_length: Option<i32>) -> Option<usize> {
    match max_length {
        Some(most) if most >= 0 => Some(most as usize),
        _ => None,
    }
}

/// Reads the caller's bound on the output of one call.
pub fn read_limit(max_length: Option<i32>) -> (limit: Option<usize>)
    ensures
        limit == output_limit(max_length),
{
    match max_length {
        Some(most) => {
            if most >= 0 {
                Some(most as usize)
            } else {
                None
            }
        },
        None => None,
    }
}

/// The distance from `before` to `after` on a 64-bit counter that wraps
/// around.
pub open spec fn counter_advance(before: u64, after: u64) -> int {
    (after - before) % counter_modulus()
}

/// Computes the distance between two readings of a wrapping 64-bit counter.
pub fn measure_advance(before: u64, after: u64) -> (n: u64)
    ensures
        n == counter_advance(before, after),
{
    after.wrapping_sub(before)
}

/// Two readings of a counter that holds a length modulo 2^64 tell how much
/// the length grew, as long as it grew by less than 2^64.
pub proof fn lemma_counter_advance(len_before: nat, len_after: nat)
    requires
        len_before <= len_after,
        len_after - len_before < counter_modulus(),
    ensures
        counter_advance(
            (len_before % (counter_modulus() as nat)) as u64,
            (len_after % (counter_modulus() as nat)) as u64,
        ) == len_after - len_before,
{
    let m: int = counter_modulus();
    lemma_sub_mod_noop(len_after as int, len_before as int, m);
    lemma_small_mod((len_after - len_before) as nat, m as nat);
}

/// How many bytes the next step may write: the scratch size, or what is
/// left of the caller's limit if that is less.
pub open spec fn room_left(limit: Option<usize>, collected: nat) -> nat {
    match limit {
        None => BUFSIZ as nat,
        Some(most) => min(BUFSIZ as int, max(most - collected, 0)) as nat,
    }
}

/// Whether `collected` bytes are all that the caller's limit allows.
pub open spec fn limit_reached(limit: Option<usize>, collected: nat) -> bool {
    match limit {
        None => false,
        Some(most) => collected == most,
    }
}

/// Computes the room for the next step.
pub fn drain_room(limit: Option<usize>, collected: usize) -> (room: usize)
    ensures
        room == room_left(limit, collected as nat),
{
    match limit {
        None => BUFSIZ,
        Some(most) => {
            if collected >= most {
                0
            } else if most - collected < BUFSIZ {
                most - collected
            } else {
                BUFSIZ
            }
        },
    }
}

/// Appends the first `n` bytes of `scratch` to `out`.
pub fn append_front(out: &mut Vec<u8>, scratch: &Vec<u8>, n: usize)
    requires
        n <= scratch@.len(),
    ensures
        final(out)@ == old(out)@ + scratch@.take(n as int),
{
    let mut part = slice_to_vec(slice_subrange(scratch.as_slice(), 0, n));
    out.append(&mut part);
}

/// One step of a compression stream, measured.
///
/// The stream takes the first `consumed` bytes of `input` and writes
/// `produced` bytes to the front of `scratch`; a step always moves at least
/// one byte.
pub(crate) fn encoder_advance(
    c: &mut Compress,
    input: &[u8],
    scratch: &mut Vec<u8>,
    action: StreamAction,
) -> (report: StepReport)
    requires
        old(scratch)@.len() > 0,
        encoder_accepts(action, enc_phase(*old(c)), input@.len()),
    ensures
        final(scratch)@.len() == old(scratch)@.len(),
        report.consumed <= input@.len(),
        report.produced <= final(scratch)@.len(),
        report.consumed + report.produced > 0,
        enc_level(*final(c)) == enc_level(*old(c)),
        enc_taken(*final(c)) == enc_taken(*old(c)) + input@.take(report.consumed as int),
        enc_given(*final(c)) == enc_given(*old(c)) + final(scratch)@.take(report.produced as int),
        encoder_answer(action, report.status, enc_phase(*final(c))),
{
    let in_before: u64 = encoder_total_in(c);
    let out_before: u64 = encoder_total_out(c);
    let status = match encoder_step(c, input, scratch, action) {
        Ok(status) => status,
        Err(_) => {
            // The codec accepts every call that `encoder_accepts` admits.
            assert(false);
            StreamStatus::Fine
        },
    };
    let in_after: u64 = encoder_total_in(c);
    let out_after: u64 = encoder_total_out(c);
    proof {
        assert(input@.len() == input.len() && scratch@.len() == scratch.len());
        lemma_counter_advance(enc_taken(*old(c)).len(), enc_taken(*c).len());
        lemma_counter_advance(enc_given(*old(c)).len(), enc_given(*c).len());
    }
    let consumed: usize = measure_advance(in_before, in_after) as usize;
    let produced: usize = measure_advance(out_before, out_after) as usize;
    StepReport { consumed, produced, status }
}

/// One step of a decompression stream, measured.
///
/// Where the codec accepts the call, the stream takes the first `consumed`
/// bytes of `input` and writes `produced` bytes to the front of `scratch`.
/// Either way the stream's phase records what came of the step.  A stream
/// that has taken nothing rejects what cannot be the start of a stream.
pub(crate) fn decoder_advance(d: &mut Decompress, input: &[u8], scratch: &mut Vec<u8>) -> (step:
    Step)
    ensures
        final(scratch)@.len() == old(scratch)@.len(),
        dec_phase(*final(d)) == phase_after(step, input@.len(), final(scratch)@.len()),
        dec_taken(*old(d)).len() == 0 && wrong_start(input@) ==> step is Rejected,
        step matches Step::Accepted(report) ==> {
            &&& report.consumed <= input@.len()
            &&& report.produced <= final(scratch)@.len()
            &&& dec_taken(*final(d)) == dec_taken(*old(d)) + input@.take(report.consumed as int)
            &&& dec_given(*final(d)) == dec_given(*old(d)) + final(scratch)@.take(
                report.produced as int,
            )
        },
{
    let in_before: u64 = decoder_total_in(d);
    let out_before: u64 = decoder_total_out(d);
    match decoder_step(d, input, scratch) {
        Ok(status) => {
            let in_after: u64 = decoder_total_in(d);
            let out_after: u64 = decoder_total_out(d);
            proof {
                assert(input@.len() == input.len() && scratch@.len() == scratch.len());
                lemma_counter_advance(dec_taken(*old(d)).len(), dec_taken(*d).len());
                lemma_counter_advance(dec_given(*old(d)).len(), dec_given(*d).len());
            }
            let consumed: usize = measure_advance(in_before, in_after) as usize;
            let produced: usize = measure_advance(out_before, out_after) as usize;
            Step::Accepted(StepReport { consumed, produced, status })
        },
        Err(_) => Step::Rejected,
    }
}

} // verus!
