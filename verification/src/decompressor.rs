//! The decompression session.

use crate::codec::{dec_given, dec_phase, dec_taken, decoder_new, wrong_start, DecoderPhase};
use crate::drain::{
    append_front, decoder_advance, drain_room, judge, limit_reached, output_limit, read_limit,
    room_left, Step, Verdict, BUFSIZ,
};
use crate::error::{outcome, refused, returned, Bz2Error};
use bzip2::Decompress;
use vstd::prelude::*;
use vstd::slice::{slice_subrange, slice_to_vec};

verus! {

/// Whether the codec trades speed for memory when it decodes.
pub const SMALL: bool = false;

/// Where a session stands between calls: all of it but the codec's stream.
#[derive(Debug)]
pub struct Standing {
    /// The bytes that the session has accepted and the stream has not yet
    /// taken.
    pub pending: Vec<u8>,
    /// The bytes that followed the end of the stream.
    pub unused_data: Vec<u8>,
    /// Whether the end of the stream has been reached.
    pub eof: bool,
    /// Whether the stream waits for more input.
    pub needs_input: bool,
    /// Whether the stream has failed.
    pub broken: bool,
}

/// A standing, with its bytes as sequences.
pub struct StandingView {
    /// The bytes accepted and not yet taken by the stream.
    pub pending: Seq<u8>,
    /// The bytes that followed the end of the stream.
    pub unused_data: Seq<u8>,
    /// Whether the end of the stream has been reached.
    pub eof: bool,
    /// Whether the stream waits for more input.
    pub needs_input: bool,
    /// Whether the stream has failed.
    pub broken: bool,
}

impl View for Standing {
    type V = StandingView;

    open spec fn view(&self) -> StandingView {
        StandingView {
            pending: self.pending@,
            unused_data: self.unused_data@,
            eof: self.eof,
            needs_input: self.needs_input,
            broken: self.broken,
        }
    }
}

/// Where a session stands after a drain that was offered `input`, of
/// which the stream took the first `used` bytes, and that stopped on
/// `verdict`.  What the stream did not take follows the end of the stream
/// where the stream has ended, and is pending otherwise.  The session is at
/// the end after the verdict `Ended`, needs input after `Starved` with
/// nothing pending, is broken after `Failed`, and none of these after
/// `Continue`, which stops a drain only at the caller's limit.
pub open spec fn settled(input: Seq<u8>, used: int, verdict: Verdict) -> StandingView {
    let rest = input.skip(used);
    StandingView {
        pending: if verdict == Verdict::Ended {
            Seq::empty()
        } else {
            rest
        },
        unused_data: if verdict == Verdict::Ended {
            rest
        } else {
            Seq::empty()
        },
        eof: verdict == Verdict::Ended,
        needs_input: verdict == Verdict::Starved && rest.len() == 0,
        broken: verdict == Verdict::Failed,
    }
}

/// What a call returns after a drain that collected `out` and stopped on
/// `verdict`: the corrupt-stream error after `Failed`, and `out` otherwise.
pub open spec fn answer_of(out: Seq<u8>, verdict: Verdict) -> Result<Seq<u8>, Bz2Error> {
    if verdict == Verdict::Failed {
        Err(Bz2Error::CorruptStreamError)
    } else {
        Ok(out)
    }
}

/// Works out where a session stands after a drain.
pub fn settle(input: &Vec<u8>, used: usize, verdict: Verdict) -> (standing: Standing)
    requires
        used <= input@.len(),
    ensures
        standing@ == settled(input@, used as int, verdict),
{
    let rest = slice_to_vec(slice_subrange(input.as_slice(), used, input.len()));
    let starved = rest.len() == 0;
    match verdict {
        Verdict::Ended => Standing {
            pending: Vec::new(),
            unused_data: rest,
            eof: true,
            needs_input: false,
            broken: false,
        },
        Verdict::Starved => Standing {
            pending: rest,
            unused_data: Vec::new(),
            eof: false,
            needs_input: starved,
            broken: false,
        },
        Verdict::Continue => Standing {
            pending: rest,
            unused_data: Vec::new(),
            eof: false,
            needs_input: false,
            broken: false,
        },
        Verdict::Failed => Standing {
            pending: rest,
            unused_data: Vec::new(),
            eof: false,
            needs_input: false,
            broken: true,
        },
    }
}

/// Works out what a call returns after a drain.
pub fn answer(out: Vec<u8>, verdict: Verdict) -> (res: Result<Vec<u8>, Bz2Error>)
    ensures
        outcome(res) == answer_of(out@, verdict),
{
    match verdict {
        Verdict::Failed => Err(Bz2Error::CorruptStreamError),
        _ => Ok(out),
    }
}

/// What a decompression session is, seen from outside.
pub struct DecompressorView {
    /// Every byte that the stream has taken in, in order.
    pub consumed: Seq<u8>,
    /// Every byte that `decompress` has returned, in order.
    pub produced: Seq<u8>,
    /// The bytes that the session has accepted and the stream has not yet
    /// taken.
    pub pending: Seq<u8>,
    /// The bytes that followed the end of the stream.
    pub unused_data: Seq<u8>,
    /// Whether the end of the stream has been reached.
    pub eof: bool,
    /// Whether the stream waits for more input.
    pub needs_input: bool,
    /// Whether the stream has failed.
    pub broken: bool,
    /// The phase of the codec's stream.
    pub phase: DecoderPhase,
}

impl DecompressorView {
    /// Every byte that the session has accepted, in order.
    pub open spec fn supplied(self) -> Seq<u8> {
        self.consumed + self.pending + self.unused_data
    }

    /// Whether the codec has rejected the stream or cannot go on with it.
    pub open spec fn failed(self) -> bool {
        self.phase == DecoderPhase::Rejected || self.phase == DecoderPhase::Stalled
    }

    /// What holds of every session.  It is at the end of the stream exactly
    /// when the codec has reported the end; then nothing is pending and no
    /// input is needed, and before it there is no unused data.  It needs
    /// input only when the codec waits for input and has taken all that the
    /// session was given.  It is broken exactly when the codec has rejected
    /// the stream or cannot go on with it.
    pub open spec fn consistent(self) -> bool {
        &&& self.eof <==> self.phase == DecoderPhase::Ended
        &&& self.broken <==> self.failed()
        &&& self.eof ==> self.pending.len() == 0
        &&& !self.eof ==> self.unused_data.len() == 0
        &&& self.needs_input ==> self.pending.len() == 0 && self.phase == DecoderPhase::Waiting
    }
}

/// A session as it is when made.
pub open spec fn fresh_decompressor() -> DecompressorView {
    DecompressorView {
        consumed: Seq::empty(),
        produced: Seq::empty(),
        pending: Seq::empty(),
        unused_data: Seq::empty(),
        eof: false,
        needs_input: true,
        broken: false,
        phase: DecoderPhase::Waiting,
    }
}

/// What `decompress` does.
///
/// After the end of the stream it refuses the call, and so it does once the
/// stream has failed; the session stays as it was.  With a limit of zero
/// the codec is not asked and the call only keeps `data` for later.
/// Otherwise the call fails exactly where the codec rejected a step or
/// could not go on, and then the session is broken; this is so where the
/// stream has taken nothing yet and the bytes offered cannot be the start
/// of a stream.  Where the call succeeds it has accepted all of `data`, the
/// bytes returned are those the stream gave out, no more than `limit` of
/// them, and the call went on until the stream ended, or waited for input,
/// or the limit was reached.
pub open spec fn decompress_effect(
    pre: DecompressorView,
    data: Seq<u8>,
    limit: Option<usize>,
    post: DecompressorView,
    res: Result<Seq<u8>, Bz2Error>,
) -> bool {
    if pre.eof {
        refused(res, Bz2Error::StreamExhaustedError) && post == pre
    } else if pre.broken {
        refused(res, Bz2Error::CorruptStreamError) && post == pre
    } else if limit == Some(0usize) {
        &&& returned(res, Seq::empty())
        &&& post == (DecompressorView { pending: pre.pending + data, needs_input: false, ..pre })
    } else if post.failed() {
        &&& refused(res, Bz2Error::CorruptStreamError)
        &&& post.broken
    } else {
        &&& !(pre.consumed.len() == 0 && wrong_start(pre.pending + data))
        &&& res matches Ok(out)
        &&& !post.broken
        &&& post.produced == pre.produced + out
        &&& pre.consumed.is_prefix_of(post.consumed)
        &&& post.supplied() == pre.supplied() + data
        &&& limit matches Some(most) ==> out.len() <= most
        &&& post.eof || post.needs_input || limit_reached(limit, out.len())
    }
}

/// A session that decompresses what it is fed, chunk by chunk.
pub struct BZ2Decompressor {
    decoder: Decompress,
    standing: Standing,
}

impl View for BZ2Decompressor {
    type V = DecompressorView;

    closed spec fn view(&self) -> DecompressorView {
        DecompressorView {
            consumed: dec_taken(self.decoder),
            produced: dec_given(self.decoder),
            pending: self.standing.pending@,
            unused_data: self.standing.unused_data@,
            eof: self.standing.eof,
            needs_input: self.standing.needs_input,
            broken: self.standing.broken,
            phase: dec_phase(self.decoder),
        }
    }
}

impl BZ2Decompressor {
    /// What holds of every session: see `DecompressorView::consistent`.
    pub open spec fn wf(&self) -> bool {
        self@.consistent()
    }

    /// Makes a session at the start of a stream.
    pub fn new() -> (session: BZ2Decompressor)
        ensures
            session.wf(),
            session@ == fresh_decompressor(),
    {
        BZ2Decompressor {
            decoder: decoder_new(SMALL),
            standing: Standing {
                pending: Vec::new(),
                unused_data: Vec::new(),
                eof: false,
                needs_input: true,
                broken: false,
            },
        }
    }

    /// The name a host shows for the session: that of its module and its
    /// own.
    pub fn repr(&self) -> (text: &'static str)
        ensures
            text@ == "_bz2.BZ2Decompressor"@,
    {
        "_bz2.BZ2Decompressor"
    }

    /// Whether the end of the stream has been reached.
    pub fn eof(&self) -> (b: bool)
        ensures
            b == self@.eof,
    {
        self.standing.eof
    }

    /// The bytes that followed the end of the stream; none before the end
    /// is reached.
    pub fn unused_data(&self) -> (bytes: &[u8])
        ensures
            bytes@ == self@.unused_data,
    {
        self.standing.unused_data.as_slice()
    }

    /// Whether `decompress` can give nothing more until it is fed new
    /// input.
    pub fn needs_input(&self) -> (b: bool)
        ensures
            b == self@.needs_input,
    {
        self.standing.needs_input
    }

    /// Feeds `data` to the session and returns the decompressed bytes that
    /// are available, at most `max_length` of them where that is not
    /// negative.
    pub fn decompress(&mut self, data: &[u8], max_length: Option<i32>) -> (res: Result<
        Vec<u8>,
        Bz2Error,
    >)
        requires
            old(self).wf(),
        ensures
            final(self).wf(),
            decompress_effect(
                old(self)@,
                data@,
                output_limit(max_length),
                final(self)@,
                outcome(res),
            ),
    {
        if self.standing.eof {
            return Err(Bz2Error::StreamExhaustedError);
        }
        if self.standing.broken {
            return Err(Bz2Error::CorruptStreamError);
        }
        let limit = read_limit(max_length);
        let mut fresh = slice_to_vec(data);
        self.standing.pending.append(&mut fresh);
        let ghost input = self.standing.pending@;
        let total: usize = self.standing.pending.len();
        let mut out: Vec<u8> = Vec::new();
        let mut scratch: Vec<u8> = vec![0u8; BUFSIZ];
        let mut pos: usize = 0;
        let mut verdict = Verdict::Continue;
        // The loop goes on only after a step that took input or gave
        // output, so it ends: the input left shrinks, or else the result
        // grows.
        loop
            invariant_except_break
                verdict == Verdict::Continue,
                dec_taken(self.decoder) == dec_taken(old(self).decoder) + input.take(pos as int),
                dec_given(self.decoder) == dec_given(old(self).decoder) + out@,
                dec_phase(self.decoder) != DecoderPhase::Ended,
                dec_phase(self.decoder) != DecoderPhase::Rejected,
                dec_phase(self.decoder) != DecoderPhase::Stalled,
                limit == Some(0usize) ==> pos == 0 && dec_phase(self.decoder) == dec_phase(
                    old(self).decoder,
                ),
                old(self)@.consumed.len() == 0 && wrong_start(input) ==> pos == 0 && out@.len()
                    == 0,
            invariant
                limit == output_limit(max_length),
                input == old(self)@.pending + data@,
                self.standing.pending@ == input,
                total == input.len(),
                pos <= total,
                scratch@.len() >= room_left(limit, out@.len()),
                limit matches Some(most) ==> out@.len() <= most,
            ensures
                verdict != Verdict::Failed ==> {
                    &&& dec_taken(self.decoder) == dec_taken(old(self).decoder) + input.take(
                        pos as int,
                    )
                    &&& dec_given(self.decoder) == dec_given(old(self).decoder) + out@
                },
                verdict == Verdict::Continue ==> {
                    &&& limit_reached(limit, out@.len())
                    &&& dec_phase(self.decoder) != DecoderPhase::Ended
                    &&& dec_phase(self.decoder) != DecoderPhase::Rejected
                    &&& dec_phase(self.decoder) != DecoderPhase::Stalled
                    &&& limit == Some(0usize) ==> pos == 0 && dec_phase(self.decoder)
                        == dec_phase(old(self).decoder)
                },
                verdict != Verdict::Continue ==> limit != Some(0usize),
                old(self)@.consumed.len() == 0 && wrong_start(input) && limit != Some(0usize)
                    ==> verdict == Verdict::Failed,
                verdict == Verdict::Ended ==> dec_phase(self.decoder) == DecoderPhase::Ended,
                verdict == Verdict::Starved ==> pos == total && dec_phase(self.decoder)
                    == DecoderPhase::Waiting,
                verdict == Verdict::Failed ==> dec_phase(self.decoder) == DecoderPhase::Rejected
                    || dec_phase(self.decoder) == DecoderPhase::Stalled,
            decreases total - pos, usize::MAX - out@.len(),
        {
            let room: usize = drain_room(limit, out.len());
            if room == 0 {
                break ;
            }
            scratch.truncate(room);
            let rest = slice_subrange(self.standing.pending.as_slice(), pos, total);
            let step = decoder_advance(&mut self.decoder, rest, &mut scratch);
            verdict = judge(&step, rest.len());
            match step {
                Step::Accepted(report) => {
                    append_front(&mut out, &scratch, report.produced);
                    proof {
                        assert(out@.len() == out.len());
                    }
                    pos = pos + report.consumed;
                },
                Step::Rejected => {},
            }
            match verdict {
                Verdict::Continue => {},
                _ => {
                    break ;
                },
            }
        }
        let standing = settle(&self.standing.pending, pos, verdict);
        self.standing = standing;
        proof {
            let pre = old(self)@;
            let post = self@;
            if limit == Some(0usize) {
                // The codec was not asked: all that changed is what is pending.
                assert(post.unused_data =~= pre.unused_data);
                assert(post.pending =~= pre.pending + data@);
                assert(out@ =~= Seq::<u8>::empty());
            } else if !post.failed() {
                // What the stream took and what it left make up the input.
                assert(post.supplied() == pre.supplied() + data@);
            }
        }
        answer(out, verdict)
    }
}

} // verus!
