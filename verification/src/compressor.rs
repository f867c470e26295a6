//! The compression session.

use crate::codec::{
    enc_given, enc_level, enc_phase, enc_taken, encoder_new, EncoderPhase, StreamAction,
    StreamStatus,
};
use crate::drain::{append_front, encoder_advance, BUFSIZ};
use crate::error::{outcome, refused, Bz2Error, Late};
use bzip2::Compress;
use vstd::prelude::*;
use vstd::slice::slice_subrange;

verus! {

/// The level a compressor is made with where the caller names none.
pub const DEFAULT_LEVEL: i32 = 9;

/// The effort the codec spends on repetitive input before it falls back to
/// its slower sorting algorithm.
pub const WORK_FACTOR: u32 = 30;

/// What a compression session is, seen from outside.
pub struct CompressorView {
    /// The level the session was made with.
    pub level: nat,
    /// Every byte that `compress` has accepted, in order.
    pub consumed: Seq<u8>,
    /// Every byte that `compress` and `flush` have returned, in order.
    pub emitted: Seq<u8>,
    /// Whether the session has been flushed.
    pub flushed: bool,
    /// The phase of the codec's stream.
    pub phase: EncoderPhase,
}

impl CompressorView {
    /// What holds of every session: until it is flushed its stream accepts
    /// input, and once it is flushed its stream has come to its end.
    pub open spec fn consistent(self) -> bool {
        self.phase == if self.flushed {
            EncoderPhase::Ended
        } else {
            EncoderPhase::Running
        }
    }
}

/// A session that compresses what it is fed, chunk by chunk.
pub struct BZ2Compressor {
    encoder: Compress,
    flushed: bool,
}

/// The level that `level` stands for, if it is one: 1 to 9, and the default
/// where none is named.
pub open spec fn chosen_level(level: Option<i32>) -> Option<nat> {
    let wanted: i32 = match level {
        Some(l) => l,
        None => DEFAULT_LEVEL,
    };
    if 1 <= wanted <= 9 {
        Some(wanted as nat)
    } else {
        None
    }
}

/// A session as it is when made with `level`.
pub open spec fn fresh_compressor(level: nat) -> CompressorView {
    CompressorView {
        level,
        consumed: Seq::empty(),
        emitted: Seq::empty(),
        flushed: false,
        phase: EncoderPhase::Running,
    }
}

/// What `compress` does: it refuses a flushed session with a state error
/// and leaves it as it was; otherwise it accepts all of `data` and returns
/// what the codec gave out meanwhile, which is nothing where `data` is
/// empty.
pub open spec fn compress_effect(
    pre: CompressorView,
    data: Seq<u8>,
    post: CompressorView,
    res: Result<Seq<u8>, Bz2Error>,
) -> bool {
    if pre.flushed {
        refused(res, Bz2Error::StateError(Late::Compress)) && post == pre
    } else {
        &&& res matches Ok(out)
        &&& post == (CompressorView {
            consumed: pre.consumed + data,
            emitted: pre.emitted + out,
            ..pre
        })
        &&& data.len() == 0 ==> out.len() == 0
    }
}

/// What `flush` does: it refuses a flushed session with a state error and
/// leaves it as it was; otherwise it brings the stream to its end and
/// returns the rest of it, which is never empty, and the session is
/// flushed.
pub open spec fn flush_effect(
    pre: CompressorView,
    post: CompressorView,
    res: Result<Seq<u8>, Bz2Error>,
) -> bool {
    if pre.flushed {
        refused(res, Bz2Error::StateError(Late::Flush)) && post == pre
    } else {
        &&& res matches Ok(out)
        &&& out.len() > 0
        &&& post == (CompressorView {
            emitted: pre.emitted + out,
            flushed: true,
            phase: EncoderPhase::Ended,
            ..pre
        })
    }
}

impl View for BZ2Compressor {
    type V = CompressorView;

    closed spec fn view(&self) -> CompressorView {
        CompressorView {
            level: enc_level(self.encoder),
            consumed: enc_taken(self.encoder),
            emitted: enc_given(self.encoder),
            flushed: self.flushed,
            phase: enc_phase(self.encoder),
        }
    }
}

impl BZ2Compressor {
    /// What holds of every session: see `CompressorView::consistent`.
    pub open spec fn wf(&self) -> bool {
        self@.consistent()
    }

    /// Makes a session that compresses at `level`, or at the default level
    /// where none is named.  Levels other than 1 to 9 are refused.
    pub fn new(level: Option<i32>) -> (res: Result<BZ2Compressor, Bz2Error>)
        ensures
            match chosen_level(level) {
                Some(l) => res matches Ok(session) && session.wf() && session@
                    == fresh_compressor(l),
                None => res matches Err(e) && e == Bz2Error::ConfigError,
            },
    {
        let wanted: i32 = match level {
            Some(l) => l,
            None => DEFAULT_LEVEL,
        };
        if 1 <= wanted && wanted <= 9 {
            let encoder = encoder_new(wanted as u32, WORK_FACTOR);
            Ok(BZ2Compressor { encoder, flushed: false })
        } else {
            Err(Bz2Error::ConfigError)
        }
    }

    /// The name a host shows for the session: that of its module and its
    /// own.
    pub fn repr(&self) -> (text: &'static str)
        ensures
            text@ == "_bz2.BZ2Compressor"@,
    {
        "_bz2.BZ2Compressor"
    }

    /// Whether the session has been flushed.
    pub fn flushed(&self) -> (b: bool)
        ensures
            b == self@.flushed,
    {
        self.flushed
    }

    /// Feeds `data` to the session and returns the compressed bytes that
    /// this made available, which may be none.
    pub fn compress(&mut self, data: &[u8]) -> (res: Result<Vec<u8>, Bz2Error>)
        requires
            old(self).wf(),
        ensures
            final(self).wf(),
            compress_effect(old(self)@, data@, final(self)@, outcome(res)),
    {
        if self.flushed {
            return Err(Bz2Error::StateError(Late::Compress));
        }
        let mut out: Vec<u8> = Vec::new();
        let mut scratch: Vec<u8> = vec![0u8; BUFSIZ];
        let mut pos: usize = 0;
        // Every step takes input or gives output, so the loop ends: the
        // input left shrinks, or else the result grows.
        while pos < data.len()
            invariant
                pos <= data@.len(),
                data@.len() == 0 ==> out@.len() == 0,
                scratch@.len() == BUFSIZ,
                !self.flushed,
                self.flushed == old(self).flushed,
                enc_phase(self.encoder) == EncoderPhase::Running,
                enc_level(self.encoder) == enc_level(old(self).encoder),
                enc_taken(self.encoder) == enc_taken(old(self).encoder) + data@.take(pos as int),
                enc_given(self.encoder) == enc_given(old(self).encoder) + out@,
            decreases data@.len() - pos, usize::MAX - out@.len(),
        {
            let rest = slice_subrange(data, pos, data.len());
            let report = encoder_advance(&mut self.encoder, rest, &mut scratch, StreamAction::Run);
            append_front(&mut out, &scratch, report.produced);
            proof {
                assert(out@.len() == out.len());
            }
            pos = pos + report.consumed;
        }
        proof {
            assert(data@.take(pos as int) =~= data@);
        }
        Ok(out)
    }

    /// Ends the stream and returns its remaining bytes.  The session
    /// accepts nothing after this.
    pub fn flush(&mut self) -> (res: Result<Vec<u8>, Bz2Error>)
        requires
            old(self).wf(),
        ensures
            final(self).wf(),
            flush_effect(old(self)@, final(self)@, outcome(res)),
    {
        if self.flushed {
            return Err(Bz2Error::StateError(Late::Flush));
        }
        self.flushed = true;
        let mut out: Vec<u8> = Vec::new();
        let mut scratch: Vec<u8> = vec![0u8; BUFSIZ];
        let nothing: Vec<u8> = Vec::new();
        // Every step gives output, so the loop ends: the result grows.
        loop
            invariant_except_break
                enc_phase(self.encoder) != EncoderPhase::Ended,
            invariant
                nothing@.len() == 0,
                scratch@.len() == BUFSIZ,
                self.flushed,
                enc_level(self.encoder) == enc_level(old(self).encoder),
                enc_taken(self.encoder) == enc_taken(old(self).encoder),
                enc_given(self.encoder) == enc_given(old(self).encoder) + out@,
            ensures
                out@.len() > 0,
                enc_phase(self.encoder) == EncoderPhase::Ended,
            decreases usize::MAX - out@.len(),
        {
            let report = encoder_advance(
                &mut self.encoder,
                nothing.as_slice(),
                &mut scratch,
                StreamAction::Finish,
            );
            append_front(&mut out, &scratch, report.produced);
            proof {
                assert(out@.len() == out.len());
            }
            if report.status == StreamStatus::StreamEnd {
                break ;
            }
        }
        Ok(out)
    }
}

} // verus!
