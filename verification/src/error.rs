//! Errors reported by the sessions.

use vstd::prelude::*;

verus! {

/// The call that a flushed compressor refused.
#[derive(Debug, Clone, Copy, PartialEq, Eq, Structural)]
pub enum Late {
    /// `compress` after `flush`.
    Compress,
    /// A second `flush`.
    Flush,
}

/// Why a session operation was refused.
#[derive(Debug, Clone, Copy, PartialEq, Eq, Structural)]
pub enum Bz2Error {
    /// A construction parameter is out of range: the compression level is
    /// not one of 1 to 9.
    ConfigError,
    /// The operation does not fit the session's lifecycle: `compress` or
    /// `flush` on a compressor that has already been flushed.  It names the
    /// call that came too late.
    StateError(Late),
    /// The state error of a decompressor: input was offered after the end
    /// of the compressed stream had been reached.
    StreamExhaustedError,
    /// The codec rejected the input as not being a valid compressed stream,
    /// or could not go on with it.
    CorruptStreamError,
}

impl Bz2Error {
    /// Whether the error says that an operation came at the wrong time in a
    /// session's life, whichever session it was.
    pub open spec fn spec_is_state_error(self) -> bool {
        self is StateError || self is StreamExhaustedError
    }

    /// Tells the errors of timing from those of content and configuration.
    pub fn is_state_error(&self) -> (b: bool)
        ensures
            b == self.spec_is_state_error(),
    {
        match self {
            Bz2Error::StateError(_) => true,
            Bz2Error::StreamExhaustedError => true,
            Bz2Error::ConfigError => false,
            Bz2Error::CorruptStreamError => false,
        }
    }

    /// The text that goes with each error.
    pub open spec fn spec_message(self) -> Seq<char> {
        match self {
            Bz2Error::ConfigError => "compresslevel must be between 1 and 9"@,
            Bz2Error::StateError(Late::Compress) => "Compressor has been flushed"@,
            Bz2Error::StateError(Late::Flush) => "Repeated call to flush()"@,
            Bz2Error::StreamExhaustedError => "End of stream already reached"@,
            Bz2Error::CorruptStreamError => "Invalid data stream"@,
        }
    }

    /// A short description for the person who sees the error.
    pub fn message(&self) -> (text: &'static str)
        ensures
            text@ == self.spec_message(),
    {
        match self {
            Bz2Error::ConfigError => "compresslevel must be between 1 and 9",
            Bz2Error::StateError(Late::Compress) => "Compressor has been flushed",
            Bz2Error::StateError(Late::Flush) => "Repeated call to flush()",
            Bz2Error::StreamExhaustedError => "End of stream already reached",
            Bz2Error::CorruptStreamError => "Invalid data stream",
        }
    }
}

/// What a call returned, with the bytes as a sequence.
pub open spec fn outcome(res: Result<Vec<u8>, Bz2Error>) -> Result<Seq<u8>, Bz2Error> {
    match res {
        Ok(bytes) => Ok(bytes@),
        Err(e) => Err(e),
    }
}

/// Whether a call returned exactly `bytes`.
pub open spec fn returned(res: Result<Seq<u8>, Bz2Error>, bytes: Seq<u8>) -> bool {
    res == Ok::<Seq<u8>, Bz2Error>(bytes)
}

/// Whether a call was refused with the error `e`.
pub open spec fn refused(res: Result<Seq<u8>, Bz2Error>, e: Bz2Error) -> bool {
    res == Err::<Seq<u8>, Bz2Error>(e)
}

} // verus!
