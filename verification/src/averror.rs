//! The vocabulary libav* reports failures in, as plain values.
//!
//! Every variant is one `AVERROR_*` code. The three POSIX errnos this
//! crate's rules read — `EAGAIN` (back pressure), `EINVAL` and `ENOMEM` —
//! are named rather than carried as platform-specific integers, so a rule
//! that asks "is this back pressure?" asks it of a name.
use vstd::prelude::*;

verus! {

/// A POSIX error number wrapped by `AVERROR(e)`.
#[derive(Clone, Copy, Debug, PartialEq, Eq, Structural)]
pub enum Errno {
    /// `EAGAIN`: output must be drained before more input is taken.
    Again,
    /// `EINVAL`.
    InvalidArgument,
    /// `ENOMEM`.
    OutOfMemory,
    /// Any other errno, as the platform numbers it.
    Code(i32),
}

/// A libav* error code.
#[derive(Clone, Copy, Debug, PartialEq, Eq, Structural)]
pub enum AvError {
    Bug,
    Bug2,
    Unknown,
    Experimental,
    BufferTooSmall,
    /// `AVERROR_EOF`.
    Eof,
    Exit,
    /// `AVERROR_EXTERNAL`: a failure in an external library, which is how
    /// VideoToolbox reports a hardware accelerator that gave up.
    External,
    /// `AVERROR_INVALIDDATA`.
    InvalidData,
    PatchWelcome,
    InputChanged,
    OutputChanged,
    BsfNotFound,
    DecoderNotFound,
    DemuxerNotFound,
    EncoderNotFound,
    OptionNotFound,
    MuxerNotFound,
    FilterNotFound,
    ProtocolNotFound,
    StreamNotFound,
    HttpBadRequest,
    HttpUnauthorized,
    HttpForbidden,
    HttpNotFound,
    HttpOther4xx,
    HttpServerError,
    /// `AVERROR(errno)`.
    Other { errno: Errno },
}

/// Whether `e` is `AVERROR(EAGAIN)`.
pub open spec fn spec_is_eagain(e: AvError) -> bool {
    e == AvError::Other { errno: Errno::Again }
}

/// Whether `e` is one of the two flow signals: back pressure or the end.
pub open spec fn spec_is_transient(e: AvError) -> bool {
    spec_is_eagain(e) || e == AvError::Eof
}

/// The errors that mean a committed hardware backend cannot decode the
/// content: an external-library failure, the internal-bug codes,
/// `UNKNOWN`, `INVALIDDATA`, and `AVERROR(EINVAL)`.
pub open spec fn spec_is_hw_decode_failure(e: AvError) -> bool {
    ||| e == AvError::External
    ||| e == AvError::Bug
    ||| e == AvError::Bug2
    ||| e == AvError::Unknown
    ||| e == AvError::InvalidData
    ||| e == AvError::Other { errno: Errno::InvalidArgument }
}

/// Just `EAGAIN` — the state machine tells "drain and retry" apart from
/// "the stream is over".
pub fn is_eagain(e: &AvError) -> (r: bool)
    ensures
        r == spec_is_eagain(*e),
{
    matches!(e, AvError::Other { errno: Errno::Again })
}

/// `EAGAIN` or `AVERROR_EOF`. The probe-replay drain reads both as "stop
/// draining, the candidate produced everything it is going to".
pub fn is_transient(e: &AvError) -> (r: bool)
    ensures
        r == spec_is_transient(*e),
{
    is_eagain(e) || matches!(e, AvError::Eof)
}

/// Whether a post-commit error from a hardware-only decoder means the
/// committed backend cannot decode this content. Flow signals are not
/// failures: back pressure and a genuine end must reach the caller as
/// themselves.
pub fn is_hw_decode_failure(e: &AvError) -> (r: bool)
    ensures
        r == spec_is_hw_decode_failure(*e),
{
    match e {
        AvError::External | AvError::Bug | AvError::Bug2 | AvError::Unknown
        | AvError::InvalidData => true,
        AvError::Other { errno: Errno::InvalidArgument } => true,
        _ => false,
    }
}

} // verus!
