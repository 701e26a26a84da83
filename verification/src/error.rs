//! The decoder tier's errors and their payloads.
//!
//! The error is generic over the packet handle `P` the caller fed in and
//! the hardware backend identifier `B`: an exhausted probe hands the
//! caller's own packets back, and its attempt log names backends in the
//! order they were tried. Neither is ever inspected here.
use vstd::prelude::*;
use crate::averror::AvError;
use crate::demux_error::ParametersTooLarge;

verus! {

/// Errors returned from the decoder tier.
#[derive(Debug)]
pub enum Error<P, B> {
    /// An underlying FFmpeg error.
    Ffmpeg(AvError),
    /// A stream's codec parameters hold more heap bytes than the decoder
    /// tier will copy.
    ParametersTooLarge(ParametersTooLarge),
    /// No decoder exists for the codec id, reported as the raw integer.
    NoCodec(u32),
    /// The CPU frame a hardware->CPU transfer would allocate is over the
    /// frame ceiling.
    HwTransferTooLarge(HwTransferTooLarge),
    /// A frame's allocation was refused by the allocator judge.
    FrameBudgetExceeded(FrameBudgetExceeded),
    /// The coded surface is over the frame ceiling, so the hardware format
    /// was declined before its pool could be built.
    HwSurfaceTooLarge(HwSurfaceTooLarge),
    /// The codec advertises no hardware configuration for the backend.
    BackendUnsupportedByCodec(B),
    /// Creating the hardware device failed for the backend.
    HwDeviceInitFailed(HwDeviceInitFailed<B>),
    /// The probe exhausted every backend; see [`AllBackendsFailed`].
    AllBackendsFailed(AllBackendsFailed<P, B>),
    /// A hardware->software fallback attempt itself failed.
    FallbackFailed(FallbackFailed<P, B>),
}

/// Payload for [`Error::HwDeviceInitFailed`].
#[derive(Debug, Clone)]
pub struct HwDeviceInitFailed<B> {
    backend: B,
    source: AvError,
}

impl<B> HwDeviceInitFailed<B> {
    /// Constructs a new payload.
    pub fn new(backend: B, source: AvError) -> (r: Self)
        ensures
            r.spec_backend() == backend,
            r.spec_source() == source,
    {
        Self { backend, source }
    }

    pub closed spec fn spec_backend(self) -> B {
        self.backend
    }

    pub closed spec fn spec_source(self) -> AvError {
        self.source
    }

    /// Backend that failed to initialise.
    pub fn backend(&self) -> (r: &B)
        ensures
            *r == self.spec_backend(),
    {
        &self.backend
    }

    /// Underlying FFmpeg error.
    pub fn source(&self) -> (r: &AvError)
        ensures
            *r == self.spec_source(),
    {
        &self.source
    }

    /// Consumes the payload into its backend and error.
    pub fn into_parts(self) -> (r: (B, AvError))
        ensures
            r == (self.spec_backend(), self.spec_source()),
    {
        (self.backend, self.source)
    }
}

/// Where in the decoder's life an [`AllBackendsFailed`] was raised.
#[derive(Debug, Clone, Copy, PartialEq, Eq, Structural)]
pub enum FallbackOrigin {
    /// Raised while the probe was still active; the unconsumed packets are
    /// its buffered history.
    Probe,
    /// Raised after the probe collapsed; nothing is buffered.
    PostCommit,
}

/// Payload for [`Error::AllBackendsFailed`].
#[derive(Debug)]
pub struct AllBackendsFailed<P, B> {
    attempts: Vec<(B, Box<Error<P, B>>)>,
    unconsumed_packets: Vec<P>,
    origin: FallbackOrigin,
}

impl<P, B> AllBackendsFailed<P, B> {
    /// A probe-era payload: `unconsumed_packets` is the probe's buffered
    /// history (possibly empty).
    pub fn new(attempts: Vec<(B, Box<Error<P, B>>)>, unconsumed_packets: Vec<P>) -> (r: Self)
        ensures
            r.spec_attempts() == attempts@,
            r.spec_unconsumed_packets() == unconsumed_packets@,
            r.spec_origin() == FallbackOrigin::Probe,
    {
        Self { attempts, unconsumed_packets, origin: FallbackOrigin::Probe }
    }

    /// A post-commit payload: the committed backend failed at runtime, and
    /// nothing is buffered.
    pub fn new_post_commit(attempts: Vec<(B, Box<Error<P, B>>)>) -> (r: Self)
        ensures
            r.spec_attempts() == attempts@,
            r.spec_unconsumed_packets() == Seq::<P>::empty(),
            r.spec_origin() == FallbackOrigin::PostCommit,
    {
        Self { attempts, unconsumed_packets: Vec::new(), origin: FallbackOrigin::PostCommit }
    }

    pub closed spec fn spec_attempts(self) -> Seq<(B, Box<Error<P, B>>)> {
        self.attempts@
    }

    pub closed spec fn spec_unconsumed_packets(self) -> Seq<P> {
        self.unconsumed_packets@
    }

    pub closed spec fn spec_origin(self) -> FallbackOrigin {
        self.origin
    }

    /// Per-backend errors collected during probing, in the order tried.
    pub fn attempts(&self) -> (r: &[(B, Box<Error<P, B>>)])
        ensures
            r@ == self.spec_attempts(),
    {
        self.attempts.as_slice()
    }

    /// Whether this was raised during the probe or after commit.
    pub fn origin(&self) -> (r: FallbackOrigin)
        ensures
            r == self.spec_origin(),
    {
        self.origin
    }

    /// Packets the decoder consumed from the caller before exhaustion.
    pub fn unconsumed_packets(&self) -> (r: &[P])
        ensures
            r@ == self.spec_unconsumed_packets(),
    {
        self.unconsumed_packets.as_slice()
    }

    /// Consumes the payload, returning the unconsumed packets.
    pub fn into_unconsumed_packets(self) -> (r: Vec<P>)
        ensures
            r@ == self.spec_unconsumed_packets(),
    {
        self.unconsumed_packets
    }

    /// Consumes the payload into the attempt log and the packets.
    pub fn into_parts(self) -> (r: (Vec<(B, Box<Error<P, B>>)>, Vec<P>))
        ensures
            r.0@ == self.spec_attempts(),
            r.1@ == self.spec_unconsumed_packets(),
    {
        (self.attempts, self.unconsumed_packets)
    }
}

/// Payload for [`Error::FallbackFailed`].
#[derive(Debug)]
pub struct FallbackFailed<P, B> {
    source: Box<Error<P, B>>,
    unconsumed_packets: Vec<P>,
}

impl<P, B> FallbackFailed<P, B> {
    /// Constructs a new payload.
    pub fn new(source: Box<Error<P, B>>, unconsumed_packets: Vec<P>) -> (r: Self)
        ensures
            r.spec_source() == *source,
            r.spec_unconsumed_packets() == unconsumed_packets@,
    {
        Self { source, unconsumed_packets }
    }

    pub closed spec fn spec_source(self) -> Error<P, B> {
        *self.source
    }

    pub closed spec fn spec_unconsumed_packets(self) -> Seq<P> {
        self.unconsumed_packets@
    }

    /// The error that aborted the fallback.
    pub fn source(&self) -> (r: &Error<P, B>)
        ensures
            *r == self.spec_source(),
    {
        &self.source
    }

    /// Packets the hardware path had consumed but not decoded.
    pub fn unconsumed_packets(&self) -> (r: &[P])
        ensures
            r@ == self.spec_unconsumed_packets(),
    {
        self.unconsumed_packets.as_slice()
    }

    /// Consumes the payload, returning the unconsumed packets.
    pub fn into_unconsumed_packets(self) -> (r: Vec<P>)
        ensures
            r@ == self.spec_unconsumed_packets(),
    {
        self.unconsumed_packets
    }

    /// Consumes the payload into the source error and the packets.
    pub fn into_parts(self) -> (r: (Box<Error<P, B>>, Vec<P>))
        ensures
            *r.0 == self.spec_source(),
            r.1@ == self.spec_unconsumed_packets(),
    {
        (self.source, self.unconsumed_packets)
    }
}

/// Payload for [`Error::HwTransferTooLarge`]: the CPU-side cost of a
/// hardware->CPU download, priced before it happens.
#[derive(Debug, Clone, Copy, PartialEq, Eq, Structural)]
pub struct HwTransferTooLarge {
    bytes: usize,
    limit: usize,
}

impl HwTransferTooLarge {
    pub closed spec fn spec_bytes(&self) -> usize {
        self.bytes
    }

    pub closed spec fn spec_limit(&self) -> usize {
        self.limit
    }

    /// Constructs a payload.
    pub fn new(bytes: usize, limit: usize) -> (r: Self)
        ensures
            r.spec_bytes() == bytes,
            r.spec_limit() == limit,
    {
        Self { bytes, limit }
    }

    /// Bytes the destination frame would have cost.
    pub fn bytes(&self) -> (r: usize)
        ensures
            r == self.spec_bytes(),
    {
        self.bytes
    }

    /// The ceiling in force.
    pub fn limit(&self) -> (r: usize)
        ensures
            r == self.spec_limit(),
    {
        self.limit
    }
}

/// Payload for [`Error::HwSurfaceTooLarge`].
#[derive(Debug, Clone, Copy, PartialEq, Eq, Structural)]
pub struct HwSurfaceTooLarge {
    bytes: i64,
    limit: i64,
}

impl HwSurfaceTooLarge {
    pub closed spec fn spec_bytes(&self) -> i64 {
        self.bytes
    }

    pub closed spec fn spec_limit(&self) -> i64 {
        self.limit
    }

    /// Constructs a payload.
    pub fn new(bytes: i64, limit: i64) -> (r: Self)
        ensures
            r.spec_bytes() == bytes,
            r.spec_limit() == limit,
    {
        Self { bytes, limit }
    }

    /// What the surface pool would have cost.
    pub fn bytes(&self) -> (r: i64)
        ensures
            r == self.spec_bytes(),
    {
        self.bytes
    }

    /// The ceiling in force.
    pub fn limit(&self) -> (r: i64)
        ensures
            r == self.spec_limit(),
    {
        self.limit
    }
}

/// Which kind of frame a [`FrameBudgetExceeded`] refers to.
#[derive(Debug, Clone, Copy, PartialEq, Eq, Structural)]
pub enum FrameMedium {
    /// A picture.
    Video,
    /// An audio frame.
    Audio,
}

impl FrameMedium {
    /// How the medium reads in a message: `picture` or `audio frame`.
    pub fn describe(&self) -> (r: &'static str)
        ensures
            r@ == (match *self {
                FrameMedium::Video => "picture"@,
                FrameMedium::Audio => "audio frame"@,
            }),
    {
        match self {
            FrameMedium::Video => "picture",
            FrameMedium::Audio => "audio frame",
        }
    }
}

/// Payload for [`Error::FrameBudgetExceeded`]: the allocator judge refused
/// a frame whose real cost exceeds the caller's ceiling.
#[derive(Debug, Clone, Copy, PartialEq, Eq, Structural)]
pub struct FrameBudgetExceeded {
    bytes: u64,
    limit: u64,
    medium: FrameMedium,
}

impl FrameBudgetExceeded {
    pub closed spec fn spec_bytes(&self) -> u64 {
        self.bytes
    }

    pub closed spec fn spec_limit(&self) -> u64 {
        self.limit
    }

    pub closed spec fn spec_medium(&self) -> FrameMedium {
        self.medium
    }

    /// Constructs a payload.
    pub fn new(bytes: u64, limit: u64, medium: FrameMedium) -> (r: Self)
        ensures
            r.spec_bytes() == bytes,
            r.spec_limit() == limit,
            r.spec_medium() == medium,
    {
        Self { bytes, limit, medium }
    }

    /// What the frame would have cost.
    pub fn bytes(&self) -> (r: u64)
        ensures
            r == self.spec_bytes(),
    {
        self.bytes
    }

    /// The ceiling in force.
    pub fn limit(&self) -> (r: u64)
        ensures
            r == self.spec_limit(),
    {
        self.limit
    }

    /// Whether the frame was a picture or audio.
    pub fn medium(&self) -> (r: FrameMedium)
        ensures
            r == self.spec_medium(),
    {
        self.medium
    }
}

} // verus!
