//! What an error means depends on where the session is.
//!
//! Every road that has to decide what an errno *means* asks the same two
//! questions: can more input still arrive, and has a backend committed to
//! speak for the stream. [`SessionPhase`] is the census of those two
//! latches, and the gates here read an errno only together with it.
//!
//! The other half is the **funnel**. A `get_format` callback or an
//! allocator judge can only answer libavcodec with an errno, so they leave
//! their reason behind in a [`DeclinationLatch`]; every exit reads the
//! latch before it reads the errno, and reading it consumes it.
use vstd::prelude::*;
use crate::averror::{AvError, is_eagain, is_hw_decode_failure, spec_is_eagain, spec_is_hw_decode_failure};
use crate::error::{Error, FrameBudgetExceeded, FrameMedium, HwSurfaceTooLarge};

verus! {

/// Where a decoding session is in its life.
#[derive(Clone, Copy, Debug, PartialEq, Eq, Structural)]
pub enum SessionPhase {
    /// A committed backend, no end of stream recorded.
    Streaming,
    /// A committed backend draining its tail after a recorded end.
    Draining,
    /// A candidate backend on trial, no end recorded.
    Auditioning,
    /// A candidate on trial that has been handed the whole history, end of
    /// stream included. If it has produced no frame it never will.
    AuditioningPastEnd,
}

impl SessionPhase {
    pub open spec fn spec_accepts_input(self) -> bool {
        self == SessionPhase::Streaming || self == SessionPhase::Auditioning
    }

    pub open spec fn spec_is_committed(self) -> bool {
        self == SessionPhase::Streaming || self == SessionPhase::Draining
    }

    /// Whether more input can still reach this session.
    pub fn accepts_input(self) -> (r: bool)
        ensures
            r == self.spec_accepts_input(),
    {
        matches!(self, SessionPhase::Streaming | SessionPhase::Auditioning)
    }

    /// Whether a backend has committed, and so may speak for the stream.
    pub fn is_committed(self) -> (r: bool)
        ensures
            r == self.spec_is_committed(),
    {
        matches!(self, SessionPhase::Streaming | SessionPhase::Draining)
    }

    /// The phase two latches describe: whether a backend is still on trial,
    /// and whether an end of stream has been recorded.
    pub fn of(probing: bool, eof_sent: bool) -> (r: SessionPhase)
        ensures
            r.spec_is_committed() == !probing,
            r.spec_accepts_input() == !eof_sent,
    {
        match (probing, eof_sent) {
            (false, false) => SessionPhase::Streaming,
            (false, true) => SessionPhase::Draining,
            (true, false) => SessionPhase::Auditioning,
            (true, true) => SessionPhase::AuditioningPastEnd,
        }
    }
}

/// What a receive call produced.
#[derive(Clone, Copy, Debug, PartialEq, Eq, Structural)]
pub enum Received {
    /// A frame was written.
    Frame,
    /// The decoder needs more input before it can produce a frame.
    NeedsInput,
    /// The stream has ended.
    Ended,
}

/// What a send call did with its submission.
#[derive(Clone, Copy, Debug, PartialEq, Eq, Structural)]
pub enum Sent {
    /// The submission was taken.
    Accepted,
    /// Nothing was consumed: drain output, then offer the same submission
    /// again.
    MustDrain,
}

/// The receive road's reading of a funnelled error in a phase.
pub open spec fn spec_receive_status<P, B>(e: Error<P, B>, phase: SessionPhase) -> Option<Received> {
    match e {
        Error::Ffmpeg(f) => if spec_is_eagain(f) {
            if phase.spec_accepts_input() {
                Some(Received::NeedsInput)
            } else if phase.spec_is_committed() {
                Some(Received::Ended)
            } else {
                None
            }
        } else if f == AvError::Eof && phase.spec_is_committed() {
            Some(Received::Ended)
        } else {
            None
        },
        _ => None,
    }
}

/// **The receive road's errno gate**, which cannot be asked without the
/// phase.
///
/// `EAGAIN` is [`Received::NeedsInput`] only where more input can come;
/// past a recorded end on a committed backend it is the end; on a
/// candidate that has been handed everything it is a failure for the
/// probe. `AVERROR_EOF` is the end only from a committed backend. Anything
/// else is handed back as it came.
pub fn receive_status<P, B>(e: Error<P, B>, phase: SessionPhase) -> (r: Result<Received, Error<P, B>>)
    ensures
        match spec_receive_status(e, phase) {
            Some(status) => r == Ok::<Received, Error<P, B>>(status),
            None => r == Err::<Received, Error<P, B>>(e),
        },
{
    let classified = match &e {
        Error::Ffmpeg(f) => {
            if is_eagain(f) {
                if phase.accepts_input() {
                    Some(Received::NeedsInput)
                } else if phase.is_committed() {
                    Some(Received::Ended)
                } else {
                    None
                }
            } else if matches!(f, AvError::Eof) && phase.is_committed() {
                Some(Received::Ended)
            } else {
                None
            }
        },
        _ => None,
    };
    match classified {
        Some(status) => Ok(status),
        None => Err(e),
    }
}

/// The send road's reading of a funnelled error in a phase.
pub open spec fn spec_send_status<P, B>(e: Error<P, B>, phase: SessionPhase) -> Option<Sent> {
    match e {
        Error::Ffmpeg(f) => if spec_is_eagain(f) && phase.spec_accepts_input() {
            Some(Sent::MustDrain)
        } else {
            None
        },
        _ => None,
    }
}

/// **The send road's gate, narrower than its sibling**: only `EAGAIN` is
/// back pressure, and only where more input can come. `AVERROR_EOF` on a
/// send means the decoder was already told the stream ended — a caller
/// fault, which stays an error.
pub fn send_status<P, B>(e: Error<P, B>, phase: SessionPhase) -> (r: Result<Sent, Error<P, B>>)
    ensures
        match spec_send_status(e, phase) {
            Some(status) => r == Ok::<Sent, Error<P, B>>(status),
            None => r == Err::<Sent, Error<P, B>>(e),
        },
{
    let back_pressure = match &e {
        Error::Ffmpeg(f) => is_eagain(f) && phase.accepts_input(),
        _ => false,
    };
    if back_pressure {
        Ok(Sent::MustDrain)
    } else {
        Err(e)
    }
}

/// How a funnel verdict routes.
#[derive(Clone, Copy, Debug, PartialEq, Eq, Structural)]
pub enum VerdictRouting {
    /// The name says this backend cannot decode this content.
    CandidateFailed,
    /// The name says retrying a backend cannot help — report it as it is.
    Direct,
    /// Nothing was named; the road's own reading decides.
    Unnamed,
}

pub open spec fn spec_verdict_routing<P, B>(reason: Error<P, B>) -> VerdictRouting {
    match reason {
        Error::HwSurfaceTooLarge(_) => VerdictRouting::CandidateFailed,
        Error::Ffmpeg(_) => VerdictRouting::Unnamed,
        _ => VerdictRouting::Direct,
    }
}

/// How a funnel verdict routes, before a road's reading of an unnamed one
/// applies. A declined hardware surface is a candidate failing — software
/// is not subject to that ceiling. A frame-budget refusal, and every other
/// named error, is reported as it is: software would meet the same
/// ceiling. Only a bare errno is left to the road.
pub fn verdict_routing<P, B>(reason: &Error<P, B>) -> (r: VerdictRouting)
    ensures
        r == spec_verdict_routing(*reason),
{
    match reason {
        Error::HwSurfaceTooLarge(_) => VerdictRouting::CandidateFailed,
        Error::FrameBudgetExceeded(_) => VerdictRouting::Direct,
        Error::Ffmpeg(_) => VerdictRouting::Unnamed,
        Error::ParametersTooLarge(_) | Error::NoCodec(_) | Error::HwTransferTooLarge(_)
        | Error::BackendUnsupportedByCodec(_) | Error::HwDeviceInitFailed(_)
        | Error::AllBackendsFailed(_) | Error::FallbackFailed(_) => VerdictRouting::Direct,
    }
}

pub open spec fn spec_fallback_required<P, B>(reason: Error<P, B>, raw: AvError) -> bool {
    match spec_verdict_routing(reason) {
        VerdictRouting::CandidateFailed => true,
        VerdictRouting::Direct => false,
        VerdictRouting::Unnamed => spec_is_hw_decode_failure(raw),
    }
}

/// Whether a post-commit failure means the wrapper must open a software
/// decoder. A named verdict outranks the raw errno in both directions; the
/// errno is consulted only where nothing was named.
pub fn fallback_required<P, B>(reason: &Error<P, B>, raw: AvError) -> (r: bool)
    ensures
        r == spec_fallback_required(*reason, raw),
{
    match verdict_routing(reason) {
        VerdictRouting::CandidateFailed => true,
        VerdictRouting::Direct => false,
        VerdictRouting::Unnamed => is_hw_decode_failure(&raw),
    }
}

/// What a road's own reading of an **unnamed** verdict is.
#[derive(Clone, Copy, Debug, PartialEq, Eq, Structural)]
pub enum BareVerdict {
    /// A flow signal's own fault, such as a send after the end: the probe
    /// must not advance on it.
    Reported,
    /// A real failure: while a candidate is on trial, that candidate failed.
    CandidateFailure,
}

/// A refusal the decoder's callbacks could not return, left behind for the
/// next exit to collect.
///
/// The hardware `get_format` callback declines a coded surface over the
/// frame ceiling; the allocator judge refuses a frame over its byte
/// budget. Each answers libavcodec with an errno and records its reason
/// here.
#[derive(Clone, Copy, Debug, PartialEq, Eq)]
pub struct DeclinationLatch {
    /// A declined coded surface: what its pool would cost, and the limit.
    ceiling: Option<(i64, i64)>,
    /// A refused frame: what it would cost, the limit, and whether it was
    /// audio.
    frame_budget: Option<(u64, u64, bool)>,
}

/// The error a declined surface is reported as.
pub open spec fn spec_surface_error<P, B>(pixels: i64, limit: i64, e: Error<P, B>) -> bool {
    e matches Error::HwSurfaceTooLarge(p) && p.spec_bytes() == pixels && p.spec_limit() == limit
}

/// The error a refused frame is reported as.
pub open spec fn spec_budget_error<P, B>(bytes: u64, limit: u64, audio: bool, e: Error<P, B>) -> bool {
    e matches Error::FrameBudgetExceeded(p) && p.spec_bytes() == bytes && p.spec_limit() == limit
        && p.spec_medium() == (if audio {
        FrameMedium::Audio
    } else {
        FrameMedium::Video
    })
}

/// The verdict an exit mints from a latch: the surface refusal when one was
/// left, else the frame-budget refusal, else the exit's own `fallback`.
pub open spec fn spec_exit_verdict<P, B>(l: DeclinationLatch, fallback: Error<P, B>, v: Error<P, B>) -> bool {
    match l.spec_ceiling() {
        Some((pixels, limit)) => spec_surface_error(pixels, limit, v),
        None => match l.spec_frame_budget() {
            Some((bytes, limit, audio)) => spec_budget_error(bytes, limit, audio, v),
            None => v == fallback,
        },
    }
}

impl DeclinationLatch {
    pub closed spec fn spec_ceiling(self) -> Option<(i64, i64)> {
        self.ceiling
    }

    pub closed spec fn spec_frame_budget(self) -> Option<(u64, u64, bool)> {
        self.frame_budget
    }

    /// A latch holding nothing.
    pub fn new() -> (r: Self)
        ensures
            r.spec_ceiling() is None,
            r.spec_frame_budget() is None,
    {
        Self { ceiling: None, frame_budget: None }
    }

    /// Records that a coded surface was declined.
    pub fn declare_ceiling_declined(&mut self, pixels: i64, limit: i64)
        ensures
            final(self).spec_ceiling() == Some((pixels, limit)),
            final(self).spec_frame_budget() == old(self).spec_frame_budget(),
    {
        self.ceiling = Some((pixels, limit));
    }

    /// Records that a frame's allocation was refused.
    pub fn declare_frame_budget_declined(&mut self, bytes: u64, limit: u64, audio: bool)
        ensures
            final(self).spec_frame_budget() == Some((bytes, limit, audio)),
            final(self).spec_ceiling() == old(self).spec_ceiling(),
    {
        self.frame_budget = Some((bytes, limit, audio));
    }

    /// Takes the coded-surface refusal, if one was left, **clearing it**: a
    /// refusal reported twice would be a refusal invented once.
    pub fn ceiling_declination_of<P, B>(&mut self) -> (r: Option<Error<P, B>>)
        ensures
            final(self).spec_ceiling() is None,
            final(self).spec_frame_budget() == old(self).spec_frame_budget(),
            match old(self).spec_ceiling() {
                Some((pixels, limit)) => r matches Some(e) && spec_surface_error(pixels, limit, e),
                None => r is None,
            },
    {
        match self.ceiling.take() {
            Some((pixels, limit)) => Some(Error::HwSurfaceTooLarge(HwSurfaceTooLarge::new(pixels, limit))),
            None => None,
        }
    }

    /// Takes the frame-budget refusal, if one was left, clearing it.
    pub fn frame_budget_declination_of<P, B>(&mut self) -> (r: Option<Error<P, B>>)
        ensures
            final(self).spec_frame_budget() is None,
            final(self).spec_ceiling() == old(self).spec_ceiling(),
            match old(self).spec_frame_budget() {
                Some((bytes, limit, audio)) => r matches Some(e) && spec_budget_error(bytes, limit, audio, e),
                None => r is None,
            },
    {
        match self.frame_budget.take() {
            Some((bytes, limit, audio)) => {
                let medium = if audio {
                    FrameMedium::Audio
                } else {
                    FrameMedium::Video
                };
                Some(Error::FrameBudgetExceeded(FrameBudgetExceeded::new(bytes, limit, medium)))
            },
            None => None,
        }
    }

    /// **The hardware exit funnel.** The verdict is the surface refusal
    /// when one was left, else the frame-budget refusal, else `fallback`.
    /// Only the refusal that is reported is consumed.
    pub fn hw_exit<P, B>(&mut self, fallback: Error<P, B>) -> (r: Error<P, B>)
        ensures
            match old(self).spec_ceiling() {
                Some((pixels, limit)) => {
                    &&& spec_surface_error(pixels, limit, r)
                    &&& final(self).spec_ceiling() is None
                    &&& final(self).spec_frame_budget() == old(self).spec_frame_budget()
                },
                None => match old(self).spec_frame_budget() {
                    Some((bytes, limit, audio)) => {
                        &&& spec_budget_error(bytes, limit, audio, r)
                        &&& final(self).spec_frame_budget() is None
                        &&& final(self).spec_ceiling() is None
                    },
                    None => r == fallback && *final(self) == *old(self),
                },
            },
            (final(self).spec_ceiling(), final(self).spec_frame_budget()) == spec_latch_after_exit(
                *old(self),
            ),
            spec_exit_verdict(*old(self), fallback, r),
    {
        match self.ceiling_declination_of() {
            Some(e) => e,
            None => match self.frame_budget_declination_of() {
                Some(e) => e,
                None => fallback,
            },
        }
    }

    /// **The software decoders' funnel**: a frame the allocator judge
    /// refused comes back named, instead of as the `EINVAL` libavcodec also
    /// uses for corrupt input.
    pub fn software_exit<P, B>(&mut self, e: AvError) -> (r: Error<P, B>)
        ensures
            final(self).spec_frame_budget() is None,
            final(self).spec_ceiling() == old(self).spec_ceiling(),
            match old(self).spec_frame_budget() {
                Some((bytes, limit, audio)) => spec_budget_error(bytes, limit, audio, r),
                None => r == Error::<P, B>::Ffmpeg(e),
            },
    {
        match self.frame_budget_declination_of() {
            Some(named) => named,
            None => Error::Ffmpeg(e),
        }
    }

    /// The software road's only way to read a receive errno: funnel, then
    /// classify — in that order, in one call.
    pub fn software_receive<P, B>(&mut self, e: AvError, phase: SessionPhase) -> (r: Result<
        Received,
        Error<P, B>,
    >)
        ensures
            final(self).spec_frame_budget() is None,
            final(self).spec_ceiling() == old(self).spec_ceiling(),
            match old(self).spec_frame_budget() {
                Some((bytes, limit, audio)) => r matches Err(v) && spec_budget_error(bytes, limit, audio, v),
                None => match spec_receive_status(Error::<P, B>::Ffmpeg(e), phase) {
                    Some(status) => r == Ok::<Received, Error<P, B>>(status),
                    None => r == Err::<Received, Error<P, B>>(Error::Ffmpeg(e)),
                },
            },
    {
        let verdict = self.software_exit(e);
        receive_status(verdict, phase)
    }

    /// The send road's half of [`Self::software_receive`].
    pub fn software_send<P, B>(&mut self, e: AvError, phase: SessionPhase) -> (r: Result<
        Sent,
        Error<P, B>,
    >)
        ensures
            final(self).spec_frame_budget() is None,
            final(self).spec_ceiling() == old(self).spec_ceiling(),
            match old(self).spec_frame_budget() {
                Some((bytes, limit, audio)) => r matches Err(v) && spec_budget_error(bytes, limit, audio, v),
                None => match spec_send_status(Error::<P, B>::Ffmpeg(e), phase) {
                    Some(status) => r == Ok::<Sent, Error<P, B>>(status),
                    None => r == Err::<Sent, Error<P, B>>(Error::Ffmpeg(e)),
                },
            },
    {
        let verdict = self.software_exit(e);
        send_status(verdict, phase)
    }
}

/// The latch after one exit: the refusal that exit reports is consumed —
/// the surface refusal when there is one, else the frame-budget refusal.
pub open spec fn spec_latch_after_exit(l: DeclinationLatch) -> (Option<(i64, i64)>, Option<(u64, u64, bool)>) {
    match l.spec_ceiling() {
        Some(_) => (None, l.spec_frame_budget()),
        None => (None, None),
    }
}

/// **A funnel consumes what it collects.** Two exits in a row on a latch
/// holding at most one refusal: the first reports it and the latch is left
/// empty, so the second finds nothing and can only answer with its
/// fallback — which is why a verdict is minted once and threaded.
pub proof fn law_funnel_consumes(l: DeclinationLatch)
    requires
        l.spec_ceiling() is None || l.spec_frame_budget() is None,
    ensures
        spec_latch_after_exit(l) == (None::<(i64, i64)>, None::<(u64, u64, bool)>),
{
}

} // verus!
