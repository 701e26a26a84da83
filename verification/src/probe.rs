//! The hardware decoder's probe, as a state machine.
//!
//! A hardware decoder opens on the first backend of the platform's probe
//! order that will open, and stays **on trial** until it delivers its first
//! frame. While it is on trial every packet it accepted is kept, so that a
//! failing backend can be torn down and the next one replayed the same
//! history — and, when every backend has failed, so that the history can be
//! handed back to the caller for a software decoder of their choice. Once a
//! frame is delivered the probe collapses and the backend is committed.
//!
//! The FFmpeg work — building a backend, sending, receiving, transferring —
//! happens outside; this module holds the decisions: what a session on
//! trial may keep, what a failure means, which backend is next, and what
//! the caller is handed when the order runs out.
use vstd::prelude::*;
use crate::averror::{AvError, Errno, is_eagain, spec_is_eagain, spec_is_hw_decode_failure};
use crate::error::{AllBackendsFailed, Error};
use crate::gates::{
    BareVerdict, DeclinationLatch, SessionPhase, VerdictRouting, fallback_required,
    spec_fallback_required, spec_surface_error, spec_verdict_routing, verdict_routing,
};

verus! {

/// Most packets a session on trial keeps for replay.
pub const MAX_PROBE_PACKETS: usize = 256;

/// Most compressed bytes (payload plus side-data charge) a session on trial
/// keeps for replay.
pub const MAX_PROBE_PACKET_BYTES: usize = 67108864;

/// Most side-data entries a packet may carry and still be kept for replay.
pub const MAX_PROBE_PACKET_SIDE_DATA_ENTRIES: usize = 64;

/// The charge per side-data entry for its descriptor and reference,
/// whatever its payload.
pub const SIDE_DATA_ENTRY_OVERHEAD: usize = 80;

/// Most CPU frames a candidate may queue while it is replayed the history.
pub const MAX_PROBE_PENDING_FRAMES: usize = 16;

/// Default byte budget for the frames a candidate queues during replay.
pub const DEFAULT_MAX_PROBE_PENDING_BYTES: usize = 268435456;

/// What a caller should do with a routed hardware failure.
#[derive(Debug)]
pub enum HwRoute<P, B> {
    /// Hand this to the caller.
    Report(Error<P, B>),
    /// The active candidate failed: advance the probe and retry.
    Advance(Error<P, B>),
}

/// What a session on trial does with a packet offered to it.
#[derive(Clone, Copy, Debug, PartialEq, Eq, Structural)]
pub enum PacketAdmission {
    /// The backend is committed: nothing is kept.
    Untracked,
    /// The packet may be kept; the history will then weigh this much.
    Keep { new_bytes: usize },
    /// Keeping it would break a cap: the probe must be abandoned before the
    /// backend consumes the packet.
    Refuse,
}

/// The probe's own state, present while a backend is on trial.
#[derive(Debug)]
pub struct ProbeState<P, B> {
    /// Backends still to try, in order.
    remaining_backends: Vec<B>,
    /// Packets accepted so far, kept for replay.
    buffered_packets: Vec<P>,
    /// What `buffered_packets` is charged.
    buffered_bytes: usize,
    /// Per-backend failures collected since the probe opened, in the order
    /// they happened.
    attempts: Vec<(B, Box<Error<P, B>>)>,
}

/// A hardware decoding session's decisions: which backend is active,
/// whether it is still on trial, and whether an end of stream was
/// recorded.
#[derive(Debug)]
pub struct DecoderSession<P, B> {
    backend: B,
    probe: Option<ProbeState<P, B>>,
    eof_sent: bool,
    max_probe_pending_bytes: usize,
}

/// The abstract contents of a probe.
pub struct ProbeView<P, B> {
    pub remaining: Seq<B>,
    pub buffered: Seq<P>,
    pub buffered_bytes: int,
    pub attempts: Seq<(B, Box<Error<P, B>>)>,
}

impl<P, B> DecoderSession<P, B> {
    pub closed spec fn spec_backend(&self) -> B {
        self.backend
    }

    pub closed spec fn spec_probing(&self) -> bool {
        self.probe is Some
    }

    pub closed spec fn spec_probe(&self) -> ProbeView<P, B> {
        match self.probe {
            Some(p) => ProbeView {
                remaining: p.remaining_backends@,
                buffered: p.buffered_packets@,
                buffered_bytes: p.buffered_bytes as int,
                attempts: p.attempts@,
            },
            None => ProbeView {
                remaining: Seq::empty(),
                buffered: Seq::empty(),
                buffered_bytes: 0,
                attempts: Seq::empty(),
            },
        }
    }

    pub closed spec fn spec_eof_sent(&self) -> bool {
        self.eof_sent
    }

    pub closed spec fn spec_max_probe_pending_bytes(&self) -> usize {
        self.max_probe_pending_bytes
    }

    pub open spec fn spec_phase(&self) -> SessionPhase {
        if !self.spec_probing() {
            if !self.spec_eof_sent() {
                SessionPhase::Streaming
            } else {
                SessionPhase::Draining
            }
        } else if !self.spec_eof_sent() {
            SessionPhase::Auditioning
        } else {
            SessionPhase::AuditioningPastEnd
        }
    }

    /// A session that opened `backend` and keeps it on trial, with
    /// `remaining` still to try after it and the failures of the backends
    /// tried before it.
    pub fn probing(backend: B, remaining: Vec<B>, attempts: Vec<(B, Box<Error<P, B>>)>) -> (r: Self)
        ensures
            r.spec_backend() == backend,
            r.spec_probing(),
            r.spec_probe().remaining == remaining@,
            r.spec_probe().buffered == Seq::<P>::empty(),
            r.spec_probe().buffered_bytes == 0,
            r.spec_probe().attempts == attempts@,
            !r.spec_eof_sent(),
            r.spec_max_probe_pending_bytes() == DEFAULT_MAX_PROBE_PENDING_BYTES,
    {
        Self {
            backend,
            probe: Some(
                ProbeState {
                    remaining_backends: remaining,
                    buffered_packets: Vec::new(),
                    buffered_bytes: 0,
                    attempts,
                },
            ),
            eof_sent: false,
            max_probe_pending_bytes: DEFAULT_MAX_PROBE_PENDING_BYTES,
        }
    }

    /// A session committed to `backend` from the start: no probe, no
    /// fallback.
    pub fn committed(backend: B) -> (r: Self)
        ensures
            r.spec_backend() == backend,
            !r.spec_probing(),
            !r.spec_eof_sent(),
            r.spec_max_probe_pending_bytes() == DEFAULT_MAX_PROBE_PENDING_BYTES,
    {
        Self { backend, probe: None, eof_sent: false, max_probe_pending_bytes: DEFAULT_MAX_PROBE_PENDING_BYTES }
    }

    /// Overrides the byte budget for frames a candidate queues during
    /// replay.
    pub fn with_max_probe_pending_bytes(self, bytes: usize) -> (r: Self)
        ensures
            r.spec_max_probe_pending_bytes() == bytes,
            r.spec_backend() == self.spec_backend(),
            r.spec_probing() == self.spec_probing(),
            r.spec_probe() == self.spec_probe(),
            r.spec_eof_sent() == self.spec_eof_sent(),
    {
        let mut s = self;
        s.max_probe_pending_bytes = bytes;
        s
    }

    /// The backend currently producing frames.
    pub fn backend(&self) -> (r: &B)
        ensures
            *r == self.spec_backend(),
    {
        &self.backend
    }

    /// The byte budget for frames a candidate queues during replay.
    pub fn max_probe_pending_bytes(&self) -> (r: usize)
        ensures
            r == self.spec_max_probe_pending_bytes(),
    {
        self.max_probe_pending_bytes
    }

    /// Whether the backend is still on trial.
    pub fn is_probing(&self) -> (r: bool)
        ensures
            r == self.spec_probing(),
    {
        self.probe.is_some()
    }

    /// Whether an end of stream has been recorded.
    pub fn eof_sent(&self) -> (r: bool)
        ensures
            r == self.spec_eof_sent(),
    {
        self.eof_sent
    }

    /// **Where this session is**, derived from its two latches and nowhere
    /// else.
    pub fn phase(&self) -> (r: SessionPhase)
        ensures
            r == self.spec_phase(),
    {
        SessionPhase::of(self.probe.is_some(), self.eof_sent)
    }

    /// The history a candidate is replayed, in the order it was accepted.
    pub fn buffered_packets(&self) -> (r: &[P])
        ensures
            r@ == self.spec_probe().buffered,
    {
        match &self.probe {
            Some(p) => p.buffered_packets.as_slice(),
            None => &[],
        }
    }

    /// The next backend in the probe order, if the session is on trial and
    /// one is left.
    pub fn next_candidate(&self) -> (r: Option<&B>)
        ensures
            match r {
                Some(b) => self.spec_probing() && self.spec_probe().remaining.len() > 0
                    && *b == self.spec_probe().remaining[0],
                None => !self.spec_probing() || self.spec_probe().remaining.len() == 0,
            },
    {
        match &self.probe {
            Some(p) => if p.remaining_backends.len() > 0 {
                Some(&p.remaining_backends[0])
            } else {
                None
            },
            None => None,
        }
    }

    /// Decides what happens to a packet offered to this session before the
    /// backend is allowed to consume it.
    ///
    /// `side_entries` is the packet's declared side-data count, and
    /// `charge` its payload plus [`crate::pricing::packet_side_data_bytes`].
    /// A packet is refused when it carries more side-data entries than a
    /// kept packet may, or when keeping it would push the history past
    /// [`MAX_PROBE_PACKETS`] packets or [`MAX_PROBE_PACKET_BYTES`] bytes.
    pub fn packet_admission(&self, side_entries: usize, charge: usize) -> (r: PacketAdmission)
        ensures
            r matches PacketAdmission::Keep { new_bytes } ==> self.spec_probing()
                && self.spec_probe().buffered.len() < MAX_PROBE_PACKETS && new_bytes
                <= MAX_PROBE_PACKET_BYTES,
            r == spec_packet_admission(self.spec_probing(), self.spec_probe(), side_entries, charge),
    {
        match &self.probe {
            None => PacketAdmission::Untracked,
            Some(p) => {
                if side_entries > MAX_PROBE_PACKET_SIDE_DATA_ENTRIES {
                    return PacketAdmission::Refuse;
                }
                let new_bytes = p.buffered_bytes.saturating_add(charge);
                if p.buffered_packets.len() >= MAX_PROBE_PACKETS || new_bytes > MAX_PROBE_PACKET_BYTES {
                    PacketAdmission::Refuse
                } else {
                    PacketAdmission::Keep { new_bytes }
                }
            },
        }
    }

    /// Keeps a packet the backend accepted, after [`Self::packet_admission`]
    /// answered `Keep`. A committed session keeps nothing.
    pub fn commit_packet(&mut self, kept: P, new_bytes: usize)
        requires
            old(self).spec_probing() ==> old(self).spec_probe().buffered.len() < MAX_PROBE_PACKETS
                && new_bytes <= MAX_PROBE_PACKET_BYTES,
        ensures
            spec_history_within_caps(final(self).spec_probe()),
            final(self).spec_probing() == old(self).spec_probing(),
            final(self).spec_backend() == old(self).spec_backend(),
            final(self).spec_eof_sent() == old(self).spec_eof_sent(),
            final(self).spec_max_probe_pending_bytes() == old(self).spec_max_probe_pending_bytes(),
            final(self).spec_probe().remaining == old(self).spec_probe().remaining,
            final(self).spec_probe().attempts == old(self).spec_probe().attempts,
            old(self).spec_probing() ==> final(self).spec_probe().buffered == old(
                self,
            ).spec_probe().buffered.push(kept),
            old(self).spec_probing() ==> final(self).spec_probe().buffered_bytes == new_bytes,
            !old(self).spec_probing() ==> final(self).spec_probe() == old(self).spec_probe(),
    {
        match &mut self.probe {
            Some(p) => {
                p.buffered_packets.push(kept);
                p.buffered_bytes = new_bytes;
            },
            None => {},
        }
    }

    /// Records that the end of stream was accepted.
    pub fn record_eof(&mut self)
        ensures
            final(self).spec_eof_sent(),
            final(self).spec_probing() == old(self).spec_probing(),
            final(self).spec_probe() == old(self).spec_probe(),
            final(self).spec_backend() == old(self).spec_backend(),
            final(self).spec_max_probe_pending_bytes() == old(self).spec_max_probe_pending_bytes(),
    {
        self.eof_sent = true;
    }

    /// A frame was delivered: the probe collapses and the backend is
    /// committed.
    pub fn collapse_probe(&mut self)
        ensures
            !final(self).spec_probing(),
            final(self).spec_backend() == old(self).spec_backend(),
            final(self).spec_eof_sent() == old(self).spec_eof_sent(),
            final(self).spec_max_probe_pending_bytes() == old(self).spec_max_probe_pending_bytes(),
    {
        self.probe = None;
    }

    /// After a seek: the end belongs to the position being abandoned, and
    /// so does the history — post-seek packets do not continue it.
    pub fn flush(&mut self)
        ensures
            !final(self).spec_eof_sent(),
            final(self).spec_probing() == old(self).spec_probing(),
            final(self).spec_backend() == old(self).spec_backend(),
            final(self).spec_max_probe_pending_bytes() == old(self).spec_max_probe_pending_bytes(),
            final(self).spec_probe().buffered == Seq::<P>::empty(),
            final(self).spec_probe().buffered_bytes == 0,
            final(self).spec_probe().remaining == old(self).spec_probe().remaining,
            final(self).spec_probe().attempts == old(self).spec_probe().attempts,
    {
        self.eof_sent = false;
        match &mut self.probe {
            Some(p) => {
                p.buffered_packets.clear();
                p.buffered_bytes = 0;
            },
            None => {},
        }
    }

    /// **Gives up on the probe and hands its history back.** Every failure
    /// recorded and every packet kept leave with the error, so nothing the
    /// backend consumed from the caller is lost.
    pub fn abandon_probe(&mut self) -> (r: Error<P, B>)
        ensures
            !final(self).spec_probing(),
            final(self).spec_backend() == old(self).spec_backend(),
            final(self).spec_eof_sent() == old(self).spec_eof_sent(),
            final(self).spec_max_probe_pending_bytes() == old(self).spec_max_probe_pending_bytes(),
            r matches Error::AllBackendsFailed(p) && p.spec_attempts() == old(
                self,
            ).spec_probe().attempts && p.spec_unconsumed_packets() == old(self).spec_probe().buffered
                && p.spec_origin() == crate::error::FallbackOrigin::Probe,
    {
        match self.probe.take() {
            Some(p) => Error::AllBackendsFailed(AllBackendsFailed::new(p.attempts, p.buffered_packets)),
            None => Error::AllBackendsFailed(AllBackendsFailed::new(Vec::new(), Vec::new())),
        }
    }

    /// A candidate could not be built, or refused the replayed history:
    /// it leaves the order, and its failure joins the log **after**
    /// everything recorded before it. The history is untouched.
    pub fn reject_candidate(&mut self, failure: Error<P, B>)
        requires
            old(self).spec_probing(),
            old(self).spec_probe().remaining.len() > 0,
        ensures
            final(self).spec_probing(),
            final(self).spec_probe().remaining == old(self).spec_probe().remaining.drop_first(),
            final(self).spec_probe().attempts == old(self).spec_probe().attempts.push(
                (old(self).spec_probe().remaining[0], Box::new(failure)),
            ),
            spec_keeps_history(old(self).spec_probe(), final(self).spec_probe()),
            final(self).spec_probe().buffered == old(self).spec_probe().buffered,
            final(self).spec_probe().buffered_bytes == old(self).spec_probe().buffered_bytes,
            final(self).spec_backend() == old(self).spec_backend(),
            final(self).spec_eof_sent() == old(self).spec_eof_sent(),
            final(self).spec_max_probe_pending_bytes() == old(self).spec_max_probe_pending_bytes(),
    {
        match &mut self.probe {
            Some(p) => {
                let b = p.remaining_backends.remove(0);
                p.attempts.push((b, Box::new(failure)));
            },
            None => {},
        }
    }

    /// A candidate built and took the whole history: it becomes the active
    /// backend and leaves the order. It is still on trial until it delivers
    /// a frame.
    pub fn install_candidate(&mut self)
        requires
            old(self).spec_probing(),
            old(self).spec_probe().remaining.len() > 0,
        ensures
            final(self).spec_probing(),
            final(self).spec_backend() == old(self).spec_probe().remaining[0],
            final(self).spec_probe().remaining == old(self).spec_probe().remaining.drop_first(),
            spec_keeps_history(old(self).spec_probe(), final(self).spec_probe()),
            final(self).spec_probe().attempts == old(self).spec_probe().attempts,
            final(self).spec_probe().buffered == old(self).spec_probe().buffered,
            final(self).spec_probe().buffered_bytes == old(self).spec_probe().buffered_bytes,
            final(self).spec_eof_sent() == old(self).spec_eof_sent(),
            final(self).spec_max_probe_pending_bytes() == old(self).spec_max_probe_pending_bytes(),
    {
        match &mut self.probe {
            Some(p) => {
                let b = p.remaining_backends.remove(0);
                self.backend = b;
            },
            None => {},
        }
    }
}

/// The verdict a candidate's failure is recorded as: the surface refusal
/// its callback latched when there is one, the errno otherwise. Only the
/// surface refusal is read here — it is the one a candidate's
/// configuration can leave behind.
pub fn candidate_failure<P, B>(latch: &mut DeclinationLatch, e: AvError) -> (r: Error<P, B>)
    ensures
        final(latch).spec_ceiling() is None,
        final(latch).spec_frame_budget() == old(latch).spec_frame_budget(),
        match old(latch).spec_ceiling() {
            Some((pixels, limit)) => spec_surface_error(pixels, limit, r),
            None => r == Error::<P, B>::Ffmpeg(e),
        },
{
    match latch.ceiling_declination_of() {
        Some(named) => named,
        None => Error::Ffmpeg(e),
    }
}

/// **The shared routing policy**, as a relation between a verdict and
/// its route. A verdict that does not name a candidate failure is
/// reported. One that does advances the probe while a backend is on trial;
/// once committed it becomes the post-commit fallback envelope — one
/// attempt, the committed backend with that verdict — when a fallback is
/// required, and is reported as it is otherwise.
pub open spec fn spec_hw_routes<P, B>(
    probing: bool,
    backend: B,
    reason: Error<P, B>,
    raw: AvError,
    bare: BareVerdict,
    r: HwRoute<P, B>,
) -> bool {
    let candidate_failed = match spec_verdict_routing(reason) {
        VerdictRouting::CandidateFailed => true,
        VerdictRouting::Direct => false,
        VerdictRouting::Unnamed => bare == BareVerdict::CandidateFailure,
    };
    if !candidate_failed {
        r == HwRoute::<P, B>::Report(reason)
    } else if probing {
        r == HwRoute::<P, B>::Advance(reason)
    } else if spec_fallback_required(reason, raw) {
        r matches HwRoute::Report(Error::AllBackendsFailed(p)) && p.spec_attempts() == seq![
            (backend, Box::new(reason)),
        ] && p.spec_unconsumed_packets() == Seq::<P>::empty() && p.spec_origin()
            == crate::error::FallbackOrigin::PostCommit
    } else {
        r == HwRoute::<P, B>::Report(reason)
    }
}

impl<P, B: Copy> DecoderSession<P, B> {
    /// Wraps a post-commit hardware failure so the software-falling-back
    /// wrapper recognises it: one attempt, the committed backend with the
    /// verdict it was **given** — this does not mint a second one.
    pub fn post_commit_hw_failure(&self, reason: Error<P, B>) -> (r: Error<P, B>)
        ensures
            r matches Error::AllBackendsFailed(p) && p.spec_attempts() == seq![
                (self.spec_backend(), Box::new(reason)),
            ] && p.spec_unconsumed_packets() == Seq::<P>::empty() && p.spec_origin()
                == crate::error::FallbackOrigin::PostCommit,
    {
        let mut attempts: Vec<(B, Box<Error<P, B>>)> = Vec::new();
        attempts.push((self.backend, Box::new(reason)));
        Error::AllBackendsFailed(AllBackendsFailed::new_post_commit(attempts))
    }

    /// **One policy for what a funnelled hardware failure means.** A
    /// verdict that does not name a candidate failure is reported. One
    /// that does advances the probe while a backend is on trial; once
    /// committed it becomes the fallback envelope when a fallback is
    /// required, and is reported as it is otherwise.
    pub fn hw_route(&self, reason: Error<P, B>, raw: AvError, bare: BareVerdict) -> (r: HwRoute<P, B>)
        ensures
            spec_hw_routes(self.spec_probing(), self.spec_backend(), reason, raw, bare, r),
    {
        let candidate_failed = match verdict_routing(&reason) {
            VerdictRouting::CandidateFailed => true,
            VerdictRouting::Direct => false,
            VerdictRouting::Unnamed => matches!(bare, BareVerdict::CandidateFailure),
        };
        if !candidate_failed {
            return HwRoute::Report(reason);
        }
        if self.probe.is_some() {
            return HwRoute::Advance(reason);
        }
        if fallback_required(&reason, raw) {
            return HwRoute::Report(self.post_commit_hw_failure(reason));
        }
        HwRoute::Report(reason)
    }

    /// Mints a verdict through the funnel — exactly once — and routes it.
    pub fn hw_failure(&self, latch: &mut DeclinationLatch, raw: AvError, bare: BareVerdict) -> (r: HwRoute<
        P,
        B,
    >)
        ensures
            (final(latch).spec_ceiling(), final(latch).spec_frame_budget())
                == crate::gates::spec_latch_after_exit(*old(latch)),
            exists|v: Error<P, B>|
                crate::gates::spec_exit_verdict(*old(latch), Error::<P, B>::Ffmpeg(raw), v)
                    && spec_hw_routes(self.spec_probing(), self.spec_backend(), v, raw, bare, r),
            (old(latch).spec_ceiling() is None && old(latch).spec_frame_budget() is None) ==> {
                let reason = Error::<P, B>::Ffmpeg(raw);
                if bare == BareVerdict::Reported {
                    r == HwRoute::<P, B>::Report(reason)
                } else if self.spec_probing() {
                    r == HwRoute::<P, B>::Advance(reason)
                } else if spec_is_hw_decode_failure(raw) {
                    r matches HwRoute::Report(Error::AllBackendsFailed(p)) && p.spec_attempts()
                        == seq![(self.spec_backend(), Box::new(reason))]
                } else {
                    r == HwRoute::<P, B>::Report(reason)
                }
            },
            old(latch).spec_ceiling() matches Some((pixels, limit)) ==> {
                if self.spec_probing() {
                    r matches HwRoute::Advance(v) && spec_surface_error(pixels, limit, v)
                } else {
                    r matches HwRoute::Report(Error::AllBackendsFailed(p)) && p.spec_attempts().len()
                        == 1 && spec_surface_error(pixels, limit, *p.spec_attempts()[0].1)
                }
            },
            old(latch).spec_ceiling() is None ==> (old(latch).spec_frame_budget() matches Some((
                bytes,
                limit,
                audio,
            )) ==> r matches HwRoute::Report(v) && crate::gates::spec_budget_error(
                bytes,
                limit,
                audio,
                v,
            )),
    {
        let reason = latch.hw_exit(Error::Ffmpeg(raw));
        let r = self.hw_route(reason, raw, bare);
        assert(crate::gates::spec_exit_verdict(*old(latch), Error::<P, B>::Ffmpeg(raw), reason));
        r
    }

    /// Opens a probe advance: the failure that triggered it is read
    /// through the funnel and recorded against the active backend. A
    /// session that is not on trial has nothing to advance, and the
    /// verdict is returned.
    pub fn begin_advance(&mut self, latch: &mut DeclinationLatch, last_error: Error<P, B>) -> (r: Result<
        (),
        Error<P, B>,
    >)
        ensures
            (final(latch).spec_ceiling(), final(latch).spec_frame_budget())
                == crate::gates::spec_latch_after_exit(*old(latch)),
            final(self).spec_probing() == old(self).spec_probing(),
            final(self).spec_backend() == old(self).spec_backend(),
            final(self).spec_eof_sent() == old(self).spec_eof_sent(),
            final(self).spec_max_probe_pending_bytes() == old(self).spec_max_probe_pending_bytes(),
            final(self).spec_probe().remaining == old(self).spec_probe().remaining,
            final(self).spec_probe().buffered == old(self).spec_probe().buffered,
            final(self).spec_probe().buffered_bytes == old(self).spec_probe().buffered_bytes,
            spec_keeps_history(old(self).spec_probe(), final(self).spec_probe()),
            old(self).spec_probing() ==> r is Ok && final(self).spec_probe().attempts.len() == old(
                self,
            ).spec_probe().attempts.len() + 1 && final(self).spec_probe().attempts.drop_last()
                == old(self).spec_probe().attempts && final(self).spec_probe().attempts.last().0
                == old(self).spec_backend(),
            !old(self).spec_probing() ==> r is Err && final(self).spec_probe() == old(
                self,
            ).spec_probe(),
            (old(self).spec_probing() && old(latch).spec_ceiling() is None
                && old(latch).spec_frame_budget() is None) ==> *final(self).spec_probe().attempts.last().1
                == last_error,
            old(self).spec_probing() ==> crate::gates::spec_exit_verdict(
                *old(latch),
                last_error,
                *final(self).spec_probe().attempts.last().1,
            ),
            !old(self).spec_probing() ==> (r matches Err(v) && crate::gates::spec_exit_verdict(
                *old(latch),
                last_error,
                v,
            )),
    {
        let verdict = latch.hw_exit(last_error);
        let active = self.backend;
        match &mut self.probe {
            Some(p) => {
                p.attempts.push((active, Box::new(verdict)));
                assert(p.attempts@.drop_last() == old(self).spec_probe().attempts);
                Ok(())
            },
            None => Err(verdict),
        }
    }
}

/// **What a session on trial keeps.** A committed session keeps nothing.
/// On trial, a packet is refused when it carries more side-data entries
/// than a kept packet may, or when keeping it would push the history past
/// [`MAX_PROBE_PACKETS`] packets or [`MAX_PROBE_PACKET_BYTES`] bytes (its
/// charge added with saturation); otherwise it may be kept, and the
/// history will then weigh the sum.
pub open spec fn spec_packet_admission<P, B>(probing: bool, v: ProbeView<P, B>, side_entries: usize, charge: usize) -> PacketAdmission {
    if !probing {
        PacketAdmission::Untracked
    } else {
        let count = v.buffered.len() + 1;
        let bytes = if v.buffered_bytes + charge > usize::MAX {
            usize::MAX as int
        } else {
            v.buffered_bytes + charge
        };
        if side_entries > MAX_PROBE_PACKET_SIDE_DATA_ENTRIES || count > MAX_PROBE_PACKETS || bytes
            > MAX_PROBE_PACKET_BYTES {
            PacketAdmission::Refuse
        } else {
            PacketAdmission::Keep { new_bytes: bytes as usize }
        }
    }
}

/// Whether a kept history is within its caps: at most [`MAX_PROBE_PACKETS`]
/// packets and [`MAX_PROBE_PACKET_BYTES`] bytes.
pub open spec fn spec_history_within_caps<P, B>(v: ProbeView<P, B>) -> bool {
    v.buffered.len() <= MAX_PROBE_PACKETS && v.buffered_bytes <= MAX_PROBE_PACKET_BYTES
}

/// Whether a probe step kept the caller's history: the same packets, the
/// same charge, and a failure log that only grew.
pub open spec fn spec_keeps_history<P, B>(before: ProbeView<P, B>, after: ProbeView<P, B>) -> bool {
    &&& after.buffered == before.buffered
    &&& after.buffered_bytes == before.buffered_bytes
    &&& before.attempts.is_prefix_of(after.attempts)
}

/// **The probe never loses the caller's packets.** Over any run of
/// steps that each keep the history — rejecting a candidate, installing
/// one, opening an advance — the packets and their charge at the end are
/// those at the start, and every failure recorded along the way is still
/// in the log, in order. Abandoning the probe then hands exactly that
/// history back.
pub proof fn law_history_survives<P, B>(run: Seq<ProbeView<P, B>>)
    requires
        run.len() > 0,
        forall|i: int| 0 <= i < run.len() - 1 ==> spec_keeps_history(#[trigger] run[i], run[i + 1]),
    ensures
        spec_keeps_history(run[0], run.last()),
    decreases run.len(),
{
    if run.len() > 1 {
        let shorter = run.drop_last();
        assert forall|i: int| 0 <= i < shorter.len() - 1 implies spec_keeps_history(
            #[trigger] shorter[i],
            shorter[i + 1],
        ) by {
            assert(spec_keeps_history(run[i], run[i + 1]));
        }
        law_history_survives(shorter);
        assert(spec_keeps_history(run[run.len() - 2], run[run.len() - 1]));
        let a = run[0].attempts;
        let b = shorter.last().attempts;
        let c = run.last().attempts;
        assert(a =~= c.subrange(0, a.len() as int)) by {
            assert(a =~= b.subrange(0, a.len() as int));
            assert(b =~= c.subrange(0, b.len() as int));
        }
    }
}

/// **Opening a hardware decoder walks the backends in probe order.** The
/// first backend that opens becomes the active one, on trial, with the
/// backends after it still to try and every earlier backend's failure
/// already in its log — so a later exhaustion reports the open-time causes
/// too, in probe order. If none opens, the walk ends in
/// [`AllBackendsFailed`], with nothing consumed.
pub struct BackendWalk<P, B> {
    order: Vec<B>,
    tried: usize,
    attempts: Vec<(B, Box<Error<P, B>>)>,
}

impl<P, B> BackendWalk<P, B> {
    pub closed spec fn spec_order(&self) -> Seq<B> {
        self.order@
    }

    pub closed spec fn spec_tried(&self) -> nat {
        self.tried as nat
    }

    pub closed spec fn spec_attempts(&self) -> Seq<(B, Box<Error<P, B>>)> {
        self.attempts@
    }

    /// The log holds one failure per backend tried, in probe order.
    pub closed spec fn well_formed(self) -> bool {
        &&& self.tried <= self.order@.len()
        &&& self.attempts@.len() == self.tried
        &&& forall|i: int| 0 <= i < self.tried ==> #[trigger] self.attempts@[i].0 == self.order@[i]
    }
}

impl<P, B: Copy> BackendWalk<P, B> {
    /// A walk over `order`, nothing tried yet.
    pub fn new(order: Vec<B>) -> (r: Self)
        ensures
            r.well_formed(),
            r.spec_order() == order@,
            r.spec_tried() == 0,
            r.spec_attempts() == Seq::<(B, Box<Error<P, B>>)>::empty(),
    {
        BackendWalk { order, tried: 0, attempts: Vec::new() }
    }

    /// The backend to try next, if one is left.
    pub fn candidate(&self) -> (r: Option<B>)
        requires
            self.well_formed(),
        ensures
            self.spec_tried() < self.spec_order().len() ==> r == Some(
                self.spec_order()[self.spec_tried() as int],
            ),
            self.spec_tried() >= self.spec_order().len() ==> r is None,
    {
        if self.tried < self.order.len() {
            Some(self.order[self.tried])
        } else {
            None
        }
    }

    /// The candidate failed to open: its failure joins the log and the walk
    /// moves on.
    pub fn record_failure(&mut self, failure: Error<P, B>)
        requires
            old(self).well_formed(),
            old(self).spec_tried() < old(self).spec_order().len(),
        ensures
            final(self).well_formed(),
            final(self).spec_order() == old(self).spec_order(),
            final(self).spec_tried() == old(self).spec_tried() + 1,
            final(self).spec_attempts() == old(self).spec_attempts().push(
                (old(self).spec_order()[old(self).spec_tried() as int], Box::new(failure)),
            ),
    {
        let _ = self.order.len();
        let backend = self.order[self.tried];
        self.attempts.push((backend, Box::new(failure)));
        self.tried = self.tried + 1;
    }

    /// The candidate opened: it becomes the active backend of a session on
    /// trial, with the backends after it still to try and the walk's log as
    /// its history of failures.
    pub fn commit(self) -> (r: DecoderSession<P, B>)
        requires
            self.well_formed(),
            self.spec_tried() < self.spec_order().len(),
        ensures
            r.spec_backend() == self.spec_order()[self.spec_tried() as int],
            r.spec_probing(),
            r.spec_probe().remaining == self.spec_order().subrange(
                self.spec_tried() + 1int,
                self.spec_order().len() as int,
            ),
            r.spec_probe().attempts == self.spec_attempts(),
            r.spec_probe().buffered == Seq::<P>::empty(),
            r.spec_probe().buffered_bytes == 0,
            !r.spec_eof_sent(),
            r.spec_max_probe_pending_bytes() == DEFAULT_MAX_PROBE_PENDING_BYTES,
    {
        let BackendWalk { order, tried, attempts } = self;
        let n = order.len();
        let backend = order[tried];
        let mut remaining: Vec<B> = Vec::new();
        let mut i = tried + 1;
        while i < n
            invariant
                n == order@.len(),
                tried < order@.len(),
                tried + 1 <= i <= order@.len(),
                remaining@ == order@.subrange(tried + 1, i as int),
            decreases order@.len() - i,
        {
            remaining.push(order[i]);
            i = i + 1;
        }
        DecoderSession::probing(backend, remaining, attempts)
    }

    /// No backend opened: every failure, in probe order, and no packets,
    /// since none was consumed.
    pub fn exhausted(self) -> (r: Error<P, B>)
        ensures
            r matches Error::AllBackendsFailed(p) && p.spec_attempts() == self.spec_attempts()
                && p.spec_unconsumed_packets() == Seq::<P>::empty() && p.spec_origin()
                == crate::error::FallbackOrigin::Probe,
    {
        let BackendWalk { order: _, tried: _, attempts } = self;
        Error::AllBackendsFailed(AllBackendsFailed::new(attempts, Vec::new()))
    }
}

/// **The kept history never outgrows its caps.** A commit leaves it within
/// them (its `requires` is what [`DecoderSession::packet_admission`]'s
/// `Keep` guarantees), a flush empties it, and every other step keeps it as
/// it was — so caps that held before such a step hold after it.
pub proof fn law_caps_survive<P, B>(before: ProbeView<P, B>, after: ProbeView<P, B>)
    requires
        spec_history_within_caps(before),
        spec_keeps_history(before, after),
    ensures
        spec_history_within_caps(after),
{
}

/// Where a candidate's replay of the kept history stands: the next packet
/// to hand it, and whether the recorded end was handed over yet.
#[derive(Clone, Copy, Debug, PartialEq, Eq, Structural)]
pub struct ReplayCursor {
    pub next: usize,
    pub eof_replayed: bool,
}

/// What the caller reports to a replay.
#[derive(Clone, Copy, Debug)]
pub enum ReplayEvent {
    /// A candidate was built: start its replay.
    Start,
    /// What the candidate answered the last submission.
    Sent(Result<(), AvError>),
    /// What draining the candidate's output came to.
    Drained(Result<(), AvError>),
}

/// What a replay asks the caller to do next.
#[derive(Clone, Copy, Debug, PartialEq, Eq, Structural)]
pub enum ReplayAction {
    /// Submit the kept packet at this position.
    SendPacket(usize),
    /// Submit the end of stream.
    SendEof,
    /// Drain the candidate's output into the replay queue, then submit the
    /// same thing again.
    Drain,
    /// The candidate took the whole history: install it.
    Commit,
    /// The candidate failed with this error: reject it.
    Fail(AvError),
}

/// What comes next at `c`: the next kept packet, then the end of stream
/// when one was recorded, then the commit.
pub open spec fn spec_replay_next(len: nat, eof_sent: bool, c: ReplayCursor) -> ReplayAction {
    if c.next < len {
        ReplayAction::SendPacket(c.next)
    } else if eof_sent && !c.eof_replayed {
        ReplayAction::SendEof
    } else {
        ReplayAction::Commit
    }
}

/// **The replay's rule.** A candidate is handed the kept packets in order
/// and then the recorded end, if any. Back pressure on a submission drains
/// the candidate and retries the same submission; any other refusal, and
/// any failure while draining, fails the candidate.
pub open spec fn spec_replay_step(len: nat, eof_sent: bool, c: ReplayCursor, event: ReplayEvent) -> (ReplayCursor, ReplayAction) {
    match event {
        ReplayEvent::Start => {
            let start = ReplayCursor { next: 0, eof_replayed: false };
            (start, spec_replay_next(len, eof_sent, start))
        },
        ReplayEvent::Sent(Ok(())) => {
            let moved = if c.next < len {
                ReplayCursor { next: (c.next + 1) as usize, eof_replayed: c.eof_replayed }
            } else {
                ReplayCursor { next: c.next, eof_replayed: true }
            };
            (moved, spec_replay_next(len, eof_sent, moved))
        },
        ReplayEvent::Sent(Err(e)) => if spec_is_eagain(e) {
            (c, ReplayAction::Drain)
        } else {
            (c, ReplayAction::Fail(e))
        },
        ReplayEvent::Drained(Ok(())) => (c, spec_replay_next(len, eof_sent, c)),
        ReplayEvent::Drained(Err(e)) => (c, ReplayAction::Fail(e)),
    }
}

impl<P, B> DecoderSession<P, B> {
    /// **One step of a candidate's replay**, from the caller's report to
    /// what it must do next. The caller performs the submission or the
    /// drain; on `Commit` it installs the candidate, on `Fail` it rejects
    /// it with [`candidate_failure`]'s verdict.
    pub fn replay_step(&self, cursor: ReplayCursor, event: ReplayEvent) -> (r: (ReplayCursor, ReplayAction))
        ensures
            r == spec_replay_step(self.spec_probe().buffered.len(), self.spec_eof_sent(), cursor, event),
    {
        let len = self.buffered_packets().len();
        let c = match event {
            ReplayEvent::Start => ReplayCursor { next: 0, eof_replayed: false },
            ReplayEvent::Sent(Ok(())) => if cursor.next < len {
                ReplayCursor { next: cursor.next + 1, eof_replayed: cursor.eof_replayed }
            } else {
                ReplayCursor { next: cursor.next, eof_replayed: true }
            },
            ReplayEvent::Sent(Err(e)) => {
                if is_eagain(&e) {
                    return (cursor, ReplayAction::Drain);
                }
                return (cursor, ReplayAction::Fail(e));
            },
            ReplayEvent::Drained(Ok(())) => cursor,
            ReplayEvent::Drained(Err(e)) => return (cursor, ReplayAction::Fail(e)),
        };
        let action = if c.next < len {
            ReplayAction::SendPacket(c.next)
        } else if self.eof_sent && !c.eof_replayed {
            ReplayAction::SendEof
        } else {
            ReplayAction::Commit
        };
        (c, action)
    }
}

} // verus!
