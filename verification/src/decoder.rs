//! The hardware decoder's roads as step functions.
//!
//! Sending a packet, sending the end of stream, receiving a frame, and the
//! probe advance they share each alternate FFmpeg work with decisions. The
//! work — cloning a packet reference, submitting, receiving, downloading,
//! building a candidate backend — is the caller's; each step here takes
//! what the last piece of work came to and answers what to do next, so
//! every decision between two calls into FFmpeg is made, and proved, here.
use vstd::prelude::*;
use std::collections::VecDeque;
use crate::averror::{AvError, is_transient, spec_is_transient};
use crate::error::{Error, FallbackOrigin, HwTransferTooLarge};
use crate::gates::{
    BareVerdict, DeclinationLatch, Received, Sent, receive_status, send_status, spec_exit_verdict,
    spec_latch_after_exit, spec_receive_status, spec_send_status, spec_surface_error,
};
use crate::pricing::{DrainStep, DrainedFrame, drain_queue_step, drain_step, spec_drain_queue_step, spec_drain_step};
use crate::probe::{
    DecoderSession, HwRoute, MAX_PROBE_PACKETS, MAX_PROBE_PACKET_BYTES, MAX_PROBE_PENDING_FRAMES,
    PacketAdmission, candidate_failure, spec_hw_routes, spec_packet_admission,
};

verus! {

/// The sum of a run of charges.
pub open spec fn sum_charges(s: Seq<nat>) -> int
    decreases s.len(),
{
    if s.len() == 0 {
        0
    } else {
        sum_charges(s.drop_last()) + s.last()
    }
}

/// **The frames a candidate produced while it was replayed the history.**
///
/// The queue only ever grows at its back, one admitted frame at a time,
/// and each admission is charged what it added to the weight. Over the
/// whole drain — however many rounds of back pressure the replay meets —
/// it holds at most [`MAX_PROBE_PENDING_FRAMES`] frames, its weight is
/// exactly the sum of the charges of the frames it took, and that sum
/// never passes its byte budget.
pub struct ReplayQueue<F> {
    frames: VecDeque<F>,
    bytes: usize,
    max_bytes: usize,
    charges: Ghost<Seq<nat>>,
}

impl<F> ReplayQueue<F> {
    pub closed spec fn spec_frames(&self) -> Seq<F> {
        self.frames@
    }

    pub closed spec fn spec_bytes(&self) -> usize {
        self.bytes
    }

    pub closed spec fn spec_max_bytes(&self) -> usize {
        self.max_bytes
    }

    /// What each queued frame was charged, in queue order.
    pub closed spec fn spec_charges(&self) -> Seq<nat> {
        self.charges@
    }

    pub closed spec fn well_formed(&self) -> bool {
        &&& self.frames@.len() == self.charges@.len()
        &&& self.frames@.len() <= MAX_PROBE_PENDING_FRAMES
        &&& self.bytes == sum_charges(self.charges@)
        &&& self.bytes <= self.max_bytes
    }

    /// An empty queue with a byte budget of `max_bytes`.
    pub fn new(max_bytes: usize) -> (r: Self)
        ensures
            r.well_formed(),
            r.spec_frames() == Seq::<F>::empty(),
            r.spec_charges() == Seq::<nat>::empty(),
            r.spec_bytes() == 0,
            r.spec_max_bytes() == max_bytes,
    {
        ReplayQueue { frames: VecDeque::new(), bytes: 0, max_bytes, charges: Ghost(Seq::empty()) }
    }

    /// How many frames are queued.
    pub fn len(&self) -> (r: usize)
        ensures
            r == self.spec_frames().len(),
    {
        self.frames.len()
    }

    /// What the queued frames weigh.
    pub fn bytes(&self) -> (r: usize)
        ensures
            r == self.spec_bytes(),
    {
        self.bytes
    }

    /// Reads what the candidate's output produced against this queue:
    /// end the drain, fail the candidate, or download the frame.
    pub fn judge(&self, received: Result<DrainedFrame, AvError>) -> (r: DrainStep)
        ensures
            r == spec_drain_step(
                self.spec_frames().len() as usize,
                self.spec_bytes(),
                self.spec_max_bytes(),
                received,
            ),
    {
        drain_step(self.frames.len(), self.bytes, self.max_bytes, received)
    }

    /// Queues a downloaded frame, if its format can be carried and its
    /// weight fits; on a refusal the queue is left as it was and the
    /// candidate fails with the error.
    ///
    /// Only a frame that [`Self::judge`] allowed to be downloaded comes
    /// here, so the queue is under its frame cap.
    pub fn enqueue(
        &mut self,
        frame: F,
        supported_format: bool,
        pixel_bytes: Option<usize>,
        side_data_bytes: usize,
    ) -> (r: Result<(), AvError>)
        requires
            old(self).well_formed(),
            old(self).spec_frames().len() < MAX_PROBE_PENDING_FRAMES,
        ensures
            final(self).well_formed(),
            final(self).spec_max_bytes() == old(self).spec_max_bytes(),
            match spec_drain_queue_step(
                supported_format,
                old(self).spec_bytes(),
                pixel_bytes,
                side_data_bytes,
                old(self).spec_max_bytes(),
            ) {
                Ok(total) => {
                    &&& r is Ok
                    &&& final(self).spec_frames() == old(self).spec_frames().push(frame)
                    &&& final(self).spec_bytes() == total
                    &&& final(self).spec_charges() == old(self).spec_charges().push(
                        (total - old(self).spec_bytes()) as nat,
                    )
                },
                Err(e) => {
                    &&& r == Err::<(), AvError>(e)
                    &&& final(self).spec_frames() == old(self).spec_frames()
                    &&& final(self).spec_bytes() == old(self).spec_bytes()
                    &&& final(self).spec_charges() == old(self).spec_charges()
                },
            },
    {
        match drain_queue_step(supported_format, self.bytes, pixel_bytes, side_data_bytes, self.max_bytes) {
            Ok(total) => {
                let ghost charge: nat = (total - self.bytes) as nat;
                self.frames.push_back(frame);
                self.charges = Ghost(self.charges@.push(charge));
                assert(self.charges@.drop_last() =~= old(self).charges@);
                self.bytes = total;
                Ok(())
            },
            Err(e) => Err(e),
        }
    }

    /// The queued frames, oldest first.
    pub fn into_frames(self) -> (r: VecDeque<F>)
        ensures
            r@ == self.spec_frames(),
    {
        self.frames
    }
}

/// **The replay queue's bound holds over the whole drain.** Whatever run
/// of judgements and admissions led to it from [`ReplayQueue::new`], a
/// queue holds at most [`MAX_PROBE_PENDING_FRAMES`] frames, one charge per
/// frame, and weighs exactly the sum of those charges, which is within its
/// budget.
pub proof fn law_replay_queue_bounded<F>(q: &ReplayQueue<F>)
    requires
        q.well_formed(),
    ensures
        q.spec_frames().len() <= MAX_PROBE_PENDING_FRAMES,
        q.spec_charges().len() == q.spec_frames().len(),
        q.spec_bytes() == sum_charges(q.spec_charges()),
        q.spec_bytes() <= q.spec_max_bytes(),
{
}

/// Where a packet's pre-flight stands while a backend is on trial.
#[derive(Debug)]
pub enum Staging<P> {
    /// Nothing is staged.
    Idle,
    /// The packet may be kept, and the history will then weigh this much;
    /// its reference is being cloned.
    Priced(usize),
    /// The packet's clone, waiting for the backend to accept the packet.
    Held(P, usize),
}

/// What the caller reports to the send roads.
#[derive(Debug)]
pub enum SendEvent<P, B> {
    /// A packet is offered: its declared side-data entries, and its charge
    /// (payload plus [`crate::pricing::packet_side_data_bytes`]).
    Offer { side_entries: usize, charge: usize },
    /// What cloning the packet's reference for the history came to.
    Cloned(Result<P, AvError>),
    /// What the active backend answered the packet's submission.
    Submitted(Result<(), AvError>),
    /// The end of stream is offered.
    OfferEof,
    /// What the active backend answered the end of stream.
    EofSubmitted(Result<(), AvError>),
    /// What the probe advance came to.
    Advanced(Result<(), Error<P, B>>),
}

/// What a send road asks the caller to do next.
#[derive(Debug)]
pub enum SendAction<P, B> {
    /// Clone the packet's reference for the history, then report
    /// [`SendEvent::Cloned`].
    ClonePacket,
    /// Submit the packet to the active backend, then report
    /// [`SendEvent::Submitted`].
    SubmitPacket,
    /// Submit the end of stream, then report [`SendEvent::EofSubmitted`].
    SubmitEof,
    /// The send is over: answer this.
    Done(Sent),
    /// The send is over: fail with this.
    Fail(Error<P, B>),
    /// A failure, routed: report it, or advance the probe with it and then
    /// report [`SendEvent::Advanced`].
    Route(HwRoute<P, B>),
    /// A new candidate is installed: offer the same submission again.
    Retry,
}

/// What the caller reports to the receive road.
#[derive(Debug)]
pub enum ReceiveEvent<P, B> {
    /// A frame is asked for.
    Start,
    /// The active backend decoded a frame; the transfer judge's verdict on
    /// its download.
    Decoded(Result<(), HwTransferTooLarge>),
    /// The active backend answered the receive with an error.
    ReceiveFailed(AvError),
    /// What downloading the decoded frame into the caller's slot came to.
    Transferred(Result<(), AvError>),
    /// What the probe advance came to.
    Advanced(Result<(), Error<P, B>>),
}

/// What the receive road asks the caller to do next.
#[derive(Debug)]
pub enum ReceiveAction<P, B, F> {
    /// Hand the caller this frame, queued during a replay: the answer is
    /// [`Received::Frame`].
    Deliver(F),
    /// Receive from the active backend, then report
    /// [`ReceiveEvent::Decoded`] or [`ReceiveEvent::ReceiveFailed`].
    Receive,
    /// Download the decoded frame into the caller's slot, then report
    /// [`ReceiveEvent::Transferred`].
    Transfer,
    /// The receive is over: answer this.
    Done(Received),
    /// The receive is over: fail with this.
    Fail(Error<P, B>),
    /// A failure, routed: report it, or clear the caller's slot, advance
    /// the probe with it, and then report [`ReceiveEvent::Advanced`].
    Route(HwRoute<P, B>),
}

/// What the caller reports to a probe advance.
pub enum AdvanceEvent<P, B, F> {
    /// The active backend failed with this: record it and look for the
    /// next candidate.
    Begin(Error<P, B>),
    /// The next candidate could not be built (its parameters could not be
    /// copied, or its device or codec failed to open).
    BuildFailed(Error<P, B>),
    /// The candidate refused the replayed history with `error`; `latch` is
    /// what its own callbacks left behind.
    ReplayFailed { latch: DeclinationLatch, error: AvError },
    /// The candidate took the whole history; these are the frames it
    /// produced on the way.
    ReplayAccepted(ReplayQueue<F>),
}

/// What a probe advance asks the caller to do next.
#[derive(Debug)]
pub enum AdvanceAction<P, B> {
    /// Build a candidate on this backend and replay it the history, then
    /// report [`AdvanceEvent::BuildFailed`], [`AdvanceEvent::ReplayFailed`]
    /// or [`AdvanceEvent::ReplayAccepted`].
    Build(B),
    /// The candidate is installed: report [`SendEvent::Advanced`] or
    /// [`ReceiveEvent::Advanced`] with `Ok`.
    Installed,
    /// The advance failed: report it with this error.
    GiveUp(Error<P, B>),
}

/// The probe gave up before the backend consumed anything: every failure
/// recorded and every packet kept leave with the error.
pub open spec fn spec_abandoned<P, B>(before: DecoderSession<P, B>, after: DecoderSession<P, B>, e: Error<P, B>) -> bool {
    &&& !after.spec_probing()
    &&& after.spec_backend() == before.spec_backend()
    &&& after.spec_eof_sent() == before.spec_eof_sent()
    &&& after.spec_max_probe_pending_bytes() == before.spec_max_probe_pending_bytes()
    &&& e matches Error::AllBackendsFailed(p) && p.spec_attempts() == before.spec_probe().attempts
        && p.spec_unconsumed_packets() == before.spec_probe().buffered && p.spec_origin()
        == FallbackOrigin::Probe
}

/// **A send that failed**, read as the send roads read it. A flow signal
/// goes through the funnel and the send gate: back pressure is
/// [`Sent::MustDrain`]; any other verdict is routed as the
/// road's own fault, which does not advance the probe on its own. Any other
/// error is minted through the funnel and routed as a candidate failure.
pub open spec fn spec_send_failure<P, B>(
    session: DecoderSession<P, B>,
    latch: DeclinationLatch,
    e: AvError,
    r: SendAction<P, B>,
) -> bool {
    exists|v: Error<P, B>|
        spec_exit_verdict(latch, Error::<P, B>::Ffmpeg(e), v) && if spec_is_transient(e) {
            match spec_send_status(v, session.spec_phase()) {
                Some(status) => r == SendAction::<P, B>::Done(status),
                None => r matches SendAction::Route(route) && spec_hw_routes(
                    session.spec_probing(),
                    session.spec_backend(),
                    v,
                    e,
                    BareVerdict::Reported,
                    route,
                ),
            }
        } else {
            r matches SendAction::Route(route) && spec_hw_routes(
                session.spec_probing(),
                session.spec_backend(),
                v,
                e,
                BareVerdict::CandidateFailure,
                route,
            )
        }
}

/// **A receive that failed.** The funnel mints the verdict, the receive
/// gate reads it in the session's phase, and what it does not classify is
/// routed as a candidate failure: a candidate that ends without a frame
/// has failed.
pub open spec fn spec_receive_failure<P, B, F>(
    session: DecoderSession<P, B>,
    latch: DeclinationLatch,
    e: AvError,
    r: ReceiveAction<P, B, F>,
) -> bool {
    exists|v: Error<P, B>|
        spec_exit_verdict(latch, Error::<P, B>::Ffmpeg(e), v) && match spec_receive_status(
            v,
            session.spec_phase(),
        ) {
            Some(status) => r == ReceiveAction::<P, B, F>::Done(status),
            None => r matches ReceiveAction::Route(route) && spec_hw_routes(
                session.spec_probing(),
                session.spec_backend(),
                v,
                e,
                BareVerdict::CandidateFailure,
                route,
            ),
        }
}

/// The verdict a candidate's replay failure is recorded as: the surface
/// refusal its own callback left, else the errno.
pub open spec fn spec_candidate_verdict<P, B>(latch: DeclinationLatch, e: AvError, v: Error<P, B>) -> bool {
    match latch.spec_ceiling() {
        Some((pixels, limit)) => spec_surface_error(pixels, limit, v),
        None => v == Error::<P, B>::Ffmpeg(e),
    }
}

/// **What an advance does once the failure is recorded**: try the next
/// backend in the order, or, with none left, give up and hand back every
/// failure and every kept packet.
pub open spec fn spec_advance_next<P, B>(
    after: DecoderSession<P, B>,
    remaining: Seq<B>,
    attempts: Seq<(B, Box<Error<P, B>>)>,
    buffered: Seq<P>,
    buffered_bytes: int,
    r: AdvanceAction<P, B>,
) -> bool {
    if remaining.len() > 0 {
        &&& r == AdvanceAction::<P, B>::Build(remaining[0])
        &&& after.spec_probing()
        &&& after.spec_probe().remaining == remaining
        &&& after.spec_probe().attempts == attempts
        &&& after.spec_probe().buffered == buffered
        &&& after.spec_probe().buffered_bytes == buffered_bytes
    } else {
        &&& !after.spec_probing()
        &&& r matches AdvanceAction::GiveUp(Error::AllBackendsFailed(p)) && p.spec_attempts()
            == attempts && p.spec_unconsumed_packets() == buffered && p.spec_origin()
            == FallbackOrigin::Probe
    }
}

/// **A hardware decoder**: the session's decisions, the frames a replay
/// queued for the caller, and the pre-flight of the packet being sent.
pub struct HwDecoder<P, B, F> {
    session: DecoderSession<P, B>,
    pending: VecDeque<F>,
    staging: Staging<P>,
}

impl<P, B: Copy, F> HwDecoder<P, B, F> {
    pub closed spec fn spec_session(&self) -> DecoderSession<P, B> {
        self.session
    }

    /// The frames a replay queued, delivered first and in order.
    pub closed spec fn spec_pending(&self) -> Seq<F> {
        self.pending@
    }

    pub closed spec fn spec_staging(&self) -> Staging<P> {
        self.staging
    }

    /// A staged packet was priced within the caps, and the history it
    /// would join still has room for it.
    pub closed spec fn well_formed(&self) -> bool {
        match self.staging {
            Staging::Idle => true,
            Staging::Priced(nb) => nb <= MAX_PROBE_PACKET_BYTES && (self.session.spec_probing()
                ==> self.session.spec_probe().buffered.len() < MAX_PROBE_PACKETS),
            Staging::Held(_, nb) => nb <= MAX_PROBE_PACKET_BYTES && (self.session.spec_probing()
                ==> self.session.spec_probe().buffered.len() < MAX_PROBE_PACKETS),
        }
    }

    /// A decoder over `session`, with nothing queued or staged.
    pub fn new(session: DecoderSession<P, B>) -> (r: Self)
        ensures
            r.well_formed(),
            r.spec_session() == session,
            r.spec_pending() == Seq::<F>::empty(),
            r.spec_staging() is Idle,
    {
        HwDecoder { session, pending: VecDeque::new(), staging: Staging::Idle }
    }

    /// Overrides the byte budget for frames a candidate queues during
    /// replay.
    pub fn with_max_probe_pending_bytes(self, bytes: usize) -> (r: Self)
        requires
            self.well_formed(),
        ensures
            r.well_formed(),
            r.spec_session().spec_max_probe_pending_bytes() == bytes,
            r.spec_session().spec_backend() == self.spec_session().spec_backend(),
            r.spec_session().spec_probing() == self.spec_session().spec_probing(),
            r.spec_session().spec_probe() == self.spec_session().spec_probe(),
            r.spec_session().spec_eof_sent() == self.spec_session().spec_eof_sent(),
            r.spec_pending() == self.spec_pending(),
            r.spec_staging() == self.spec_staging(),
    {
        let HwDecoder { session, pending, staging } = self;
        HwDecoder { session: session.with_max_probe_pending_bytes(bytes), pending, staging }
    }

    /// The session's decisions.
    pub fn session(&self) -> (r: &DecoderSession<P, B>)
        ensures
            *r == self.spec_session(),
    {
        &self.session
    }

    /// How many replayed frames wait for the caller.
    pub fn pending_frames(&self) -> (r: usize)
        ensures
            r == self.spec_pending().len(),
    {
        self.pending.len()
    }

    /// After a seek: the session forgets its end and its history, and the
    /// frames a replay queued are dropped with the position they belong to.
    pub fn flush(&mut self)
        requires
            old(self).well_formed(),
        ensures
            final(self).well_formed(),
            final(self).spec_pending() == Seq::<F>::empty(),
            final(self).spec_staging() is Idle,
            !final(self).spec_session().spec_eof_sent(),
            final(self).spec_session().spec_probing() == old(self).spec_session().spec_probing(),
            final(self).spec_session().spec_backend() == old(self).spec_session().spec_backend(),
            final(self).spec_session().spec_probe().buffered == Seq::<P>::empty(),
            final(self).spec_session().spec_probe().buffered_bytes == 0,
            final(self).spec_session().spec_probe().remaining == old(
                self,
            ).spec_session().spec_probe().remaining,
            final(self).spec_session().spec_probe().attempts == old(
                self,
            ).spec_session().spec_probe().attempts,
    {
        self.session.flush();
        self.pending.clear();
        self.staging = Staging::Idle;
    }

    fn take_staging(&mut self) -> (r: Staging<P>)
        ensures
            r == old(self).spec_staging(),
            final(self).spec_staging() is Idle,
            final(self).spec_session() == old(self).spec_session(),
            final(self).spec_pending() == old(self).spec_pending(),
    {
        let mut staged = Staging::Idle;
        core::mem::swap(&mut staged, &mut self.staging);
        staged
    }

    fn send_failure(&self, latch: &mut DeclinationLatch, e: AvError) -> (r: SendAction<P, B>)
        ensures
            (final(latch).spec_ceiling(), final(latch).spec_frame_budget()) == spec_latch_after_exit(
                *old(latch),
            ),
            spec_send_failure(self.spec_session(), *old(latch), e, r),
    {
        if is_transient(&e) {
            let v = latch.hw_exit(Error::Ffmpeg(e));
            assert(spec_exit_verdict(*old(latch), Error::<P, B>::Ffmpeg(e), v));
            match send_status(v, self.session.phase()) {
                Ok(status) => SendAction::Done(status),
                Err(reason) => SendAction::Route(self.session.hw_route(reason, e, BareVerdict::Reported)),
            }
        } else {
            SendAction::Route(self.session.hw_failure(latch, e, BareVerdict::CandidateFailure))
        }
    }

    /// **One step of the send roads.**
    ///
    /// On trial, a packet is priced before the backend may consume it: one
    /// that cannot be kept — too many side-data entries, or a history that
    /// would pass its caps, or a reference that cannot be cloned — ends the
    /// probe with [`Error::AllBackendsFailed`], handing back every failure
    /// and the history as it was, **without the packet being submitted**.
    /// A committed session submits at once. The packet joins the history
    /// only once the backend accepted it. A failed submission is read by
    /// [`spec_send_failure`]; an advance that installed a candidate asks
    /// for the same submission again. The end of stream is recorded only
    /// once the backend accepted it.
    pub fn send_step(&mut self, latch: &mut DeclinationLatch, event: SendEvent<P, B>) -> (r: SendAction<P, B>)
        requires
            old(self).well_formed(),
        ensures
            final(self).well_formed(),
            final(self).spec_pending() == old(self).spec_pending(),
            match event {
                SendEvent::Offer { side_entries, charge } => {
                    &&& *final(latch) == *old(latch)
                    &&& match spec_packet_admission(
                        old(self).spec_session().spec_probing(),
                        old(self).spec_session().spec_probe(),
                        side_entries,
                        charge,
                    ) {
                        PacketAdmission::Untracked => r == SendAction::<P, B>::SubmitPacket
                            && final(self).spec_session() == old(self).spec_session()
                            && final(self).spec_staging() is Idle,
                        PacketAdmission::Keep { new_bytes } => r == SendAction::<P, B>::ClonePacket
                            && final(self).spec_session() == old(self).spec_session()
                            && final(self).spec_staging() == Staging::<P>::Priced(new_bytes),
                        PacketAdmission::Refuse => r matches SendAction::Fail(e) && spec_abandoned(
                            old(self).spec_session(),
                            final(self).spec_session(),
                            e,
                        ) && final(self).spec_staging() is Idle,
                    }
                },
                SendEvent::Cloned(cloned) => {
                    &&& *final(latch) == *old(latch)
                    &&& match cloned {
                        Ok(p) => r == SendAction::<P, B>::SubmitPacket && final(self).spec_session()
                            == old(self).spec_session() && match old(self).spec_staging() {
                            Staging::Priced(nb) => final(self).spec_staging() == Staging::Held(p, nb),
                            _ => final(self).spec_staging() is Idle,
                        },
                        Err(_) => if old(self).spec_session().spec_probing() {
                            r matches SendAction::Fail(e) && spec_abandoned(
                                old(self).spec_session(),
                                final(self).spec_session(),
                                e,
                            ) && final(self).spec_staging() is Idle
                        } else {
                            r == SendAction::<P, B>::SubmitPacket && final(self).spec_session()
                                == old(self).spec_session() && final(self).spec_staging() is Idle
                        },
                    }
                },
                SendEvent::Submitted(Ok(())) => {
                    &&& *final(latch) == *old(latch)
                    &&& r == SendAction::<P, B>::Done(Sent::Accepted)
                    &&& final(self).spec_staging() is Idle
                    &&& final(self).spec_session().spec_probing() == old(self).spec_session().spec_probing()
                    &&& final(self).spec_session().spec_backend() == old(self).spec_session().spec_backend()
                    &&& final(self).spec_session().spec_eof_sent() == old(self).spec_session().spec_eof_sent()
                    &&& final(self).spec_session().spec_probe().remaining == old(
                        self,
                    ).spec_session().spec_probe().remaining
                    &&& final(self).spec_session().spec_probe().attempts == old(
                        self,
                    ).spec_session().spec_probe().attempts
                    &&& match old(self).spec_staging() {
                        Staging::Held(p, nb) => if old(self).spec_session().spec_probing() {
                            &&& final(self).spec_session().spec_probe().buffered == old(
                                self,
                            ).spec_session().spec_probe().buffered.push(p)
                            &&& final(self).spec_session().spec_probe().buffered_bytes == nb
                        } else {
                            final(self).spec_session() == old(self).spec_session()
                        },
                        _ => final(self).spec_session() == old(self).spec_session(),
                    }
                },
                SendEvent::Submitted(Err(e)) => {
                    &&& (final(latch).spec_ceiling(), final(latch).spec_frame_budget())
                        == spec_latch_after_exit(*old(latch))
                    &&& final(self).spec_session() == old(self).spec_session()
                    &&& final(self).spec_staging() is Idle
                    &&& spec_send_failure(old(self).spec_session(), *old(latch), e, r)
                },
                SendEvent::OfferEof => {
                    &&& *final(latch) == *old(latch)
                    &&& r == SendAction::<P, B>::SubmitEof
                    &&& final(self).spec_session() == old(self).spec_session()
                    &&& final(self).spec_staging() is Idle
                },
                SendEvent::EofSubmitted(Ok(())) => {
                    &&& *final(latch) == *old(latch)
                    &&& r == SendAction::<P, B>::Done(Sent::Accepted)
                    &&& final(self).spec_session().spec_eof_sent()
                    &&& final(self).spec_session().spec_probing() == old(self).spec_session().spec_probing()
                    &&& final(self).spec_session().spec_probe() == old(self).spec_session().spec_probe()
                    &&& final(self).spec_session().spec_backend() == old(self).spec_session().spec_backend()
                    &&& final(self).spec_staging() is Idle
                },
                SendEvent::EofSubmitted(Err(e)) => {
                    &&& (final(latch).spec_ceiling(), final(latch).spec_frame_budget())
                        == spec_latch_after_exit(*old(latch))
                    &&& final(self).spec_session() == old(self).spec_session()
                    &&& final(self).spec_staging() is Idle
                    &&& spec_send_failure(old(self).spec_session(), *old(latch), e, r)
                },
                SendEvent::Advanced(outcome) => {
                    &&& *final(latch) == *old(latch)
                    &&& final(self).spec_session() == old(self).spec_session()
                    &&& final(self).spec_staging() is Idle
                    &&& match outcome {
                        Ok(()) => r == SendAction::<P, B>::Retry,
                        Err(e) => r == SendAction::<P, B>::Fail(e),
                    }
                },
            },
    {
        match event {
            SendEvent::Offer { side_entries, charge } => {
                self.staging = Staging::Idle;
                match self.session.packet_admission(side_entries, charge) {
                    PacketAdmission::Untracked => SendAction::SubmitPacket,
                    PacketAdmission::Keep { new_bytes } => {
                        self.staging = Staging::Priced(new_bytes);
                        SendAction::ClonePacket
                    },
                    PacketAdmission::Refuse => SendAction::Fail(self.session.abandon_probe()),
                }
            },
            SendEvent::Cloned(cloned) => {
                let staged = self.take_staging();
                match cloned {
                    Ok(p) => {
                        match staged {
                            Staging::Priced(nb) => {
                                self.staging = Staging::Held(p, nb);
                            },
                            _ => {},
                        }
                        SendAction::SubmitPacket
                    },
                    Err(_) => if self.session.is_probing() {
                        SendAction::Fail(self.session.abandon_probe())
                    } else {
                        SendAction::SubmitPacket
                    },
                }
            },
            SendEvent::Submitted(Ok(())) => {
                let staged = self.take_staging();
                match staged {
                    Staging::Held(p, nb) => if self.session.is_probing() {
                        self.session.commit_packet(p, nb);
                    },
                    _ => {},
                }
                SendAction::Done(Sent::Accepted)
            },
            SendEvent::Submitted(Err(e)) => {
                self.staging = Staging::Idle;
                self.send_failure(latch, e)
            },
            SendEvent::OfferEof => {
                self.staging = Staging::Idle;
                SendAction::SubmitEof
            },
            SendEvent::EofSubmitted(Ok(())) => {
                self.staging = Staging::Idle;
                self.session.record_eof();
                SendAction::Done(Sent::Accepted)
            },
            SendEvent::EofSubmitted(Err(e)) => {
                self.staging = Staging::Idle;
                self.send_failure(latch, e)
            },
            SendEvent::Advanced(outcome) => {
                self.staging = Staging::Idle;
                match outcome {
                    Ok(()) => SendAction::Retry,
                    Err(e) => SendAction::Fail(e),
                }
            },
        }
    }

    /// Tries the next backend, or gives up with everything the probe holds.
    fn advance_next(&mut self) -> (r: AdvanceAction<P, B>)
        requires
            old(self).well_formed(),
            old(self).spec_session().spec_probing(),
        ensures
            final(self).well_formed(),
            final(self).spec_pending() == old(self).spec_pending(),
            final(self).spec_staging() == old(self).spec_staging(),
            final(self).spec_session().spec_backend() == old(self).spec_session().spec_backend(),
            final(self).spec_session().spec_eof_sent() == old(self).spec_session().spec_eof_sent(),
            final(self).spec_session().spec_max_probe_pending_bytes() == old(
                self,
            ).spec_session().spec_max_probe_pending_bytes(),
            spec_advance_next(
                final(self).spec_session(),
                old(self).spec_session().spec_probe().remaining,
                old(self).spec_session().spec_probe().attempts,
                old(self).spec_session().spec_probe().buffered,
                old(self).spec_session().spec_probe().buffered_bytes,
                r,
            ),
    {
        match self.session.next_candidate() {
            Some(b) => AdvanceAction::Build(*b),
            None => AdvanceAction::GiveUp(self.session.abandon_probe()),
        }
    }

    /// **One step of a probe advance.**
    ///
    /// The failure that triggered the advance is minted through the funnel
    /// and recorded against the active backend, and the frames an earlier
    /// candidate queued are dropped with it; a session that is not on trial
    /// has nothing to advance and the verdict is given back. Then each
    /// backend left in the order is tried in turn. One that cannot be built,
    /// or refuses the replayed history, leaves the order with its failure
    /// recorded after everything before it — the history itself is never
    /// touched. **Only a candidate that accepted the whole history is
    /// installed**, and the frames it produced on the way are queued for
    /// the caller. With no backend left the probe gives up, handing back
    /// every failure and every kept packet.
    pub fn advance_step(&mut self, latch: &mut DeclinationLatch, event: AdvanceEvent<P, B, F>) -> (r: AdvanceAction<P, B>)
        requires
            old(self).well_formed(),
            !(event is Begin) ==> old(self).spec_session().spec_probing()
                && old(self).spec_session().spec_probe().remaining.len() > 0,
        ensures
            final(self).well_formed(),
            final(self).spec_staging() == old(self).spec_staging(),
            final(self).spec_session().spec_eof_sent() == old(self).spec_session().spec_eof_sent(),
            final(self).spec_session().spec_max_probe_pending_bytes() == old(
                self,
            ).spec_session().spec_max_probe_pending_bytes(),
            !(event is Begin) ==> *final(latch) == *old(latch),
            match event {
                AdvanceEvent::Begin(last_error) => {
                    &&& (final(latch).spec_ceiling(), final(latch).spec_frame_budget())
                        == spec_latch_after_exit(*old(latch))
                    &&& final(self).spec_session().spec_backend() == old(self).spec_session().spec_backend()
                    &&& if !old(self).spec_session().spec_probing() {
                        &&& r matches AdvanceAction::GiveUp(v) && spec_exit_verdict(*old(latch), last_error, v)
                        &&& final(self).spec_session() == old(self).spec_session()
                        &&& final(self).spec_pending() == old(self).spec_pending()
                    } else {
                        &&& final(self).spec_pending() == Seq::<F>::empty()
                        &&& exists|v: Error<P, B>|
                            spec_exit_verdict(*old(latch), last_error, v) && spec_advance_next(
                                final(self).spec_session(),
                                old(self).spec_session().spec_probe().remaining,
                                old(self).spec_session().spec_probe().attempts.push(
                                    (old(self).spec_session().spec_backend(), Box::new(v)),
                                ),
                                old(self).spec_session().spec_probe().buffered,
                                old(self).spec_session().spec_probe().buffered_bytes,
                                r,
                            )
                    }
                },
                AdvanceEvent::BuildFailed(failure) => {
                    &&& final(self).spec_pending() == old(self).spec_pending()
                    &&& final(self).spec_session().spec_backend() == old(self).spec_session().spec_backend()
                    &&& spec_advance_next(
                        final(self).spec_session(),
                        old(self).spec_session().spec_probe().remaining.drop_first(),
                        old(self).spec_session().spec_probe().attempts.push(
                            (old(self).spec_session().spec_probe().remaining[0], Box::new(failure)),
                        ),
                        old(self).spec_session().spec_probe().buffered,
                        old(self).spec_session().spec_probe().buffered_bytes,
                        r,
                    )
                },
                AdvanceEvent::ReplayFailed { latch: candidate, error } => {
                    &&& final(self).spec_pending() == old(self).spec_pending()
                    &&& final(self).spec_session().spec_backend() == old(self).spec_session().spec_backend()
                    &&& exists|v: Error<P, B>|
                        spec_candidate_verdict(candidate, error, v) && spec_advance_next(
                            final(self).spec_session(),
                            old(self).spec_session().spec_probe().remaining.drop_first(),
                            old(self).spec_session().spec_probe().attempts.push(
                                (old(self).spec_session().spec_probe().remaining[0], Box::new(v)),
                            ),
                            old(self).spec_session().spec_probe().buffered,
                            old(self).spec_session().spec_probe().buffered_bytes,
                            r,
                        )
                },
                AdvanceEvent::ReplayAccepted(queue) => {
                    &&& r == AdvanceAction::<P, B>::Installed
                    &&& final(self).spec_pending() == old(self).spec_pending() + queue.spec_frames()
                    &&& final(self).spec_session().spec_probing()
                    &&& final(self).spec_session().spec_backend() == old(
                        self,
                    ).spec_session().spec_probe().remaining[0]
                    &&& final(self).spec_session().spec_probe().remaining == old(
                        self,
                    ).spec_session().spec_probe().remaining.drop_first()
                    &&& final(self).spec_session().spec_probe().attempts == old(
                        self,
                    ).spec_session().spec_probe().attempts
                    &&& final(self).spec_session().spec_probe().buffered == old(
                        self,
                    ).spec_session().spec_probe().buffered
                    &&& final(self).spec_session().spec_probe().buffered_bytes == old(
                        self,
                    ).spec_session().spec_probe().buffered_bytes
                },
            },
    {
        match event {
            AdvanceEvent::Begin(last_error) => {
                if !self.session.is_probing() {
                    return AdvanceAction::GiveUp(latch.hw_exit(last_error));
                }
                let _ = self.session.begin_advance(latch, last_error);
                self.pending.clear();
                let ghost v = *self.session.spec_probe().attempts.last().1;
                let ghost mid = self.session.spec_probe();
                assert(mid.attempts =~= old(self).spec_session().spec_probe().attempts.push(
                    (old(self).spec_session().spec_backend(), Box::new(v)),
                ));
                assert(spec_exit_verdict(*old(latch), last_error, v));
                let r = self.advance_next();
                assert(spec_advance_next(
                    self.session,
                    mid.remaining,
                    mid.attempts,
                    mid.buffered,
                    mid.buffered_bytes,
                    r,
                ));
                r
            },
            AdvanceEvent::BuildFailed(failure) => {
                self.session.reject_candidate(failure);
                self.advance_next()
            },
            AdvanceEvent::ReplayFailed { latch: candidate, error } => {
                let mut candidate_latch = candidate;
                let v = candidate_failure(&mut candidate_latch, error);
                assert(spec_candidate_verdict(candidate, error, v));
                self.session.reject_candidate(v);
                let ghost mid = self.session.spec_probe();
                let r = self.advance_next();
                assert(spec_advance_next(
                    self.session,
                    mid.remaining,
                    mid.attempts,
                    mid.buffered,
                    mid.buffered_bytes,
                    r,
                ));
                r
            },
            AdvanceEvent::ReplayAccepted(queue) => {
                self.session.install_candidate();
                let mut frames = queue.into_frames();
                self.pending.append(&mut frames);
                AdvanceAction::Installed
            },
        }
    }

    /// **One step of the receive road.**
    ///
    /// Frames a replay queued are delivered first, in order, and delivering
    /// one collapses the probe. Otherwise the active backend is asked. A
    /// decoded frame is priced before its download and a refusal is final;
    /// a frame that downloads collapses the probe. A failed receive is read
    /// by [`spec_receive_failure`], a failed download is minted through the
    /// funnel and routed as a candidate failure; after an advance that
    /// installed a candidate the road starts over, queued frames first.
    pub fn receive_step(&mut self, latch: &mut DeclinationLatch, event: ReceiveEvent<P, B>) -> (r: ReceiveAction<P, B, F>)
        requires
            old(self).well_formed(),
        ensures
            final(self).well_formed(),
            final(self).spec_staging() == old(self).spec_staging(),
            final(self).spec_session().spec_backend() == old(self).spec_session().spec_backend(),
            final(self).spec_session().spec_eof_sent() == old(self).spec_session().spec_eof_sent(),
            final(self).spec_session().spec_probe().buffered == old(self).spec_session().spec_probe().buffered
                || !final(self).spec_session().spec_probing(),
            match event {
                ReceiveEvent::Start | ReceiveEvent::Advanced(Ok(())) => {
                    &&& *final(latch) == *old(latch)
                    &&& if old(self).spec_pending().len() > 0 {
                        &&& r == ReceiveAction::<P, B, F>::Deliver(old(self).spec_pending()[0])
                        &&& final(self).spec_pending() == old(self).spec_pending().drop_first()
                        &&& !final(self).spec_session().spec_probing()
                    } else {
                        &&& r == ReceiveAction::<P, B, F>::Receive
                        &&& final(self).spec_session() == old(self).spec_session()
                        &&& final(self).spec_pending() == old(self).spec_pending()
                    }
                },
                ReceiveEvent::Advanced(Err(e)) => {
                    &&& *final(latch) == *old(latch)
                    &&& r == ReceiveAction::<P, B, F>::Fail(e)
                    &&& final(self).spec_session() == old(self).spec_session()
                    &&& final(self).spec_pending() == old(self).spec_pending()
                },
                ReceiveEvent::Decoded(judged) => {
                    &&& *final(latch) == *old(latch)
                    &&& final(self).spec_session() == old(self).spec_session()
                    &&& final(self).spec_pending() == old(self).spec_pending()
                    &&& match judged {
                        Ok(()) => r == ReceiveAction::<P, B, F>::Transfer,
                        Err(t) => r == ReceiveAction::<P, B, F>::Fail(Error::HwTransferTooLarge(t)),
                    }
                },
                ReceiveEvent::ReceiveFailed(e) => {
                    &&& (final(latch).spec_ceiling(), final(latch).spec_frame_budget())
                        == spec_latch_after_exit(*old(latch))
                    &&& final(self).spec_session() == old(self).spec_session()
                    &&& final(self).spec_pending() == old(self).spec_pending()
                    &&& spec_receive_failure(old(self).spec_session(), *old(latch), e, r)
                },
                ReceiveEvent::Transferred(Ok(())) => {
                    &&& *final(latch) == *old(latch)
                    &&& r == ReceiveAction::<P, B, F>::Done(Received::Frame)
                    &&& !final(self).spec_session().spec_probing()
                    &&& final(self).spec_pending() == old(self).spec_pending()
                },
                ReceiveEvent::Transferred(Err(e)) => {
                    &&& (final(latch).spec_ceiling(), final(latch).spec_frame_budget())
                        == spec_latch_after_exit(*old(latch))
                    &&& final(self).spec_session() == old(self).spec_session()
                    &&& final(self).spec_pending() == old(self).spec_pending()
                    &&& exists|v: Error<P, B>|
                        spec_exit_verdict(*old(latch), Error::<P, B>::Ffmpeg(e), v) && (r matches ReceiveAction::Route(
                            route,
                        ) && spec_hw_routes(
                            old(self).spec_session().spec_probing(),
                            old(self).spec_session().spec_backend(),
                            v,
                            e,
                            BareVerdict::CandidateFailure,
                            route,
                        ))
                },
            },
    {
        match event {
            ReceiveEvent::Start | ReceiveEvent::Advanced(Ok(())) => self.deliver_or_receive(),
            ReceiveEvent::Advanced(Err(e)) => ReceiveAction::Fail(e),
            ReceiveEvent::Decoded(judged) => match judged {
                Ok(()) => ReceiveAction::Transfer,
                Err(t) => ReceiveAction::Fail(Error::HwTransferTooLarge(t)),
            },
            ReceiveEvent::ReceiveFailed(e) => {
                let v = latch.hw_exit(Error::Ffmpeg(e));
                assert(spec_exit_verdict(*old(latch), Error::<P, B>::Ffmpeg(e), v));
                match receive_status(v, self.session.phase()) {
                    Ok(status) => ReceiveAction::Done(status),
                    Err(reason) => ReceiveAction::Route(
                        self.session.hw_route(reason, e, BareVerdict::CandidateFailure),
                    ),
                }
            },
            ReceiveEvent::Transferred(Ok(())) => {
                self.session.collapse_probe();
                ReceiveAction::Done(Received::Frame)
            },
            ReceiveEvent::Transferred(Err(e)) => ReceiveAction::Route(
                self.session.hw_failure(latch, e, BareVerdict::CandidateFailure),
            ),
        }
    }

    fn deliver_or_receive(&mut self) -> (r: ReceiveAction<P, B, F>)
        requires
            old(self).well_formed(),
        ensures
            final(self).well_formed(),
            final(self).spec_staging() == old(self).spec_staging(),
            final(self).spec_session().spec_backend() == old(self).spec_session().spec_backend(),
            final(self).spec_session().spec_eof_sent() == old(self).spec_session().spec_eof_sent(),
            if old(self).spec_pending().len() > 0 {
                &&& r == ReceiveAction::<P, B, F>::Deliver(old(self).spec_pending()[0])
                &&& final(self).spec_pending() == old(self).spec_pending().drop_first()
                &&& !final(self).spec_session().spec_probing()
            } else {
                &&& r == ReceiveAction::<P, B, F>::Receive
                &&& final(self).spec_session() == old(self).spec_session()
                &&& final(self).spec_pending() == old(self).spec_pending()
            },
    {
        match self.pending.pop_front() {
            Some(f) => {
                self.session.collapse_probe();
                ReceiveAction::Deliver(f)
            },
            None => ReceiveAction::Receive,
        }
    }
}

} // verus!
