//! A demux session's decisions, between the reads the caller performs.
//!
//! The session owns the track table, the chapter table and the attachment
//! queue built at open. Each pull asks it what to do next: deliver a queued
//! attachment, re-attempt a packet that was parked, or read; and once a
//! packet is read, whether to convert it, pass it by, or stop. The reads,
//! the conversions and the seeks themselves are the caller's.
use vstd::prelude::*;
use std::collections::VecDeque;
use crate::admission::{
    DemuxLimits, StreamRecord, nothing_spent, spec_admit_from, spec_records_priceable,
    spec_refusal_error,
};
use crate::averror::AvError;
use crate::chapters::{
    Chapter, ChapterRecord, build_chapters, admit_chapters, spec_admit_chapters,
    spec_chapter_alloc_error, spec_chapter_error, spec_chapter_row, spec_present,
    spec_titles_priceable,
};
use crate::demux_error::{DemuxError, PacketBuffer, PacketBufferError, ProbeBudgetExhausted};
use crate::timebase::Timebase;
use crate::tracks::{
    AttachmentPacket, BuiltTracks, TrackInfo, TrackParams, build_tracks, spec_attachment_packet,
    spec_attachment_tracks, spec_build_fault, spec_record_consistent, spec_row_refused, spec_track_row,
};

verus! {

/// The arm a track's packets are delivered on.
#[derive(Clone, Copy, Debug, PartialEq, Eq, Structural)]
pub enum TrackKind {
    Video,
    Audio,
    Subtitle,
    Data,
    Attachment,
    Unknown,
}

/// The arm a row's parameters put it on.
pub open spec fn spec_track_kind(params: TrackParams) -> TrackKind {
    match params {
        TrackParams::Video { .. } => TrackKind::Video,
        TrackParams::Audio { .. } => TrackKind::Audio,
        TrackParams::Subtitle { .. } => TrackKind::Subtitle,
        TrackParams::Data { .. } => TrackKind::Data,
        TrackParams::Attachment { .. } => TrackKind::Attachment,
        TrackParams::Unknown { .. } => TrackKind::Unknown,
    }
}

/// The arm a row's parameters put it on.
pub fn track_kind(params: &TrackParams) -> (r: TrackKind)
    ensures
        r == spec_track_kind(*params),
{
    match params {
        TrackParams::Video { .. } => TrackKind::Video,
        TrackParams::Audio { .. } => TrackKind::Audio,
        TrackParams::Subtitle { .. } => TrackKind::Subtitle,
        TrackParams::Data { .. } => TrackKind::Data,
        TrackParams::Attachment { .. } => TrackKind::Attachment,
        TrackParams::Unknown { .. } => TrackKind::Unknown,
    }
}

/// Where a packet read on `stream` goes, given the track table and whether
/// an unplaceable packet was reported yet.
pub open spec fn spec_route(tracks: Seq<TrackInfo>, reported: bool, stream: usize) -> Route {
    if stream >= tracks.len() {
        Route::Skip { report: !reported }
    } else {
        match spec_track_kind(tracks[stream as int].params) {
            TrackKind::Attachment | TrackKind::Unknown => Route::Skip { report: false },
            kind => Route::Convert { kind, time_base: tracks[stream as int].time_base },
        }
    }
}

/// Whether an unplaceable packet was reported once `stream` is routed.
pub open spec fn spec_reported_after(tracks: Seq<TrackInfo>, reported: bool, stream: usize) -> bool {
    reported || stream >= tracks.len()
}

/// **A track's arm is the medium of its parameters.** Video, audio,
/// subtitle and data rows each get their own arm; an attachment row is an
/// attachment and a row nothing can name is unknown.
pub proof fn law_track_kind_is_the_medium(params: TrackParams)
    ensures
        (params is Video) == (spec_track_kind(params) == TrackKind::Video),
        (params is Audio) == (spec_track_kind(params) == TrackKind::Audio),
        (params is Subtitle) == (spec_track_kind(params) == TrackKind::Subtitle),
        (params is Data) == (spec_track_kind(params) == TrackKind::Data),
        (params is Attachment) == (spec_track_kind(params) == TrackKind::Attachment),
        (params is Unknown) == (spec_track_kind(params) == TrackKind::Unknown),
{
}

/// The route a packet on a row of `kind` takes.
pub open spec fn spec_converted(kind: TrackKind, time_base: Timebase) -> Route {
    Route::Convert { kind, time_base }
}

/// **Every packet of a video, audio, subtitle or data track is converted
/// on that track's own arm, against that track's ruler**; packets of an
/// attachment track or a track nothing can name are passed by without a
/// report, and only a packet for a stream no row describes can be
/// reported — the first time.
pub proof fn law_route_follows_the_row(tracks: Seq<TrackInfo>, reported: bool, stream: usize)
    requires
        stream < tracks.len(),
    ensures
        (tracks[stream as int].params is Video) ==> spec_route(tracks, reported, stream) == spec_converted(
            TrackKind::Video,
            tracks[stream as int].time_base,
        ),
        (tracks[stream as int].params is Audio) ==> spec_route(tracks, reported, stream) == spec_converted(
            TrackKind::Audio,
            tracks[stream as int].time_base,
        ),
        (tracks[stream as int].params is Subtitle) ==> spec_route(tracks, reported, stream)
            == spec_converted(TrackKind::Subtitle, tracks[stream as int].time_base),
        (tracks[stream as int].params is Data) ==> spec_route(tracks, reported, stream) == spec_converted(
            TrackKind::Data,
            tracks[stream as int].time_base,
        ),
        (tracks[stream as int].params is Attachment || tracks[stream as int].params is Unknown)
            ==> spec_route(tracks, reported, stream) == (Route::Skip { report: false }),
{
}

/// **A packet for a stream no row describes is passed by, and reported
/// only when nothing was reported before.**
pub proof fn law_route_unplaceable(tracks: Seq<TrackInfo>, reported: bool, stream: usize)
    requires
        stream >= tracks.len(),
    ensures
        spec_route(tracks, reported, stream) == (Route::Skip { report: !reported }),
        spec_reported_after(tracks, reported, stream),
{
}

/// **Routing a placeable packet leaves the report latch as it was.**
pub proof fn law_placeable_keeps_the_latch(tracks: Seq<TrackInfo>, reported: bool, stream: usize)
    requires
        stream < tracks.len(),
    ensures
        spec_reported_after(tracks, reported, stream) == reported,
{
}

/// An open demux session. `P` is the caller's handle to a packet read off
/// the container.
pub struct DemuxSession<P> {
    tracks: Vec<TrackInfo>,
    chapters: Vec<Chapter>,
    pending: VecDeque<AttachmentPacket>,
    /// A packet the container gave up whose conversion the allocator
    /// refused: re-attempted before anything else is read.
    unconverted: Option<P>,
    eof: bool,
    /// Whether a packet for a stream no row describes was reported yet.
    unplaceable_reported: bool,
    limits: DemuxLimits,
}

/// What a pull starts with.
pub enum PullStart<P> {
    /// The session is finished with an error: nothing else is read.
    Fail(DemuxError),
    /// A queued attachment packet, delivered before any read.
    Deliver(AttachmentPacket),
    /// The parked packet, to be routed and converted again.
    Retry(P),
    /// Nothing owed: read the next packet.
    Read,
}

/// What a read comes to.
#[derive(Debug)]
pub enum ReadVerdict {
    Fail(DemuxError),
    /// End of file: the pull answers that there is nothing more.
    Finished,
    /// A corrupt packet the demuxer can resync past: read again.
    ReadAgain,
    /// A packet: route it.
    Route,
}

/// Where a packet goes.
#[derive(Clone, Copy, Debug, PartialEq, Eq, Structural)]
pub enum Route {
    /// Passed by. `report` is set the first time a packet names a stream
    /// no row describes, and never again.
    Skip { report: bool },
    /// Converted on the track's arm, against its ruler.
    Convert { kind: TrackKind, time_base: Timebase },
}

/// What a conversion comes to.
#[derive(Clone, Copy, Debug, PartialEq, Eq, Structural)]
pub enum Settled {
    /// The converted packet is the pull's answer.
    Deliver,
    /// The packet carried nothing: read the next one.
    ReadNext,
}

impl<P> DemuxSession<P> {
    pub closed spec fn spec_tracks(&self) -> Seq<TrackInfo> {
        self.tracks@
    }

    pub closed spec fn spec_chapters(&self) -> Seq<Chapter> {
        self.chapters@
    }

    pub closed spec fn spec_pending(&self) -> Seq<AttachmentPacket> {
        self.pending@
    }

    pub closed spec fn spec_unconverted(&self) -> Option<P> {
        self.unconverted
    }

    pub closed spec fn spec_eof(&self) -> bool {
        self.eof
    }

    pub closed spec fn spec_reported(&self) -> bool {
        self.unplaceable_reported
    }

    pub closed spec fn spec_limits(&self) -> DemuxLimits {
        self.limits
    }

    /// **Opens a session from what a container declares.** The chapter
    /// table is judged first, then every stream; only a container that
    /// passes both in full has its track table, attachment queue and
    /// chapter table built. Every quantity this open can refuse is refused
    /// before anything is spent on the file; what can still fail after is
    /// the allocator, or what only reading a row in full reveals.
    pub fn from_input(
        streams: &[StreamRecord],
        chapters: &[Option<ChapterRecord>],
        limits: DemuxLimits,
    ) -> (r: Result<Self, DemuxError>)
        requires
            spec_records_priceable(streams@),
            forall|i: int| 0 <= i < streams@.len() ==> spec_record_consistent(#[trigger] streams@[i]),
            spec_titles_priceable(chapters@),
        ensures
            (streams@.len() == 0 && chapters@.len() == 0) ==> (r matches Ok(session)
                && session.spec_tracks().len() == 0 && session.spec_chapters().len() == 0
                && session.spec_pending().len() == 0),
            match spec_admit_chapters(chapters@, limits) {
                Err((index, refusal)) => r matches Err(e) && spec_chapter_error(
                    index,
                    refusal,
                    chapters@.len() as usize,
                    limits,
                    e,
                ),
                Ok(()) => match spec_admit_from(streams@, 0, nothing_spent(), limits) {
                    Err((index, refusal)) => r matches Err(e) && spec_refusal_error(
                        index,
                        refusal,
                        limits,
                        e,
                    ),
                    Ok(_) => match r {
                        Ok(session) => {
                            &&& session.spec_tracks().len() == streams@.len()
                            &&& forall|i: int|
                                0 <= i < streams@.len() ==> spec_track_row(
                                    #[trigger] session.spec_tracks()[i],
                                    streams@[i],
                                    i as usize,
                                )
                            &&& session.spec_pending().len() == spec_attachment_tracks(
                                streams@,
                                streams@.len() as int,
                            ).len()
                            &&& forall|k: int|
                                0 <= k < session.spec_pending().len() ==> spec_attachment_packet(
                                    #[trigger] session.spec_pending()[k],
                                    streams@[spec_attachment_tracks(
                                        streams@,
                                        streams@.len() as int,
                                    )[k] as int],
                                    spec_attachment_tracks(streams@, streams@.len() as int)[k],
                                )
                            &&& session.spec_chapters().len() == spec_present(chapters@).len()
                            &&& forall|k: int|
                                0 <= k < session.spec_chapters().len() ==> spec_chapter_row(
                                    #[trigger] session.spec_chapters()[k],
                                    spec_present(chapters@)[k],
                                )
                            &&& session.spec_unconverted() is None
                            &&& !session.spec_eof()
                            &&& !session.spec_reported()
                            &&& session.spec_limits() == limits
                        },
                        Err(e) => spec_build_fault(e, streams@) || spec_chapter_alloc_error(
                            e,
                            chapters@,
                            limits,
                        ),
                    },
                },
            },
            (spec_admit_chapters(chapters@, limits) is Ok && spec_admit_from(
                streams@,
                0,
                nothing_spent(),
                limits,
            ) is Ok && exists|j: int| 0 <= j < streams@.len() && spec_row_refused(#[trigger] streams@[j]))
                ==> (r matches Err(e) && spec_build_fault(e, streams@)),
    {
        match admit_chapters(chapters, limits) {
            Ok(()) => {},
            Err(e) => return Err(e),
        }
        let built: BuiltTracks = match build_tracks(streams, limits) {
            Ok(b) => b,
            Err(e) => return Err(e),
        };
        let table = match build_chapters(chapters, limits) {
            Ok(t) => t,
            Err(e) => return Err(e),
        };
        Ok(
            DemuxSession {
                tracks: built.tracks,
                chapters: table,
                pending: built.pending,
                unconverted: None,
                eof: false,
                unplaceable_reported: false,
                limits,
            },
        )
    }

    /// The track table, one row per stream, in stream order.
    pub fn tracks(&self) -> (r: &[TrackInfo])
        ensures
            r@ == self.spec_tracks(),
    {
        self.tracks.as_slice()
    }

    /// The chapter table, in the container's order.
    pub fn chapters(&self) -> (r: &[Chapter])
        ensures
            r@ == self.spec_chapters(),
    {
        self.chapters.as_slice()
    }

    /// The limits the session was opened with.
    pub fn limits(&self) -> (r: DemuxLimits)
        ensures
            r == self.spec_limits(),
    {
        self.limits
    }

    /// **How a pull starts.** A latched reader panic is terminal, and
    /// terminal starts here, ahead of the queue. Then the attachment queue
    /// drains first and completely — which is the whole of "exactly one
    /// packet per attachment track, before any timed packet" — and then a
    /// parked packet is re-attempted before another is read.
    pub fn pull_start(&mut self, panicked: Option<DemuxError>) -> (r: PullStart<P>)
        ensures
            final(self).spec_tracks() == old(self).spec_tracks(),
            final(self).spec_chapters() == old(self).spec_chapters(),
            final(self).spec_eof() == old(self).spec_eof(),
            final(self).spec_reported() == old(self).spec_reported(),
            final(self).spec_limits() == old(self).spec_limits(),
            (r, final(self).spec_pending(), final(self).spec_unconverted()) == spec_pull(
                panicked,
                old(self).spec_pending(),
                old(self).spec_unconverted(),
            ),
    {
        match panicked {
            Some(e) => return PullStart::Fail(e),
            None => {},
        }
        match self.pending.pop_front() {
            Some(packet) => return PullStart::Deliver(packet),
            None => {},
        }
        match self.unconverted.take() {
            Some(parked) => PullStart::Retry(parked),
            None => PullStart::Read,
        }
    }

    /// **What a read comes to.** The panic latch is consulted whatever the
    /// read returned, since a panicking reader's failure is not the file's
    /// word. End of file latches and finishes the pull; corrupt data is
    /// read past; any other error is surfaced.
    pub fn on_read(&mut self, panicked: Option<DemuxError>, read: Result<(), AvError>) -> (r: ReadVerdict)
        ensures
            final(self).spec_tracks() == old(self).spec_tracks(),
            final(self).spec_chapters() == old(self).spec_chapters(),
            final(self).spec_pending() == old(self).spec_pending(),
            final(self).spec_unconverted() == old(self).spec_unconverted(),
            final(self).spec_reported() == old(self).spec_reported(),
            final(self).spec_limits() == old(self).spec_limits(),
            (r, final(self).spec_eof()) == spec_read(panicked, read, old(self).spec_eof()),
    {
        match panicked {
            Some(e) => return ReadVerdict::Fail(e),
            None => {},
        }
        match read {
            Ok(()) => ReadVerdict::Route,
            Err(AvError::Eof) => {
                self.eof = true;
                ReadVerdict::Finished
            },
            Err(AvError::InvalidData) => ReadVerdict::ReadAgain,
            Err(e) => ReadVerdict::Fail(DemuxError::Ffmpeg(e)),
        }
    }

    /// **Where a packet for `stream` goes.** One no row describes is passed
    /// by — reported the first time only, since a live stream that adds
    /// streams mid-read would otherwise report every packet. Packets on an
    /// attachment track are the duplicates some demuxers emit after the one
    /// already delivered, and a track nothing can name has no arm: both are
    /// passed by. Everything else is converted on its track's arm.
    pub fn route_packet(&mut self, stream: usize) -> (r: Route)
        ensures
            final(self).spec_tracks() == old(self).spec_tracks(),
            final(self).spec_chapters() == old(self).spec_chapters(),
            final(self).spec_pending() == old(self).spec_pending(),
            final(self).spec_unconverted() == old(self).spec_unconverted(),
            final(self).spec_eof() == old(self).spec_eof(),
            final(self).spec_limits() == old(self).spec_limits(),
            r == spec_route(old(self).spec_tracks(), old(self).spec_reported(), stream),
            final(self).spec_reported() == spec_reported_after(old(self).spec_tracks(), old(self).spec_reported(), stream),
    {
        if stream >= self.tracks.len() {
            let report = !self.unplaceable_reported;
            self.unplaceable_reported = true;
            return Route::Skip { report };
        }
        let row = &self.tracks[stream];
        let kind = track_kind(&row.params);
        match kind {
            TrackKind::Attachment | TrackKind::Unknown => Route::Skip { report: false },
            _ => Route::Convert { kind, time_base: row.time_base },
        }
    }

    /// **What a conversion of `packet` comes to.** A refusal another
    /// attempt could survive — the allocator's — parks the packet, which is
    /// off the wire and would otherwise be lost; any other refusal is a
    /// fact about the packet, and parking it would answer every later pull
    /// with the same error. `Ok(true)` is a delivered packet, `Ok(false)`
    /// one that carried nothing.
    pub fn settle_conversion(
        &mut self,
        stream: usize,
        packet: P,
        converted: Result<bool, PacketBufferError>,
    ) -> (r: Result<Settled, DemuxError>)
        ensures
            final(self).spec_tracks() == old(self).spec_tracks(),
            final(self).spec_chapters() == old(self).spec_chapters(),
            final(self).spec_pending() == old(self).spec_pending(),
            final(self).spec_eof() == old(self).spec_eof(),
            final(self).spec_reported() == old(self).spec_reported(),
            final(self).spec_limits() == old(self).spec_limits(),
            spec_settled(stream, packet, converted, old(self).spec_unconverted(), r, final(self).spec_unconverted()),
    {
        match converted {
            Ok(true) => Ok(Settled::Deliver),
            Ok(false) => Ok(Settled::ReadNext),
            Err(source) => {
                if source.parks_in_demux() {
                    self.unconverted = Some(packet);
                }
                Err(DemuxError::PacketBuffer(PacketBuffer::new(stream, source)))
            },
        }
    }

    /// **Before a seek**: only this session's own end-of-file latch is
    /// cleared, and before the seek, since the seek machinery gates on it.
    /// Answers whether the container's latch must be cleared too.
    pub fn seek_prepare(&mut self) -> (r: bool)
        ensures
            r == old(self).spec_eof(),
            !final(self).spec_eof(),
            final(self).spec_tracks() == old(self).spec_tracks(),
            final(self).spec_chapters() == old(self).spec_chapters(),
            final(self).spec_pending() == old(self).spec_pending(),
            final(self).spec_unconverted() == old(self).spec_unconverted(),
            final(self).spec_reported() == old(self).spec_reported(),
            final(self).spec_limits() == old(self).spec_limits(),
    {
        let was = self.eof;
        self.eof = false;
        was
    }

    /// **After a seek.** A parked packet belongs to the position the
    /// session is leaving, so a seek that happened discards it; one that
    /// failed — or a reader that panicked — leaves the session where it
    /// was, packet included.
    pub fn seek_settle(&mut self, panicked: Option<DemuxError>, sought: Result<(), AvError>) -> (r: Result<
        (),
        DemuxError,
    >)
        ensures
            final(self).spec_tracks() == old(self).spec_tracks(),
            final(self).spec_chapters() == old(self).spec_chapters(),
            final(self).spec_pending() == old(self).spec_pending(),
            final(self).spec_eof() == old(self).spec_eof(),
            final(self).spec_reported() == old(self).spec_reported(),
            final(self).spec_limits() == old(self).spec_limits(),
            (r, final(self).spec_unconverted()) == spec_seek(panicked, sought, old(self).spec_unconverted()),
    {
        match panicked {
            Some(e) => return Err(e),
            None => {},
        }
        match sought {
            Ok(()) => {
                self.unconverted = None;
                Ok(())
            },
            Err(e) => Err(DemuxError::Ffmpeg(e)),
        }
    }
}

/// How a pull starts, and the queue and parked packet it leaves.
pub open spec fn spec_pull<P>(panicked: Option<DemuxError>, pending: Seq<AttachmentPacket>, parked: Option<P>) -> (
    PullStart<P>,
    Seq<AttachmentPacket>,
    Option<P>,
) {
    match panicked {
        Some(e) => (PullStart::Fail(e), pending, parked),
        None => if pending.len() > 0 {
            (PullStart::Deliver(pending[0]), pending.drop_first(), parked)
        } else {
            match parked {
                Some(p) => (PullStart::Retry(p), pending, None),
                None => (PullStart::Read, pending, None),
            }
        },
    }
}

/// What a read comes to, and the end-of-file latch after it.
pub open spec fn spec_read(panicked: Option<DemuxError>, read: Result<(), AvError>, eof: bool) -> (ReadVerdict, bool) {
    match panicked {
        Some(e) => (ReadVerdict::Fail(e), eof),
        None => match read {
            Ok(()) => (ReadVerdict::Route, eof),
            Err(AvError::Eof) => (ReadVerdict::Finished, true),
            Err(AvError::InvalidData) => (ReadVerdict::ReadAgain, eof),
            Err(e) => (ReadVerdict::Fail(DemuxError::Ffmpeg(e)), eof),
        },
    }
}

/// What a conversion came to, and the parked packet after it.
pub open spec fn spec_settled<P>(
    stream: usize,
    packet: P,
    converted: Result<bool, PacketBufferError>,
    parked: Option<P>,
    r: Result<Settled, DemuxError>,
    parked_after: Option<P>,
) -> bool {
    match converted {
        Ok(true) => r == Ok::<Settled, DemuxError>(Settled::Deliver) && parked_after == parked,
        Ok(false) => r == Ok::<Settled, DemuxError>(Settled::ReadNext) && parked_after == parked,
        Err(source) => {
            &&& r matches Err(e) && e matches DemuxError::PacketBuffer(p) && p.spec_stream_index()
                == stream && p.spec_source() == source
            &&& if source == PacketBufferError::Alloc {
                parked_after == Some(packet)
            } else {
                parked_after == parked
            }
        },
    }
}

/// What a seek came to, and the parked packet after it.
pub open spec fn spec_seek<P>(panicked: Option<DemuxError>, sought: Result<(), AvError>, parked: Option<P>) -> (
    Result<(), DemuxError>,
    Option<P>,
) {
    match panicked {
        Some(e) => (Err(e), parked),
        None => match sought {
            Ok(()) => (Ok(()), None),
            Err(e) => (Err(DemuxError::Ffmpeg(e)), parked),
        },
    }
}

/// **A pull's order of business.** A latched reader panic ends the pull
/// and touches nothing; otherwise a queued attachment is delivered — the
/// front one, which leaves the queue — before anything else; with the
/// queue empty a parked packet is re-attempted, and leaves its slot; only
/// then is the container read.
pub proof fn law_pull_order<P>(panicked: Option<DemuxError>, pending: Seq<AttachmentPacket>, parked: Option<P>)
    ensures
        panicked matches Some(e) ==> spec_pull(panicked, pending, parked) == (PullStart::<P>::Fail(e), pending, parked),
        (panicked is None && pending.len() > 0) ==> spec_pull(panicked, pending, parked) == (
            PullStart::<P>::Deliver(pending[0]),
            pending.subrange(1, pending.len() as int),
            parked,
        ),
        (panicked is None && pending.len() == 0 && parked is Some) ==> spec_pull(panicked, pending, parked) == (
            PullStart::<P>::Retry(parked->Some_0),
            pending,
            None::<P>,
        ),
        (panicked is None && pending.len() == 0 && parked is None) ==> spec_pull(panicked, pending, parked) == (
            PullStart::<P>::Read,
            pending,
            None::<P>,
        ),
{
}

/// **What a read means.** A reader that panicked is named whatever the
/// read returned, and the latch is untouched; end of file finishes the
/// pull and latches; corrupt data is read past; any other error is the
/// pull's error; a packet is routed.
pub proof fn law_read_meaning(panicked: Option<DemuxError>, read: Result<(), AvError>, eof: bool)
    ensures
        panicked matches Some(e) ==> spec_read(panicked, read, eof) == (ReadVerdict::Fail(e), eof),
        (panicked is None && read is Ok) ==> spec_read(panicked, read, eof) == (ReadVerdict::Route, eof),
        (panicked is None && read == Err::<(), AvError>(AvError::Eof)) ==> spec_read(panicked, read, eof) == (
            ReadVerdict::Finished,
            true,
        ),
        (panicked is None && read == Err::<(), AvError>(AvError::InvalidData)) ==> spec_read(panicked, read, eof)
            == (ReadVerdict::ReadAgain, eof),
        (panicked is None && read is Err && read->Err_0 != AvError::Eof && read->Err_0 != AvError::InvalidData)
            ==> spec_read(panicked, read, eof) == (ReadVerdict::Fail(DemuxError::Ffmpeg(read->Err_0)), eof),
{
}

/// **Only the allocator's refusal parks a packet.** A delivered or empty
/// conversion leaves the parked slot as it was; every refusal is reported
/// for its stream with its cause; the packet is kept for another attempt
/// exactly when the cause is the allocator's.
pub proof fn law_only_allocation_parks<P>(
    stream: usize,
    packet: P,
    converted: Result<bool, PacketBufferError>,
    parked: Option<P>,
    r: Result<Settled, DemuxError>,
    parked_after: Option<P>,
)
    requires
        spec_settled(stream, packet, converted, parked, r, parked_after),
    ensures
        converted == Ok::<bool, PacketBufferError>(true) ==> r == Ok::<Settled, DemuxError>(Settled::Deliver)
            && parked_after == parked,
        converted == Ok::<bool, PacketBufferError>(false) ==> r == Ok::<Settled, DemuxError>(
            Settled::ReadNext,
        ) && parked_after == parked,
        converted is Err ==> (r matches Err(DemuxError::PacketBuffer(p)) && p.spec_stream_index() == stream
            && p.spec_source() == converted->Err_0),
        converted == Err::<bool, PacketBufferError>(PacketBufferError::Alloc) ==> parked_after == Some(packet),
        (converted is Err && converted->Err_0 != PacketBufferError::Alloc) ==> parked_after == parked,
{
}

/// **A seek that happened drops the parked packet; one that did not leaves
/// it.** A panicked reader is named first.
pub proof fn law_seek_drops_the_parked_packet<P>(panicked: Option<DemuxError>, sought: Result<(), AvError>, parked: Option<P>)
    ensures
        panicked matches Some(e) ==> spec_seek(panicked, sought, parked) == (Err::<(), DemuxError>(e), parked),
        (panicked is None && sought is Ok) ==> spec_seek(panicked, sought, parked) == (Ok::<(), DemuxError>(()), None::<P>),
        (panicked is None && sought is Err) ==> spec_seek(panicked, sought, parked) == (
            Err::<(), DemuxError>(DemuxError::Ffmpeg(sought->Err_0)),
            parked,
        ),
{
}

/// Whether one step of a session kept its attachment queue, or delivered
/// the packet at its front.
pub open spec fn spec_queue_step(before: Seq<AttachmentPacket>, after: Seq<AttachmentPacket>) -> bool {
    ||| after == before
    ||| (before.len() > 0 && after == before.drop_first())
}

/// **Every attachment is delivered exactly once, in stream order, before
/// any timed packet.** Each step of a session keeps its queue or delivers
/// the packet at its front — [`DemuxSession::pull_start`] delivers, every
/// other step keeps it. So over any run of steps from the queue `q` built
/// at open, what is left is `q` past the packets delivered so far: the
/// next one delivered is the next of `q`, none is delivered twice, and
/// since a pull reads the container only with the queue empty, nothing is
/// read before the last of `q` was delivered.
pub proof fn law_attachments_first(q: Seq<AttachmentPacket>, run: Seq<Seq<AttachmentPacket>>)
    requires
        run.len() > 0,
        run[0] == q,
        forall|i: int| 0 <= i < run.len() - 1 ==> spec_queue_step(#[trigger] run[i], run[i + 1]),
    ensures
        run.last().len() <= q.len(),
        run.last() == q.subrange(q.len() - run.last().len(), q.len() as int),
    decreases run.len(),
{
    if run.len() == 1 {
        assert(q.subrange(0, q.len() as int) =~= q);
    } else {
        let shorter = run.drop_last();
        assert forall|i: int| 0 <= i < shorter.len() - 1 implies spec_queue_step(
            #[trigger] shorter[i],
            shorter[i + 1],
        ) by {
            assert(spec_queue_step(run[i], run[i + 1]));
        }
        law_attachments_first(q, shorter);
        assert(spec_queue_step(run[run.len() - 2], run[run.len() - 1]));
        let prev = shorter.last();
        if run.last() != prev {
            assert(run.last() =~= q.subrange(q.len() - run.last().len(), q.len() as int));
        }
    }
}

/// **Opening over a caller's reader**: three ways the open can fail, and
/// they must not be confused. When libavformat refused the open, a
/// panicked reader is named first, then a probe budget the meter tripped,
/// and only then libavformat's own verdict — which folds the reader's I/O
/// error into whatever it was doing and would report this crate's refusal
/// as a malformed file. When the open went through, a tripped meter still
/// refuses it, and so does a panic libavformat tolerated. `tripped` is the
/// meter's reading and budget when it tripped.
pub fn reader_open_verdict(
    opened: Result<(), AvError>,
    panicked: Option<DemuxError>,
    tripped: Option<(u64, u64)>,
) -> (r: Result<(), DemuxError>)
    ensures
        match opened {
            Err(e) => match panicked {
                Some(p) => r == Err::<(), DemuxError>(p),
                None => match tripped {
                    Some((read, budget)) => r matches Err(DemuxError::ProbeBudgetExhausted(q))
                        && q.spec_read() == read && q.spec_budget() == budget,
                    None => r == Err::<(), DemuxError>(DemuxError::Ffmpeg(e)),
                },
            },
            Ok(()) => match tripped {
                Some((read, budget)) => r matches Err(DemuxError::ProbeBudgetExhausted(q))
                    && q.spec_read() == read && q.spec_budget() == budget,
                None => match panicked {
                    Some(p) => r == Err::<(), DemuxError>(p),
                    None => r is Ok,
                },
            },
        },
{
    match opened {
        Err(e) => match panicked {
            Some(p) => Err(p),
            None => match tripped {
                Some((read, budget)) => Err(
                    DemuxError::ProbeBudgetExhausted(ProbeBudgetExhausted::new(read, budget)),
                ),
                None => Err(DemuxError::Ffmpeg(e)),
            },
        },
        Ok(()) => match tripped {
            Some((read, budget)) => Err(
                DemuxError::ProbeBudgetExhausted(ProbeBudgetExhausted::new(read, budget)),
            ),
            None => match panicked {
                Some(p) => Err(p),
                None => Ok(()),
            },
        },
    }
}

/// **Whether a timed packet's payload can be carried.** A payload marked
/// as one this layer must not copy is refused, then one whose bytes do not
/// lie inside the buffer it claims, then one over the packet ceiling, then
/// one whose flags fall outside the portable set. A demux-delivered
/// payload's other references are libavformat's own, so sharing is not a
/// refusal here.
pub fn judge_packet_payload(
    trusted: bool,
    in_bounds: bool,
    size: usize,
    limit: usize,
    flags_portable: bool,
) -> (r: Result<(), PacketBufferError>)
    ensures
        r == (if trusted {
            Err(PacketBufferError::Trusted)
        } else if !in_bounds {
            Err(PacketBufferError::OutOfBounds)
        } else if size > limit {
            Err(PacketBufferError::TooLarge { bytes: size, limit })
        } else if !flags_portable {
            Err(PacketBufferError::UnportableFlags)
        } else {
            Ok(())
        }),
{
    if trusted {
        Err(PacketBufferError::Trusted)
    } else if !in_bounds {
        Err(PacketBufferError::OutOfBounds)
    } else if size > limit {
        Err(PacketBufferError::TooLarge { bytes: size, limit })
    } else if !flags_portable {
        Err(PacketBufferError::UnportableFlags)
    } else {
        Ok(())
    }
}

} // verus!
