//! The track table: one row per stream, built only after the whole file
//! was admitted, and the attachment queue filled in the same pass.
//!
//! Every attachment track leaves the build with exactly one packet
//! queued, or the open fails: that is what makes "exactly one packet,
//! before any timed packet" a property of the construction rather than a
//! promise the pull loop has to keep.
//!
//! The pass that pays repeats the judgements the admission pass made —
//! the same ruler conversion, the same metadata charges against the same
//! budget — so it cannot refuse what admission let through. What only it
//! can run into is the allocator, and what only reading a row in full
//! reveals.
use vstd::prelude::*;
use std::collections::{TryReserveError, VecDeque};
use crate::admission::{
    AdmissionSpend, DemuxLimits, MediaKind, StreamRecord, TicketFault, admit_streams,
    is_attachment_disposition, nothing_spent, spec_admit_from, spec_admit_stream,
    spec_charge_stream_metadata, spec_cover_art, spec_records_priceable,
    spec_refusal_error,
    stream_metadata_key,
};
use crate::demux_error::{
    AttachmentTooLarge, DemuxError, PacketBuffer, PacketBufferError, ParametersAlloc,
    ParametersCopy, TrackTableAlloc, layout_fault_to_demux, spec_layout_fault,
};
use crate::metadata::{
    MetadataFault, MetadataValue, retain_metadata, retained_stream_metadata, spec_charge,
    spec_priceable, stream_metadata_error,
};
use crate::reserve::{reserve_exact, reserve_queue};
use crate::text::{lossy_utf8, push_run, spec_lossy_text};
use crate::timebase::{Timebase, Timestamp, rate_to_timebase, spec_is_timebase, stream_timebase};

verus! {

/// `AV_NOPTS_VALUE`: no timestamp declared.
pub const AV_NOPTS_VALUE: i64 = -9223372036854775808i64;

/// What a track carries, by medium.
#[derive(Clone, Copy, Debug)]
pub enum TrackParams {
    /// Motion video. A zero or negative declared dimension reads as zero;
    /// a frame rate is present only when one was declared.
    Video { codec_id: i32, width: u32, height: u32, pixel_format: i32, frame_rate: Option<Timebase> },
    /// Audio, with the channel count capped at 255.
    Audio { codec_id: i32, sample_rate: u32, channels: u8, sample_format: i32 },
    Subtitle { codec_id: i32 },
    Data { codec_id: i32 },
    /// Cover art, or an attachment stream such as a font.
    Attachment { codec_id: i32 },
    Unknown { codec_id: i32 },
}

/// One row of the track table.
#[derive(Debug)]
pub struct TrackInfo {
    /// The row's position, which is the stream's index.
    pub stream_index: usize,
    pub time_base: Timebase,
    pub params: TrackParams,
    /// `AVStream.disposition`, as declared.
    pub disposition: i32,
    /// The declared duration, when one is declared and positive.
    pub duration: Option<Timestamp>,
    /// The declared start time, when one is declared.
    pub start_time: Option<i64>,
    /// The declared frame count, when positive.
    pub frame_count: Option<i64>,
    pub filename: Option<String>,
    pub mime_type: Option<String>,
    pub language: Option<String>,
}

/// An attachment track's one packet.
#[derive(Debug)]
pub struct AttachmentPacket {
    /// The track it belongs to.
    pub track: usize,
    pub payload: Vec<u8>,
    /// The packet's flags; empty for a packet this layer made up.
    pub flags: u32,
    /// Whether the payload was made up here rather than parked by the
    /// container.
    pub synthesized: bool,
}

/// The track table and the attachment queue.
#[derive(Debug)]
pub struct BuiltTracks {
    pub tracks: Vec<TrackInfo>,
    pub pending: VecDeque<AttachmentPacket>,
}

/// Whether a stream becomes an attachment track.
pub open spec fn spec_is_attachment_track(rec: StreamRecord) -> bool {
    spec_cover_art(rec.disposition) || rec.medium == MediaKind::Attachment
}

/// `max(v, 0)` as an unsigned count.
pub open spec fn non_negative(v: i32) -> u32 {
    if v < 0 {
        0
    } else {
        v as u32
    }
}

/// Whether `params` is what the stream declares.
pub open spec fn spec_track_params(params: TrackParams, rec: StreamRecord) -> bool {
    if spec_cover_art(rec.disposition) {
        params == TrackParams::Attachment { codec_id: rec.codec_id }
    } else {
        match rec.medium {
            MediaKind::Video => params matches TrackParams::Video {
                codec_id,
                width,
                height,
                pixel_format,
                frame_rate,
            } && codec_id == rec.codec_id && width == non_negative(rec.width) && height
                == non_negative(rec.height) && pixel_format == rec.format && match frame_rate {
                Some(tb) => rec.avg_frame_rate.num > 0 && spec_is_timebase(rec.avg_frame_rate)
                    && tb.spec_num() == rec.avg_frame_rate.num && tb.spec_den()
                    == rec.avg_frame_rate.den,
                None => !(rec.avg_frame_rate.num > 0 && spec_is_timebase(rec.avg_frame_rate)),
            },
            MediaKind::Audio => rec.channels matches Ok(count) && params == TrackParams::Audio {
                codec_id: rec.codec_id,
                sample_rate: non_negative(rec.sample_rate),
                channels: if count > 255 {
                    255u8
                } else {
                    count as u8
                },
                sample_format: rec.format,
            },
            MediaKind::Subtitle => params == TrackParams::Subtitle { codec_id: rec.codec_id },
            MediaKind::Data => params == TrackParams::Data { codec_id: rec.codec_id },
            MediaKind::Attachment => params == TrackParams::Attachment { codec_id: rec.codec_id },
            MediaKind::Unknown => params == TrackParams::Unknown { codec_id: rec.codec_id },
        }
    }
}

/// Whether `text` is a metadata value retained: decoded when present,
/// absent when absent.
pub open spec fn spec_retained(text: Option<String>, value: MetadataValue) -> bool {
    match value {
        MetadataValue::Present(bytes) => text matches Some(t) && t@ == spec_lossy_text(bytes@),
        _ => text is None,
    }
}

/// Whether `row` is exactly the row stream `index` declares.
pub open spec fn spec_track_row(row: TrackInfo, rec: StreamRecord, index: usize) -> bool {
    &&& row.stream_index == index
    &&& row.time_base.spec_num() == rec.time_base.num
    &&& row.time_base.spec_den() == rec.time_base.den
    &&& spec_track_params(row.params, rec)
    &&& row.disposition == rec.disposition
    &&& row.duration == (if rec.duration != AV_NOPTS_VALUE && rec.duration > 0 {
        Some(Timestamp { pts: rec.duration, timebase: row.time_base })
    } else {
        None
    })
    &&& row.start_time == (if rec.start_time != AV_NOPTS_VALUE {
        Some(rec.start_time)
    } else {
        None
    })
    &&& row.frame_count == (if rec.frames > 0 {
        Some(rec.frames)
    } else {
        None
    })
    &&& spec_retained(row.filename, rec.metadata@[0])
    &&& spec_retained(row.mime_type, rec.metadata@[1])
    &&& spec_retained(row.language, rec.metadata@[2])
}

/// Whether `packet` is the one packet an attachment stream owes: cover
/// art carries its parked payload and flags, or an empty made-up packet
/// when nothing was parked; an attachment stream carries its extradata.
pub open spec fn spec_attachment_packet(packet: AttachmentPacket, rec: StreamRecord, index: usize) -> bool {
    &&& packet.track == index
    &&& if spec_cover_art(rec.disposition) {
        match rec.attached_pic.payload {
            Some(bytes) => packet.payload@ == bytes@ && !packet.synthesized
                && rec.attached_pic.flags == Ok::<u32, PacketBufferError>(packet.flags),
            None => packet.payload@.len() == 0 && packet.synthesized && packet.flags == 0,
        }
    } else {
        packet.payload@ == rec.extradata@ && packet.synthesized && packet.flags == 0
    }
}

/// The positions among the first `n` streams that become attachment
/// tracks, in order.
pub open spec fn spec_attachment_tracks(recs: Seq<StreamRecord>, n: int) -> Seq<usize>
    decreases n,
{
    if n <= 0 {
        Seq::empty()
    } else {
        spec_attachment_tracks(recs, n - 1) + if spec_is_attachment_track(recs[n - 1]) {
            seq![(n - 1) as usize]
        } else {
            Seq::empty()
        }
    }
}

/// The error the allocator's refusal of a stream's `k`-th retained
/// metadata value is reported as: the value was present, and its decoded
/// size is what could not be reserved.
pub open spec fn spec_metadata_alloc(index: usize, k: usize, value: MetadataValue, e: DemuxError) -> bool {
    value matches MetadataValue::Present(bytes) && e matches DemuxError::TrackMetadataAlloc(p)
        && p.spec_stream_index() == index && p.spec_key()@ == stream_metadata_key(k) && p.spec_bytes()
        == lossy_utf8(bytes@).len()
}

/// What building stream `index`'s row runs into once the stream was
/// admitted, in the order the row is built: an audio layout that cannot be
/// described refuses it as that layout; otherwise a parameter copy the
/// allocator or libavcodec refuses, as that; otherwise only the allocator
/// declining a metadata value that was present, or an attachment's
/// carrier.
pub open spec fn spec_row_fault(index: usize, rec: StreamRecord, e: DemuxError) -> bool {
    if !spec_cover_art(rec.disposition) && rec.medium == MediaKind::Audio && rec.channels is Err {
        match rec.channels {
            Err(fault) => spec_layout_fault(index, fault, e),
            Ok(_) => false,
        }
    } else if rec.ticket == Some(TicketFault::Alloc) {
        e matches DemuxError::ParametersAlloc(p) && p.spec_stream_index() == index
    } else if rec.ticket is Some {
        match rec.ticket {
            Some(TicketFault::Copy(source)) => e matches DemuxError::ParametersCopy(p)
                && p.spec_stream_index() == index && p.spec_source() == source,
            _ => false,
        }
    } else {
        ||| spec_metadata_alloc(index, 0, rec.metadata@[0], e)
        ||| spec_metadata_alloc(index, 1, rec.metadata@[1], e)
        ||| spec_metadata_alloc(index, 2, rec.metadata@[2], e)
        ||| (spec_is_attachment_track(rec) && (e matches DemuxError::PacketBuffer(p)
            && p.spec_stream_index() == index && p.spec_source() == PacketBufferError::Alloc))
    }
}

/// Whether a row is refused whatever the allocator does: a non-cover
/// audio stream whose layout cannot be described, or a stream whose
/// parameter copy failed.
pub open spec fn spec_row_refused(rec: StreamRecord) -> bool {
    ||| (!spec_cover_art(rec.disposition) && rec.medium == MediaKind::Audio && rec.channels is Err)
    ||| rec.ticket is Some
}

/// What building an admitted table can run into: the table's own
/// reservation, or the fault of one row that every row before it got
/// past — the rows are built in stream order and the first fault ends
/// the build.
pub open spec fn spec_build_fault(e: DemuxError, recs: Seq<StreamRecord>) -> bool {
    ||| (e matches DemuxError::TrackTableAlloc(p) && p.spec_streams() == recs.len())
    ||| exists|i: int|
        0 <= i < recs.len() && spec_row_fault(i as usize, #[trigger] recs[i], e) && forall|j: int|
            0 <= j < i ==> !spec_row_refused(#[trigger] recs[j])
}

/// Whether a record agrees with itself: a parked payload is as long as
/// its declared size, and the measured extradata is the extradata.
pub open spec fn spec_record_consistent(rec: StreamRecord) -> bool {
    &&& rec.attached_pic.payload matches Some(bytes) ==> bytes@.len() == rec.attached_pic.size
    &&& rec.footprint matches Some(f) ==> f.extradata_payload == rec.extradata@.len()
}

/// Copies `bytes` into a carrier reserved fallibly at exactly their size.
fn copy_payload(bytes: &[u8]) -> (r: Result<Vec<u8>, TryReserveError>)
    ensures
        r matches Ok(v) ==> v@ == bytes@,
        bytes@.len() == 0 ==> r is Ok,
{
    let mut out: Vec<u8> = Vec::new();
    match reserve_exact(&mut out, bytes.len()) {
        Ok(()) => {},
        Err(e) => return Err(e),
    }
    push_run(&mut out, bytes, 0, bytes.len());
    proof {
        assert(bytes@.subrange(0, bytes@.len() as int) == bytes@);
    }
    Ok(out)
}

/// Retains one of a stream's metadata values, naming the key on a fault.
fn retain_stream_value(
    value: MetadataValue,
    key: &'static str,
    index: usize,
    spent: &mut usize,
    limit: usize,
) -> (r: Result<Option<String>, DemuxError>)
    requires
        spec_priceable(value),
        spec_charge(value, *old(spent), limit) is Ok,
    ensures
        match r {
            Ok(text) => spec_retained(text, value) && spec_charge(value, *old(spent), limit) == Ok::<
                usize,
                MetadataFault,
            >(*final(spent)),
            Err(e) => value matches MetadataValue::Present(bytes) && e matches DemuxError::TrackMetadataAlloc(
                p,
            ) && p.spec_stream_index() == index && p.spec_key() == key && p.spec_bytes()
                == lossy_utf8(bytes@).len(),
        },
{
    match retain_metadata(value, spent, limit) {
        Ok(text) => Ok(text),
        Err(fault) => Err(stream_metadata_error(index, key, fault, limit)),
    }
}

/// Wraps a cover-art stream's parked picture as its track's one packet,
/// judged against the per-attachment ceiling as that packet's own. A
/// structural fault of the parked packet is refused first; a stream that
/// parks nothing still gets a packet — an empty one, marked as made up
/// here, because the contract is one packet per attachment track; a
/// payload over the ceiling, or flags outside the portable set, are
/// refused before anything is copied.
fn attached_pic_payload(rec: &StreamRecord, index: usize, limits: DemuxLimits) -> (r: Result<
    AttachmentPacket,
    DemuxError,
>)
    ensures
        match rec.attached_pic.structure {
            Some(fault) => r matches Err(DemuxError::PacketBuffer(p)) && p.spec_stream_index() == index
                && p.spec_source() == fault,
            None => match rec.attached_pic.payload {
                None => r matches Ok(packet) && packet.track == index && packet.payload@.len() == 0
                    && packet.synthesized && packet.flags == 0,
                Some(bytes) => if bytes@.len() > limits.max_attachment_bytes {
                    r matches Err(DemuxError::PacketBuffer(p)) && p.spec_stream_index() == index
                        && p.spec_source() == (PacketBufferError::TooLarge {
                        bytes: bytes@.len() as usize,
                        limit: limits.max_attachment_bytes,
                    })
                } else {
                    match rec.attached_pic.flags {
                        Err(fault) => r matches Err(DemuxError::PacketBuffer(p)) && p.spec_stream_index()
                            == index && p.spec_source() == fault,
                        Ok(flags) => {
                            &&& bytes@.len() == 0 ==> r is Ok
                            &&& match r {
                                Ok(packet) => packet.track == index && packet.payload@ == bytes@
                                    && !packet.synthesized && packet.flags == flags,
                                Err(e) => e matches DemuxError::PacketBuffer(p) && p.spec_stream_index()
                                    == index && p.spec_source() == PacketBufferError::Alloc,
                            }
                        },
                    }
                },
            },
        },
{
    match rec.attached_pic.structure {
        Some(fault) => return Err(DemuxError::PacketBuffer(PacketBuffer::new(index, fault))),
        None => {},
    }
    match rec.attached_pic.payload {
        None => Ok(AttachmentPacket { track: index, payload: Vec::new(), flags: 0, synthesized: true }),
        Some(bytes) => {
            if bytes.len() > limits.max_attachment_bytes {
                return Err(
                    DemuxError::PacketBuffer(
                        PacketBuffer::new(
                            index,
                            PacketBufferError::TooLarge {
                                bytes: bytes.len(),
                                limit: limits.max_attachment_bytes,
                            },
                        ),
                    ),
                );
            }
            let flags = match rec.attached_pic.flags {
                Ok(f) => f,
                Err(fault) => return Err(DemuxError::PacketBuffer(PacketBuffer::new(index, fault))),
            };
            match copy_payload(bytes) {
                Ok(payload) => Ok(AttachmentPacket { track: index, payload, flags, synthesized: false }),
                Err(_) => Err(DemuxError::PacketBuffer(PacketBuffer::new(index, PacketBufferError::Alloc))),
            }
        },
    }
}

/// Builds an attachment stream's one packet out of its codec extradata —
/// the only place a font's bytes live. The payload is judged against the
/// per-attachment ceiling here and refused, with its size, before anything
/// is copied; no extradata at all still gets a packet, an empty one.
fn extradata_payload(rec: &StreamRecord, index: usize, limits: DemuxLimits) -> (r: Result<
    AttachmentPacket,
    DemuxError,
>)
    ensures
        if rec.extradata@.len() > limits.max_attachment_bytes {
            r matches Err(DemuxError::AttachmentTooLarge(p)) && p.spec_stream_index() == index
                && p.spec_bytes() == rec.extradata@.len() && p.spec_limit() == limits.max_attachment_bytes
        } else {
            &&& rec.extradata@.len() == 0 ==> r is Ok
            &&& match r {
                Ok(packet) => packet.track == index && packet.payload@ == rec.extradata@
                    && packet.synthesized && packet.flags == 0,
                Err(e) => e matches DemuxError::PacketBuffer(p) && p.spec_stream_index() == index
                    && p.spec_source() == PacketBufferError::Alloc,
            }
        },
{
    let len = rec.extradata.len();
    if len > limits.max_attachment_bytes {
        return Err(
            DemuxError::AttachmentTooLarge(AttachmentTooLarge::new(index, len, limits.max_attachment_bytes)),
        );
    }
    match copy_payload(rec.extradata) {
        Ok(payload) => Ok(AttachmentPacket { track: index, payload, flags: 0, synthesized: true }),
        Err(_) => Err(DemuxError::PacketBuffer(PacketBuffer::new(index, PacketBufferError::Alloc))),
    }
}

/// Builds stream `index`'s row, and its attachment packet when it is one.
/// `spend` is what admission had spent before this stream; the stream was
/// admitted from there.
fn build_track(
    rec: &StreamRecord,
    index: usize,
    limits: DemuxLimits,
    metadata_spent: &mut usize,
    Ghost(spend): Ghost<AdmissionSpend>,
) -> (r: Result<(TrackInfo, Option<AttachmentPacket>), DemuxError>)
    requires
        spec_admit_stream(*rec, limits, spend) is Ok,
        *old(metadata_spent) == spend.metadata,
        spec_record_consistent(*rec),
        forall|k: int| 0 <= k < 3 ==> spec_priceable(#[trigger] rec.metadata@[k]),
    ensures
        match r {
            Ok((row, packet)) => {
                &&& spec_track_row(row, *rec, index)
                &&& spec_admit_stream(*rec, limits, spend) matches Ok(next) && *final(metadata_spent)
                    == next.metadata
                &&& if spec_is_attachment_track(*rec) {
                    packet matches Some(p) && spec_attachment_packet(p, *rec, index)
                } else {
                    packet is None
                }
            },
            Err(e) => spec_row_fault(index, *rec, e),
        },
        r is Ok ==> !spec_row_refused(*rec),
{
    let time_base = match stream_timebase(index, rec.time_base) {
        Ok(tb) => tb,
        Err(e) => {
            proof {
                assert(false);
            }
            return Err(e);
        },
    };
    let duration = if rec.duration != AV_NOPTS_VALUE && rec.duration > 0 {
        Some(Timestamp { pts: rec.duration, timebase: time_base })
    } else {
        None
    };
    let start_time = if rec.start_time != AV_NOPTS_VALUE {
        Some(rec.start_time)
    } else {
        None
    };
    let frame_count = if rec.frames > 0 {
        Some(rec.frames)
    } else {
        None
    };
    let cover = is_attachment_disposition(rec.disposition);
    let params = if cover {
        TrackParams::Attachment { codec_id: rec.codec_id }
    } else {
        match rec.medium {
            MediaKind::Video => {
                let width: u32 = if rec.width < 0 {
                    0
                } else {
                    rec.width as u32
                };
                let height: u32 = if rec.height < 0 {
                    0
                } else {
                    rec.height as u32
                };
                TrackParams::Video {
                    codec_id: rec.codec_id,
                    width,
                    height,
                    pixel_format: rec.format,
                    frame_rate: rate_to_timebase(rec.avg_frame_rate),
                }
            },
            MediaKind::Audio => match rec.channels {
                Ok(count) => {
                    let sample_rate: u32 = if rec.sample_rate < 0 {
                        0
                    } else {
                        rec.sample_rate as u32
                    };
                    let channels: u8 = if count > 255 {
                        255
                    } else {
                        count as u8
                    };
                    TrackParams::Audio {
                        codec_id: rec.codec_id,
                        sample_rate,
                        channels,
                        sample_format: rec.format,
                    }
                },
                Err(fault) => return Err(layout_fault_to_demux(index, fault)),
            },
            MediaKind::Subtitle => TrackParams::Subtitle { codec_id: rec.codec_id },
            MediaKind::Data => TrackParams::Data { codec_id: rec.codec_id },
            MediaKind::Attachment => TrackParams::Attachment { codec_id: rec.codec_id },
            MediaKind::Unknown => TrackParams::Unknown { codec_id: rec.codec_id },
        }
    };
    match rec.ticket {
        Some(TicketFault::Alloc) => return Err(DemuxError::ParametersAlloc(ParametersAlloc::new(index))),
        Some(TicketFault::Copy(source)) => return Err(
            DemuxError::ParametersCopy(ParametersCopy::new(index, source)),
        ),
        None => {},
    }
    let limit = limits.max_total_stream_metadata_bytes;
    let keys = retained_stream_metadata();
    let filename = match retain_stream_value(rec.metadata[0], keys[0], index, metadata_spent, limit) {
        Ok(t) => t,
        Err(e) => return Err(e),
    };
    let mime_type = match retain_stream_value(rec.metadata[1], keys[1], index, metadata_spent, limit) {
        Ok(t) => t,
        Err(e) => return Err(e),
    };
    let language = match retain_stream_value(rec.metadata[2], keys[2], index, metadata_spent, limit) {
        Ok(t) => t,
        Err(e) => return Err(e),
    };
    let packet = if cover {
        match attached_pic_payload(rec, index, limits) {
            Ok(p) => Some(p),
            Err(e) => return Err(e),
        }
    } else if rec.medium == MediaKind::Attachment {
        match extradata_payload(rec, index, limits) {
            Ok(p) => Some(p),
            Err(e) => return Err(e),
        }
    } else {
        None
    };
    let row = TrackInfo {
        stream_index: index,
        time_base,
        params,
        disposition: rec.disposition,
        duration,
        start_time,
        frame_count,
        filename,
        mime_type,
        language,
    };
    Ok((row, packet))
}

/// **Builds the track table and the attachment queue**, after the whole
/// file was admitted.
///
/// A refusal admission makes is reported exactly as admission reports it,
/// before anything is reserved. Once admitted, every row is exactly what
/// its stream declares and every attachment track has its one packet
/// queued, in stream order; what can still refuse the open is only what
/// [`spec_build_fault`] names.
pub fn build_tracks(records: &[StreamRecord], limits: DemuxLimits) -> (r: Result<BuiltTracks, DemuxError>)
    requires
        spec_records_priceable(records@),
        forall|i: int| 0 <= i < records@.len() ==> spec_record_consistent(#[trigger] records@[i]),
    ensures
        records@.len() == 0 ==> (r matches Ok(built) && built.tracks@.len() == 0
            && built.pending@.len() == 0),
        match spec_admit_from(records@, 0, nothing_spent(), limits) {
            Err((index, refusal)) => r matches Err(e) && spec_refusal_error(index, refusal, limits, e),
            Ok(_) => match r {
                Ok(built) => {
                    &&& built.tracks@.len() == records@.len()
                    &&& forall|i: int|
                        0 <= i < records@.len() ==> spec_track_row(
                            #[trigger] built.tracks@[i],
                            records@[i],
                            i as usize,
                        )
                    &&& built.pending@.len() == spec_attachment_tracks(records@, records@.len() as int).len()
                    &&& forall|k: int|
                        0 <= k < built.pending@.len() ==> spec_attachment_packet(
                            #[trigger] built.pending@[k],
                            records@[spec_attachment_tracks(records@, records@.len() as int)[k] as int],
                            spec_attachment_tracks(records@, records@.len() as int)[k],
                        )
                },
                Err(e) => spec_build_fault(e, records@),
            },
        },
        (spec_admit_from(records@, 0, nothing_spent(), limits) is Ok && exists|j: int|
            0 <= j < records@.len() && spec_row_refused(#[trigger] records@[j])) ==> r is Err,
{
    match admit_streams(records, limits) {
        Ok(()) => {},
        Err(e) => return Err(e),
    }
    let count = records.len();
    let mut tracks: Vec<TrackInfo> = Vec::new();
    match reserve_exact(&mut tracks, count) {
        Ok(()) => {},
        Err(_) => return Err(DemuxError::TrackTableAlloc(TrackTableAlloc::new(count))),
    }
    let mut pending: VecDeque<AttachmentPacket> = VecDeque::new();
    match reserve_queue(&mut pending, count) {
        Ok(()) => {},
        Err(_) => return Err(DemuxError::TrackTableAlloc(TrackTableAlloc::new(count))),
    }
    let mut metadata_spent: usize = 0;
    let ghost mut spend = nothing_spent();
    let mut i: usize = 0;
    while i < count
        invariant
            count == records@.len(),
            i <= count,
            spec_records_priceable(records@),
            forall|j: int| 0 <= j < records@.len() ==> spec_record_consistent(#[trigger] records@[j]),
            spec_admit_from(records@, 0, nothing_spent(), limits) is Ok,
            spec_admit_from(records@, i as int, spend, limits) is Ok,
            metadata_spent == spend.metadata,
            tracks@.len() == i,
            forall|j: int| 0 <= j < i ==> spec_track_row(#[trigger] tracks@[j], records@[j], j as usize),
            forall|j: int| 0 <= j < i ==> !spec_row_refused(#[trigger] records@[j]),
            pending@.len() == spec_attachment_tracks(records@, i as int).len(),
            forall|k: int|
                0 <= k < pending@.len() ==> spec_attachment_packet(
                    #[trigger] pending@[k],
                    records@[spec_attachment_tracks(records@, i as int)[k] as int],
                    spec_attachment_tracks(records@, i as int)[k],
                ),
        decreases count - i,
    {
        let rec = &records[i];
        proof {
            assert(spec_record_consistent(records@[i as int]));
            assert forall|k: int| 0 <= k < 3 implies spec_priceable(#[trigger] rec.metadata@[k]) by {
                assert(spec_priceable(records@[i as int].metadata@[k]));
            }
        }
        match build_track(rec, i, limits, &mut metadata_spent, Ghost(spend)) {
            Ok((row, packet)) => {
                tracks.push(row);
                let ghost before = pending@;
                match packet {
                    Some(p) => pending.push_back(p),
                    None => {},
                }
                proof {
                    let n = i + 1;
                    assert(spec_attachment_tracks(records@, n as int) == spec_attachment_tracks(
                        records@,
                        i as int,
                    ) + if spec_is_attachment_track(records@[i as int]) {
                        seq![i]
                    } else {
                        Seq::empty()
                    });
                    spend = match spec_admit_stream(records@[i as int], limits, spend) {
                        Ok(next) => next,
                        Err(_) => spend,
                    };
                }
            },
            Err(e) => {
                proof {
                    assert(spec_row_fault((i as int) as usize, records@[i as int], e));
                    assert(spec_build_fault(e, records@));
                }
                return Err(e);
            },
        }
        i = i + 1;
    }
    Ok(BuiltTracks { tracks, pending })
}

/// Whether `e` is one of the judgements the admission pass makes: a
/// missing or oversized parameter set, a malformed ruler or layout, a
/// metadata value over its cap or its budget, an attachment over its
/// ceiling or its budget.
pub open spec fn spec_admission_judgement(e: DemuxError) -> bool {
    ||| e is ParametersMissing
    ||| e is TrackTimebaseInvalid
    ||| e is ParametersOpaque
    ||| e is ParametersTooLarge
    ||| e is ParametersBudgetExhausted
    ||| e is TrackMetadataTooLong
    ||| e is TrackMetadataBudgetExhausted
    ||| e is AttachmentTooLarge
    ||| e is AttachmentBudgetExhausted
}

/// **The pass that pays cannot refuse what the pass that judged
/// admitted.** Whatever a build of an admitted table runs into, it is
/// never one of admission's own judgements.
pub proof fn law_build_refuses_no_judgement(e: DemuxError, recs: Seq<StreamRecord>)
    requires
        spec_build_fault(e, recs),
    ensures
        !spec_admission_judgement(e),
{
}

} // verus!
