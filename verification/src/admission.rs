//! **The admission pass**: every stream in a container is judged before
//! the track table allocates anything at all.
//!
//! Any per-track interleaving of judging and paying lets a file make the
//! process pay for what it is certain to be refused, because an aggregate
//! budget is only knowable once every track has been seen. So the whole
//! file is admitted here, from values read off each stream, in a pass that
//! allocates nothing; only a container that passes in full reaches the
//! loop that builds carriers and parameter copies.
//!
//! Structure is judged before budget: a malformed stream is a more
//! specific thing to say than a file that is too large, and both can be
//! true of one container at once.
use vstd::prelude::*;
use crate::demux_error::{
    AttachmentBudgetExhausted, AttachmentTooLarge, ChannelLayoutFault, DemuxError, PacketBuffer,
    PacketBufferError, ParametersBudgetExhausted, ParametersMissing, ParametersOpaque,
    ParametersTooLarge, layout_fault_to_demux, spec_layout_fault,
};
use crate::metadata::{
    MetadataFault, MetadataValue, charge_metadata, retained_stream_metadata, spec_charge,
    spec_priceable, stream_metadata_error,
};
use crate::pricing::sat_add;
use crate::timebase::{Rational, spec_is_timebase, stream_timebase};

verus! {

/// `AV_DISPOSITION_ATTACHED_PIC`: the stream carries a still picture.
pub const AV_DISPOSITION_ATTACHED_PIC: i32 = 0x400;

/// `AV_DISPOSITION_TIMED_THUMBNAILS`: its pictures are on the timeline.
pub const AV_DISPOSITION_TIMED_THUMBNAILS: i32 = 0x800;

/// What a container may make an open spend.
#[derive(Clone, Copy, Debug, PartialEq, Eq, Structural)]
pub struct DemuxLimits {
    /// Bytes the format probe and the stream analysis may read.
    pub max_probe_bytes: u64,
    /// Streams a header may declare.
    pub max_streams: u32,
    /// Chapters a table may declare.
    pub max_chapters: u32,
    /// Decoded bytes of every chapter title together.
    pub max_total_chapter_title_bytes: usize,
    /// Decoded bytes of every retained stream metadata value together.
    pub max_total_stream_metadata_bytes: usize,
    /// Bytes of one attachment's payload.
    pub max_attachment_bytes: usize,
    /// Bytes of every attachment payload together.
    pub max_total_attachment_bytes: usize,
    /// Bytes one stream's codec parameters may retain.
    pub max_codec_parameter_bytes: usize,
    /// Bytes every stream's codec parameters may retain together.
    pub max_total_codec_parameter_bytes: usize,
    /// Bytes of one timed packet's payload.
    pub max_packet_bytes: usize,
}

/// The libavformat options set before a container is opened, as key and
/// value: the probe budget bounds what the format probe and the stream
/// analysis consume, and `max_streams` bounds the stream array a header
/// can conjure.
pub fn probe_options(limits: DemuxLimits) -> (r: [(&'static str, u64); 3])
    ensures
        r@[0].0@ == "probesize"@,
        r@[0].1 == limits.max_probe_bytes,
        r@[1].0@ == "formatprobesize"@,
        r@[1].1 == limits.max_probe_bytes,
        r@[2].0@ == "max_streams"@,
        r@[2].1 == limits.max_streams as u64,
{
    proof {
        reveal_strlit("probesize");
        reveal_strlit("formatprobesize");
        reveal_strlit("max_streams");
    }
    [
        ("probesize", limits.max_probe_bytes),
        ("formatprobesize", limits.max_probe_bytes),
        ("max_streams", limits.max_streams as u64),
    ]
}

/// The medium a stream's codec parameters declare, with anything unnamed
/// folded into `Unknown`.
#[derive(Clone, Copy, Debug, PartialEq, Eq, Structural)]
pub enum MediaKind {
    Video,
    Audio,
    Subtitle,
    Data,
    Attachment,
    Unknown,
}

/// Cover art: a still picture with no timeline. A stream that also carries
/// `TIMED_THUMBNAILS` is on the timeline and is sparse video, not an
/// attachment.
pub open spec fn spec_cover_art(disposition: i32) -> bool {
    disposition & AV_DISPOSITION_ATTACHED_PIC != 0 && disposition & AV_DISPOSITION_TIMED_THUMBNAILS
        == 0
}

/// Whether a stream's disposition makes it cover art.
pub fn is_attachment_disposition(disposition: i32) -> (r: bool)
    ensures
        r == spec_cover_art(disposition),
{
    disposition & AV_DISPOSITION_ATTACHED_PIC != 0 && disposition & AV_DISPOSITION_TIMED_THUMBNAILS
        == 0
}

/// What is wrong with a stream's channel layout.
#[derive(Clone, Copy, Debug, PartialEq, Eq, Structural)]
pub enum LayoutDefect {
    /// User-private data no owned copy can mirror: on the layout itself
    /// (`None`) or on the custom-map entry named.
    Opaque { channel: Option<usize> },
    /// A structural fault of the layout.
    Fault(ChannelLayoutFault),
}

/// The error a layout defect on stream `index` is reported as.
pub open spec fn spec_layout_defect(index: usize, defect: LayoutDefect, e: DemuxError) -> bool {
    match defect {
        LayoutDefect::Opaque { channel } => e matches DemuxError::ParametersOpaque(p)
            && p.spec_stream_index() == index && p.spec_channel() == channel,
        LayoutDefect::Fault(fault) => spec_layout_fault(index, fault, e),
    }
}

/// Names a layout defect.
pub fn layout_defect_to_demux(index: usize, defect: LayoutDefect) -> (r: DemuxError)
    ensures
        spec_layout_defect(index, defect, r),
{
    match defect {
        LayoutDefect::Opaque { channel } => DemuxError::ParametersOpaque(
            ParametersOpaque::new(index, channel),
        ),
        LayoutDefect::Fault(fault) => layout_fault_to_demux(index, fault),
    }
}

/// What a stream's codec parameters would retain if copied.
#[derive(Clone, Copy, Debug, PartialEq, Eq, Structural)]
pub struct ParameterFootprint {
    /// Everything, extradata included; `None` when the sum overflows.
    pub total: Option<usize>,
    /// Everything but the extradata; `None` when the sum overflows.
    pub without_extradata: Option<usize>,
    /// The extradata's payload, without the padding a copy adds.
    pub extradata_payload: usize,
}

/// The picture a cover-art stream parks, as its structure was judged.
#[derive(Clone, Copy, Debug)]
pub struct AttachedPicture<'a> {
    /// The parked packet's declared size.
    pub size: i32,
    /// A structural fault of the parked packet (a payload that must not
    /// be copied, one outside its buffer, a shared one), if any.
    pub structure: Option<PacketBufferError>,
    /// The packet's flags, or the fault reading them.
    pub flags: Result<u32, PacketBufferError>,
    /// The payload, or `None` when nothing was parked.
    pub payload: Option<&'a [u8]>,
}

/// What a codec ticket's copy of the parameters can run into.
#[derive(Clone, Copy, Debug, PartialEq, Eq, Structural)]
pub enum TicketFault {
    /// The allocator declined the copy.
    Alloc,
    /// libavcodec refused the copy with this errno.
    Copy(crate::averror::AvError),
}

/// What one stream declares, read off the container.
#[derive(Clone, Copy, Debug)]
pub struct StreamRecord<'a> {
    /// Whether the stream has codec parameters at all.
    pub has_parameters: bool,
    /// The stream's ruler, as declared.
    pub time_base: Rational,
    /// A structural defect of the channel layout, if any.
    pub layout_defect: Option<LayoutDefect>,
    /// What a parameter copy would retain, or `None` when it cannot be
    /// measured.
    pub footprint: Option<ParameterFootprint>,
    /// `AVStream.disposition`.
    pub disposition: i32,
    /// The declared medium.
    pub medium: MediaKind,
    /// The retained metadata values: filename, MIME type, language.
    pub metadata: [MetadataValue<'a>; 3],
    /// The parked picture, for a cover-art stream.
    pub attached_pic: AttachedPicture<'a>,
    /// The codec id, as the integer it is.
    pub codec_id: i32,
    /// The declared duration in the stream's ruler (`AV_NOPTS_VALUE` when
    /// none).
    pub duration: i64,
    /// The declared start time (`AV_NOPTS_VALUE` when none).
    pub start_time: i64,
    /// The declared frame count.
    pub frames: i64,
    /// Picture width, height and pixel or sample format.
    pub width: i32,
    pub height: i32,
    pub format: i32,
    /// Audio sample rate.
    pub sample_rate: i32,
    /// The declared average frame rate.
    pub avg_frame_rate: Rational,
    /// The channel count the layout describes, or why it cannot be read.
    pub channels: Result<u32, ChannelLayoutFault>,
    /// What copying the parameters into an owned ticket runs into, if
    /// anything.
    pub ticket: Option<TicketFault>,
    /// The codec extradata.
    pub extradata: &'a [u8],
}

/// Why one stream refuses the open.
#[derive(Clone, Copy, Debug, PartialEq, Eq, Structural)]
pub enum StreamRefusal {
    ParametersMissing,
    Timebase(Rational),
    Layout(LayoutDefect),
    ParametersTooLarge(usize),
    ParametersBudgetExhausted(usize),
    /// The metadata key by its position among the retained three.
    Metadata(usize, MetadataFault),
    PacketBuffer(PacketBufferError),
    AttachmentTooLarge(usize),
    AttachmentBudgetExhausted(usize),
}

/// The retained metadata keys, by position.
pub open spec fn stream_metadata_key(k: usize) -> Seq<char> {
    if k == 0 {
        "filename"@
    } else if k == 1 {
        "mimetype"@
    } else {
        "language"@
    }
}

/// The error a refusal of stream `index` is reported as.
pub open spec fn spec_refusal_error(index: usize, refusal: StreamRefusal, limits: DemuxLimits, e: DemuxError) -> bool {
    match refusal {
        StreamRefusal::ParametersMissing => e matches DemuxError::ParametersMissing(p)
            && p.spec_stream_index() == index,
        StreamRefusal::Timebase(declared) => e matches DemuxError::TrackTimebaseInvalid(p)
            && p.spec_stream_index() == index && p.spec_num() == declared.num && p.spec_den()
            == declared.den,
        StreamRefusal::Layout(defect) => spec_layout_defect(index, defect, e),
        StreamRefusal::ParametersTooLarge(bytes) => e matches DemuxError::ParametersTooLarge(p)
            && p.spec_stream_index() == index && p.spec_bytes() == bytes && p.spec_limit()
            == limits.max_codec_parameter_bytes,
        StreamRefusal::ParametersBudgetExhausted(total) => e matches DemuxError::ParametersBudgetExhausted(
            p,
        ) && p.spec_stream_index() == index && p.spec_total() == total && p.spec_limit()
            == limits.max_total_codec_parameter_bytes,
        StreamRefusal::Metadata(k, fault) => match fault {
            MetadataFault::TooLong => e matches DemuxError::TrackMetadataTooLong(p)
                && p.spec_stream_index() == index && p.spec_key()@ == stream_metadata_key(k)
                && p.spec_limit() == crate::metadata::METADATA_VALUE_MAX_BYTES,
            MetadataFault::BudgetExhausted(total) => e matches DemuxError::TrackMetadataBudgetExhausted(
                p,
            ) && p.spec_stream_index() == index && p.spec_key()@ == stream_metadata_key(k)
                && p.spec_bytes() == total && p.spec_limit()
                == limits.max_total_stream_metadata_bytes,
            MetadataFault::Alloc(bytes) => e matches DemuxError::TrackMetadataAlloc(p)
                && p.spec_stream_index() == index && p.spec_key()@ == stream_metadata_key(k)
                && p.spec_bytes() == bytes,
        },
        StreamRefusal::PacketBuffer(source) => e matches DemuxError::PacketBuffer(p)
            && p.spec_stream_index() == index && p.spec_source() == source,
        StreamRefusal::AttachmentTooLarge(bytes) => e matches DemuxError::AttachmentTooLarge(p)
            && p.spec_stream_index() == index && p.spec_bytes() == bytes && p.spec_limit()
            == limits.max_attachment_bytes,
        StreamRefusal::AttachmentBudgetExhausted(total) => e matches DemuxError::AttachmentBudgetExhausted(
            p,
        ) && p.spec_stream_index() == index && p.spec_total() == total && p.spec_limit()
            == limits.max_total_attachment_bytes,
    }
}

/// Charging `declared` attachment bytes: the per-attachment ceiling first,
/// because a single payload over the line is the more specific fact, then
/// the whole-file budget.
pub open spec fn spec_charge_attachment(declared: usize, spent: usize, limits: DemuxLimits) -> Result<usize, StreamRefusal> {
    if declared > limits.max_attachment_bytes {
        Err(StreamRefusal::AttachmentTooLarge(declared))
    } else {
        let total = sat_add(spent as int, declared as int);
        if total > limits.max_total_attachment_bytes {
            Err(StreamRefusal::AttachmentBudgetExhausted(total as usize))
        } else {
            Ok(total as usize)
        }
    }
}

/// Charges `declared` bytes against both attachment budgets, refusing
/// before anything is copied. `spent` moves only when the charge is
/// admitted.
pub fn charge_attachment(index: usize, declared: usize, limits: DemuxLimits, spent: &mut usize) -> (r:
    Result<(), DemuxError>)
    ensures
        match spec_charge_attachment(declared, *old(spent), limits) {
            Ok(total) => r is Ok && *final(spent) == total,
            Err(refusal) => (r matches Err(e) && spec_refusal_error(index, refusal, limits, e))
                && *final(spent) == *old(spent),
        },
{
    if declared > limits.max_attachment_bytes {
        return Err(
            DemuxError::AttachmentTooLarge(
                AttachmentTooLarge::new(index, declared, limits.max_attachment_bytes),
            ),
        );
    }
    let total = spent.saturating_add(declared);
    if total > limits.max_total_attachment_bytes {
        return Err(
            DemuxError::AttachmentBudgetExhausted(
                AttachmentBudgetExhausted::new(index, total, limits.max_total_attachment_bytes),
            ),
        );
    }
    *spent = total;
    Ok(())
}

/// What one admitted stream has spent of each whole-file budget so far.
#[derive(Clone, Copy, Debug, PartialEq, Eq, Structural)]
pub struct AdmissionSpend {
    pub attachments: usize,
    pub parameters: usize,
    pub metadata: usize,
}

/// What the parameter copy retains: a synthesized attachment's extradata
/// rides its carrier instead, so it is left out — one set of bytes, one
/// charge. `None` when the figure cannot be established.
pub open spec fn spec_retained_parameters(rec: StreamRecord) -> Option<usize> {
    match rec.footprint {
        None => None,
        Some(footprint) => if !spec_cover_art(rec.disposition) && rec.medium == MediaKind::Attachment {
            footprint.without_extradata
        } else {
            footprint.total
        },
    }
}

/// What an attachment's carrier will hold, or the structural fault of the
/// parked picture; `None` for a stream that is not an attachment. Cover
/// art is charged its parked payload; a synthesized attachment its
/// extradata payload.
pub open spec fn spec_carrier(rec: StreamRecord) -> Option<Result<usize, PacketBufferError>> {
    if spec_cover_art(rec.disposition) {
        match rec.attached_pic.structure {
            Some(fault) => Some(Err(fault)),
            None => match rec.attached_pic.flags {
                Err(fault) => Some(Err(fault)),
                Ok(_) => Some(
                    Ok(
                        if rec.attached_pic.size < 0 {
                            0usize
                        } else {
                            rec.attached_pic.size as usize
                        },
                    ),
                ),
            },
        }
    } else if rec.medium == MediaKind::Attachment {
        match rec.footprint {
            Some(footprint) => Some(Ok(footprint.extradata_payload)),
            None => None,
        }
    } else {
        None
    }
}

/// The three retained metadata values charged in order against one
/// budget: the new total, or the first fault with its key's position.
pub open spec fn spec_charge_stream_metadata(values: Seq<MetadataValue>, spent: usize, limit: usize) -> Result<usize, (usize, MetadataFault)> {
    match spec_charge(values[0], spent, limit) {
        Err(fault) => Err((0usize, fault)),
        Ok(s0) => match spec_charge(values[1], s0, limit) {
            Err(fault) => Err((1usize, fault)),
            Ok(s1) => match spec_charge(values[2], s1, limit) {
                Err(fault) => Err((2usize, fault)),
                Ok(s2) => Ok(s2),
            },
        },
    }
}

/// **The rule for one stream**, in the order the judgements are made:
/// parameters present, ruler well-formed, layout sound; the parameter
/// copy against its own ceiling and then the whole-file one; the three
/// metadata values; and, for an attachment, its carrier.
pub open spec fn spec_admit_stream(rec: StreamRecord, limits: DemuxLimits, spend: AdmissionSpend) -> Result<AdmissionSpend, StreamRefusal> {
    if !rec.has_parameters {
        Err(StreamRefusal::ParametersMissing)
    } else if !spec_is_timebase(rec.time_base) {
        Err(StreamRefusal::Timebase(rec.time_base))
    } else if rec.layout_defect is Some {
        Err(StreamRefusal::Layout(rec.layout_defect.unwrap()))
    } else {
        match spec_retained_parameters(rec) {
            None => Err(StreamRefusal::ParametersTooLarge(usize::MAX)),
            Some(retained) => if retained > limits.max_codec_parameter_bytes {
                Err(StreamRefusal::ParametersTooLarge(retained))
            } else {
                let parameters = sat_add(spend.parameters as int, retained as int);
                if parameters > limits.max_total_codec_parameter_bytes {
                    Err(StreamRefusal::ParametersBudgetExhausted(parameters as usize))
                } else {
                    match spec_charge_stream_metadata(
                        rec.metadata@,
                        spend.metadata,
                        limits.max_total_stream_metadata_bytes,
                    ) {
                        Err((k, fault)) => Err(StreamRefusal::Metadata(k, fault)),
                        Ok(metadata) => match spec_carrier(rec) {
                            None => Ok(
                                AdmissionSpend {
                                    attachments: spend.attachments,
                                    parameters: parameters as usize,
                                    metadata,
                                },
                            ),
                            Some(Err(fault)) => Err(StreamRefusal::PacketBuffer(fault)),
                            Some(Ok(declared)) => match spec_charge_attachment(
                                declared,
                                spend.attachments,
                                limits,
                            ) {
                                Err(refusal) => Err(refusal),
                                Ok(attachments) => Ok(
                                    AdmissionSpend {
                                        attachments,
                                        parameters: parameters as usize,
                                        metadata,
                                    },
                                ),
                            },
                        },
                    }
                }
            },
        }
    }
}

/// The rule for the streams from `i` on, with `spend` already spent: what
/// is spent in all once every one of them is admitted, or the first
/// stream that refuses and why.
pub open spec fn spec_admit_from(recs: Seq<StreamRecord>, i: int, spend: AdmissionSpend, limits: DemuxLimits) -> Result<AdmissionSpend, (usize, StreamRefusal)>
    decreases recs.len() - i,
{
    if i >= recs.len() || i < 0 {
        Ok(spend)
    } else {
        match spec_admit_stream(recs[i], limits, spend) {
            Err(refusal) => Err((i as usize, refusal)),
            Ok(next) => spec_admit_from(recs, i + 1, next, limits),
        }
    }
}

/// Nothing spent.
pub open spec fn nothing_spent() -> AdmissionSpend {
    AdmissionSpend { attachments: 0, parameters: 0, metadata: 0 }
}

/// Whether every retained metadata value of every stream can be priced.
pub open spec fn spec_records_priceable(recs: Seq<StreamRecord>) -> bool {
    forall|i: int, k: int| 0 <= i < recs.len() && 0 <= k < 3 ==> spec_priceable(#[trigger] recs[i].metadata@[k])
}

/// Judges one stream, advancing `spend` when it is admitted.
#[verifier::loop_isolation(false)]
fn admit_stream(rec: &StreamRecord, index: usize, limits: DemuxLimits, spend: &mut AdmissionSpend) -> (r:
    Result<(), DemuxError>)
    requires
        forall|k: int| 0 <= k < 3 ==> spec_priceable(#[trigger] rec.metadata@[k]),
    ensures
        match spec_admit_stream(*rec, limits, *old(spend)) {
            Ok(next) => r is Ok && *final(spend) == next,
            Err(refusal) => r matches Err(e) && spec_refusal_error(index, refusal, limits, e),
        },
{
    if !rec.has_parameters {
        return Err(DemuxError::ParametersMissing(ParametersMissing::new(index)));
    }
    match stream_timebase(index, rec.time_base) {
        Ok(_) => {},
        Err(e) => return Err(e),
    }
    match rec.layout_defect {
        Some(defect) => return Err(layout_defect_to_demux(index, defect)),
        None => {},
    }
    let footprint = match rec.footprint {
        Some(f) => f,
        None => return Err(
            DemuxError::ParametersTooLarge(
                ParametersTooLarge::new(index, usize::MAX, limits.max_codec_parameter_bytes),
            ),
        ),
    };
    let cover_art = is_attachment_disposition(rec.disposition);
    let synthesized = !cover_art && rec.medium == MediaKind::Attachment;
    let retained_option = if synthesized {
        footprint.without_extradata
    } else {
        footprint.total
    };
    let retained = match retained_option {
        Some(bytes) => bytes,
        None => return Err(
            DemuxError::ParametersTooLarge(
                ParametersTooLarge::new(index, usize::MAX, limits.max_codec_parameter_bytes),
            ),
        ),
    };
    if retained > limits.max_codec_parameter_bytes {
        return Err(
            DemuxError::ParametersTooLarge(
                ParametersTooLarge::new(index, retained, limits.max_codec_parameter_bytes),
            ),
        );
    }
    let parameters = spend.parameters.saturating_add(retained);
    if parameters > limits.max_total_codec_parameter_bytes {
        return Err(
            DemuxError::ParametersBudgetExhausted(
                ParametersBudgetExhausted::new(
                    index,
                    parameters,
                    limits.max_total_codec_parameter_bytes,
                ),
            ),
        );
    }
    let keys = retained_stream_metadata();
    let mut metadata = spend.metadata;
    let mut k: usize = 0;
    while k < 3
        invariant
            k <= 3,
            forall|j: int| 0 <= j < 3 ==> spec_priceable(#[trigger] rec.metadata@[j]),
            keys@[0]@ == "filename"@,
            keys@[1]@ == "mimetype"@,
            keys@[2]@ == "language"@,
            (k == 0 ==> metadata == spend.metadata),
            (k == 1 ==> spec_charge(rec.metadata@[0], spend.metadata, limits.max_total_stream_metadata_bytes)
                == Ok::<usize, MetadataFault>(metadata)),
            (k == 2 ==> (spec_charge(rec.metadata@[0], spend.metadata, limits.max_total_stream_metadata_bytes) matches Ok(
                s0,
            ) && spec_charge(rec.metadata@[1], s0, limits.max_total_stream_metadata_bytes)
                == Ok::<usize, MetadataFault>(metadata))),
            (k == 3 ==> spec_charge_stream_metadata(
                rec.metadata@,
                spend.metadata,
                limits.max_total_stream_metadata_bytes,
            ) == Ok::<usize, (usize, MetadataFault)>(metadata)),
        decreases 3 - k,
    {
        let value = rec.metadata[k];
        match charge_metadata(value, &mut metadata, limits.max_total_stream_metadata_bytes) {
            Ok(_) => {},
            Err(fault) => {
                let e = stream_metadata_error(
                    index,
                    keys[k],
                    fault,
                    limits.max_total_stream_metadata_bytes,
                );
                return Err(e);
            },
        }
        k = k + 1;
    }
    let declared = if cover_art {
        match rec.attached_pic.structure {
            Some(fault) => return Err(DemuxError::PacketBuffer(PacketBuffer::new(index, fault))),
            None => {},
        }
        match rec.attached_pic.flags {
            Err(fault) => return Err(DemuxError::PacketBuffer(PacketBuffer::new(index, fault))),
            Ok(_) => {},
        }
        if rec.attached_pic.size < 0 {
            0usize
        } else {
            rec.attached_pic.size as usize
        }
    } else if synthesized {
        footprint.extradata_payload
    } else {
        spend.parameters = parameters;
        spend.metadata = metadata;
        return Ok(());
    };
    let mut attachments = spend.attachments;
    match charge_attachment(index, declared, limits, &mut attachments) {
        Ok(()) => {},
        Err(e) => return Err(e),
    }
    spend.attachments = attachments;
    spend.parameters = parameters;
    spend.metadata = metadata;
    Ok(())
}

/// **Admits every stream before anything is allocated**, or names the
/// first stream that refuses the open and why.
pub fn admit_streams(records: &[StreamRecord], limits: DemuxLimits) -> (r: Result<(), DemuxError>)
    requires
        spec_records_priceable(records@),
    ensures
        match spec_admit_from(records@, 0, nothing_spent(), limits) {
            Ok(_) => r is Ok,
            Err((index, refusal)) => r matches Err(e) && spec_refusal_error(index, refusal, limits, e),
        },
{
    let mut spend = AdmissionSpend { attachments: 0, parameters: 0, metadata: 0 };
    let mut i: usize = 0;
    while i < records.len()
        invariant
            i <= records@.len(),
            spec_records_priceable(records@),
            spec_admit_from(records@, i as int, spend, limits) == spec_admit_from(
                records@,
                0,
                nothing_spent(),
                limits,
            ),
        decreases records@.len() - i,
    {
        let rec = &records[i];
        proof {
            assert forall|k: int| 0 <= k < 3 implies spec_priceable(#[trigger] rec.metadata@[k]) by {
                assert(spec_priceable(records@[i as int].metadata@[k]));
            }
        }
        match admit_stream(rec, i, limits, &mut spend) {
            Ok(()) => {},
            Err(e) => return Err(e),
        }
        i = i + 1;
    }
    Ok(())
}

} // verus!
