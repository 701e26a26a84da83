use mediadecode_ffmpeg::admission::{
    admit_streams, charge_attachment, is_attachment_disposition, layout_defect_to_demux,
    probe_options, AttachedPicture, DemuxLimits, LayoutDefect, MediaKind, ParameterFootprint,
    StreamRecord, AV_DISPOSITION_ATTACHED_PIC, AV_DISPOSITION_TIMED_THUMBNAILS,
};
use mediadecode_ffmpeg::demux_error::{ChannelLayoutFault, DemuxError, PacketBufferError};
use mediadecode_ffmpeg::metadata::MetadataValue;
use mediadecode_ffmpeg::timebase::Rational;
use mediadecode_ffmpeg::tracks::AV_NOPTS_VALUE;

fn limits() -> DemuxLimits {
    DemuxLimits {
        max_probe_bytes: 1 << 20,
        max_streams: 64,
        max_chapters: 16,
        max_total_chapter_title_bytes: 1024,
        max_total_stream_metadata_bytes: 1024,
        max_attachment_bytes: 1000,
        max_total_attachment_bytes: 1500,
        max_codec_parameter_bytes: 500,
        max_total_codec_parameter_bytes: 800,
        max_packet_bytes: 1 << 20,
    }
}

fn stream(medium: MediaKind, parameter_bytes: usize) -> StreamRecord<'static> {
    StreamRecord {
        has_parameters: true,
        time_base: Rational::new(1, 90_000),
        layout_defect: None,
        footprint: Some(ParameterFootprint {
            total: Some(parameter_bytes),
            without_extradata: Some(parameter_bytes),
            extradata_payload: 0,
        }),
        disposition: 0,
        medium,
        metadata: [MetadataValue::Absent, MetadataValue::Absent, MetadataValue::Absent],
        attached_pic: AttachedPicture { size: 0, structure: None, flags: Ok(0), payload: None },
        codec_id: 27,
        duration: AV_NOPTS_VALUE,
        start_time: AV_NOPTS_VALUE,
        frames: 0,
        width: 1920,
        height: 1080,
        format: 0,
        sample_rate: 0,
        avg_frame_rate: Rational::new(25, 1),
        channels: Ok(2),
        ticket: None,
        extradata: &[],
    }
}

fn font(payload: &'static [u8], parameter_bytes_without: usize) -> StreamRecord<'static> {
    let mut s = stream(MediaKind::Attachment, parameter_bytes_without + payload.len());
    s.footprint = Some(ParameterFootprint {
        total: Some(parameter_bytes_without + payload.len()),
        without_extradata: Some(parameter_bytes_without),
        extradata_payload: payload.len(),
    });
    s.extradata = payload;
    s
}

#[test]
fn a_timed_thumbnail_stream_is_not_an_attachment() {
    assert!(is_attachment_disposition(AV_DISPOSITION_ATTACHED_PIC));
    assert!(!is_attachment_disposition(
        AV_DISPOSITION_ATTACHED_PIC | AV_DISPOSITION_TIMED_THUMBNAILS
    ));
    assert!(!is_attachment_disposition(0));
    assert!(!is_attachment_disposition(AV_DISPOSITION_TIMED_THUMBNAILS));
    // AV_DISPOSITION_DEFAULT rides along without changing anything.
    assert!(is_attachment_disposition(AV_DISPOSITION_ATTACHED_PIC | 0x1));
}

#[test]
fn the_probe_options_carry_the_probe_budget_and_the_stream_ceiling() {
    let options = probe_options(limits());
    assert_eq!(
        options,
        [("probesize", 1 << 20), ("formatprobesize", 1 << 20), ("max_streams", 64)],
    );
}

#[test]
fn the_per_attachment_ceiling_is_judged_before_the_aggregate() {
    let mut spent = 1400usize;
    match charge_attachment(4, 1200, limits(), &mut spent) {
        Err(DemuxError::AttachmentTooLarge(p)) => {
            assert_eq!((p.stream_index(), p.bytes(), p.limit()), (4, 1200, 1000));
        }
        other => panic!("the single payload over its own line is the more specific fact: {other:?}"),
    }
    assert_eq!(spent, 1400, "a refusal does not advance the budget");
    match charge_attachment(4, 200, limits(), &mut spent) {
        Err(DemuxError::AttachmentBudgetExhausted(p)) => {
            assert_eq!((p.stream_index(), p.total(), p.limit()), (4, 1600, 1500));
        }
        other => panic!("{other:?}"),
    }
    assert_eq!(spent, 1400);
    charge_attachment(4, 100, limits(), &mut spent).expect("fits");
    assert_eq!(spent, 1500);
    let mut full = usize::MAX - 1;
    let mut wide = limits();
    wide.max_attachment_bytes = usize::MAX;
    wide.max_total_attachment_bytes = usize::MAX;
    charge_attachment(0, 10, wide, &mut full).expect("saturates at the type's ceiling, which fits");
    assert_eq!(full, usize::MAX);
}

#[test]
fn an_ordinary_file_is_admitted() {
    let streams = [stream(MediaKind::Video, 300), stream(MediaKind::Audio, 300)];
    assert!(admit_streams(&streams, limits()).is_ok());
}

#[test]
fn a_stream_without_parameters_is_refused_at_the_door() {
    let mut s = stream(MediaKind::Video, 10);
    s.has_parameters = false;
    let streams = [stream(MediaKind::Video, 10), s];
    match admit_streams(&streams, limits()) {
        Err(DemuxError::ParametersMissing(p)) => assert_eq!(p.stream_index(), 1),
        other => panic!("{other:?}"),
    }
}

#[test]
fn structure_is_judged_before_budget() {
    // The last stream is both malformed and over budget: the ruler names it.
    let mut bad = stream(MediaKind::Video, 10_000);
    bad.time_base = Rational::new(-1, 1000);
    let streams = [stream(MediaKind::Video, 300), bad];
    match admit_streams(&streams, limits()) {
        Err(DemuxError::TrackTimebaseInvalid(p)) => {
            assert_eq!((p.stream_index(), p.num(), p.den()), (1, -1, 1000));
        }
        other => panic!("{other:?}"),
    }
}

#[test]
fn a_layout_defect_is_named_for_its_stream() {
    let mut s = stream(MediaKind::Audio, 10);
    s.layout_defect = Some(LayoutDefect::Opaque { channel: Some(3) });
    match admit_streams(&[s], limits()) {
        Err(DemuxError::ParametersOpaque(p)) => {
            assert_eq!((p.stream_index(), p.channel()), (0, Some(3)));
        }
        other => panic!("{other:?}"),
    }
    match layout_defect_to_demux(2, LayoutDefect::Fault(ChannelLayoutFault::MalformedCustomMap { channels: 0 })) {
        DemuxError::ParametersChannelMap(p) => assert_eq!((p.stream_index(), p.channels()), (2, 0)),
        other => panic!("{other:?}"),
    }
}

#[test]
fn parameters_are_judged_per_stream_then_for_the_whole_file() {
    match admit_streams(&[stream(MediaKind::Video, 501)], limits()) {
        Err(DemuxError::ParametersTooLarge(p)) => {
            assert_eq!((p.stream_index(), p.bytes(), p.limit()), (0, 501, 500));
        }
        other => panic!("{other:?}"),
    }
    let streams = [stream(MediaKind::Video, 500), stream(MediaKind::Audio, 301)];
    match admit_streams(&streams, limits()) {
        Err(DemuxError::ParametersBudgetExhausted(p)) => {
            assert_eq!((p.stream_index(), p.total(), p.limit()), (1, 801, 800));
        }
        other => panic!("{other:?}"),
    }
    let mut unmeasurable = stream(MediaKind::Video, 0);
    unmeasurable.footprint = None;
    match admit_streams(&[unmeasurable], limits()) {
        Err(DemuxError::ParametersTooLarge(p)) => assert_eq!(p.bytes(), usize::MAX),
        other => panic!("{other:?}"),
    }
}

#[test]
fn a_font_is_charged_once_to_the_attachment_budget() {
    static PAYLOAD: [u8; 900] = [7u8; 900];
    // 900 bytes of extradata: with it the parameters would be over their
    // own ceiling, but the copy leaves it to the carrier.
    let streams = [font(&PAYLOAD, 100)];
    assert!(admit_streams(&streams, limits()).is_ok());
    // Two of them go over the whole-file attachment budget.
    let streams = [font(&PAYLOAD, 100), font(&PAYLOAD, 100)];
    match admit_streams(&streams, limits()) {
        Err(DemuxError::AttachmentBudgetExhausted(p)) => {
            assert_eq!((p.stream_index(), p.total(), p.limit()), (1, 1800, 1500));
        }
        other => panic!("{other:?}"),
    }
}

#[test]
fn cover_art_is_judged_on_its_parked_packet() {
    let mut cover = stream(MediaKind::Video, 100);
    cover.disposition = AV_DISPOSITION_ATTACHED_PIC;
    cover.attached_pic = AttachedPicture { size: 1001, structure: None, flags: Ok(1), payload: None };
    match admit_streams(&[cover], limits()) {
        Err(DemuxError::AttachmentTooLarge(p)) => assert_eq!((p.bytes(), p.limit()), (1001, 1000)),
        other => panic!("{other:?}"),
    }
    cover.attached_pic.structure = Some(PacketBufferError::Shared);
    match admit_streams(&[cover], limits()) {
        Err(DemuxError::PacketBuffer(p)) => {
            assert_eq!((p.stream_index(), p.source()), (0, PacketBufferError::Shared));
        }
        other => panic!("{other:?}"),
    }
    cover.attached_pic.structure = None;
    cover.attached_pic.flags = Err(PacketBufferError::UnportableFlags);
    assert!(matches!(
        admit_streams(&[cover], limits()),
        Err(DemuxError::PacketBuffer(p)) if p.source() == PacketBufferError::UnportableFlags
    ));
    // A negative declared size is charged as nothing.
    cover.attached_pic.flags = Ok(1);
    cover.attached_pic.size = -5;
    assert!(admit_streams(&[cover], limits()).is_ok());
}

#[test]
fn stream_metadata_is_charged_across_the_whole_file() {
    let mut a = stream(MediaKind::Video, 10);
    a.metadata[0] = MetadataValue::Present(&[b'a'; 600]);
    let mut b = stream(MediaKind::Audio, 10);
    b.metadata[2] = MetadataValue::Present(&[b'b'; 500]);
    match admit_streams(&[a, b], limits()) {
        Err(DemuxError::TrackMetadataBudgetExhausted(p)) => {
            assert_eq!((p.stream_index(), p.key(), p.bytes(), p.limit()), (1, "language", 1100, 1024));
        }
        other => panic!("{other:?}"),
    }
    let mut c = stream(MediaKind::Video, 10);
    c.metadata[1] = MetadataValue::NotTerminated;
    match admit_streams(&[c], limits()) {
        Err(DemuxError::TrackMetadataTooLong(p)) => assert_eq!((p.stream_index(), p.key()), (0, "mimetype")),
        other => panic!("{other:?}"),
    }
}
