use mediadecode_ffmpeg::admission::{
    AttachedPicture, DemuxLimits, MediaKind, ParameterFootprint, StreamRecord, TicketFault,
    AV_DISPOSITION_ATTACHED_PIC,
};
use mediadecode_ffmpeg::averror::AvError;
use mediadecode_ffmpeg::demux_error::{ChannelLayoutFault, DemuxError};
use mediadecode_ffmpeg::metadata::MetadataValue;
use mediadecode_ffmpeg::timebase::Rational;
use mediadecode_ffmpeg::tracks::{build_tracks, TrackParams, AV_NOPTS_VALUE};

fn limits() -> DemuxLimits {
    DemuxLimits {
        max_probe_bytes: 1 << 20,
        max_streams: 64,
        max_chapters: 16,
        max_total_chapter_title_bytes: 1024,
        max_total_stream_metadata_bytes: 1024,
        max_attachment_bytes: 1000,
        max_total_attachment_bytes: 1500,
        max_codec_parameter_bytes: 500,
        max_total_codec_parameter_bytes: 800,
        max_packet_bytes: 1 << 20,
    }
}

fn stream(medium: MediaKind) -> StreamRecord<'static> {
    StreamRecord {
        has_parameters: true,
        time_base: Rational::new(1, 90_000),
        layout_defect: None,
        footprint: Some(ParameterFootprint { total: Some(10), without_extradata: Some(10), extradata_payload: 0 }),
        disposition: 0,
        medium,
        metadata: [MetadataValue::Absent, MetadataValue::Absent, MetadataValue::Absent],
        attached_pic: AttachedPicture { size: 0, structure: None, flags: Ok(0), payload: None },
        codec_id: 27,
        duration: AV_NOPTS_VALUE,
        start_time: AV_NOPTS_VALUE,
        frames: 0,
        width: 1920,
        height: -1,
        format: 23,
        sample_rate: 48_000,
        avg_frame_rate: Rational::new(30_000, 1001),
        channels: Ok(300),
        ticket: None,
        extradata: &[],
    }
}

#[test]
fn an_uncapturable_cover_still_gets_its_one_packet() {
    let mut streams = vec![stream(MediaKind::Video); 8];
    streams[7].disposition = AV_DISPOSITION_ATTACHED_PIC;
    let built = build_tracks(&streams, limits())
        .expect("an unparked cover is a degenerate track, not an unreadable file");
    assert_eq!(built.pending.len(), 1);
    let packet = &built.pending[0];
    assert!(packet.payload.is_empty());
    assert!(packet.synthesized, "nothing in the container handed this payload over");
    assert_eq!(packet.track, 7);
    assert!(matches!(built.tracks[7].params, TrackParams::Attachment { codec_id: 27 }));
}

#[test]
fn rows_are_what_each_stream_declares() {
    let mut video = stream(MediaKind::Video);
    video.duration = 900_000;
    video.start_time = 0;
    video.frames = 250;
    video.metadata[2] = MetadataValue::Present(b"eng");
    let mut audio = stream(MediaKind::Audio);
    audio.duration = 0;
    audio.sample_rate = -1;
    let streams = [video, audio, stream(MediaKind::Subtitle), stream(MediaKind::Unknown)];
    let built = build_tracks(&streams, limits()).expect("built");
    assert_eq!(built.tracks.len(), 4);
    assert!(built.pending.is_empty());

    let v = &built.tracks[0];
    assert_eq!(v.stream_index, 0);
    assert_eq!((v.time_base.num(), v.time_base.den()), (1, 90_000));
    match v.params {
        TrackParams::Video { codec_id, width, height, pixel_format, frame_rate } => {
            assert_eq!((codec_id, width, height, pixel_format), (27, 1920, 0, 23));
            let rate = frame_rate.expect("declared");
            assert_eq!((rate.num(), rate.den()), (30_000, 1001));
        }
        other => panic!("{other:?}"),
    }
    assert_eq!(v.duration.map(|d| d.pts), Some(900_000));
    assert_eq!(v.start_time, Some(0));
    assert_eq!(v.frame_count, Some(250));
    assert_eq!(v.language.as_deref(), Some("eng"));
    assert!(v.filename.is_none() && v.mime_type.is_none());

    let a = &built.tracks[1];
    match a.params {
        TrackParams::Audio { sample_rate, channels, sample_format, .. } => {
            assert_eq!((sample_rate, channels, sample_format), (0, 255, 23));
        }
        other => panic!("{other:?}"),
    }
    assert!(a.duration.is_none(), "a zero duration is not a declared one");
    assert!(a.start_time.is_none() && a.frame_count.is_none());
    assert!(matches!(built.tracks[2].params, TrackParams::Subtitle { .. }));
    assert!(matches!(built.tracks[3].params, TrackParams::Unknown { .. }));
}

#[test]
fn a_font_is_queued_once_with_its_extradata() {
    static FONT: [u8; 4] = [1, 2, 3, 4];
    let mut f = stream(MediaKind::Attachment);
    f.extradata = &FONT;
    f.footprint = Some(ParameterFootprint { total: Some(14), without_extradata: Some(10), extradata_payload: 4 });
    let mut cover = stream(MediaKind::Video);
    cover.disposition = AV_DISPOSITION_ATTACHED_PIC;
    static JPEG: [u8; 3] = [0xff, 0xd8, 0xff];
    cover.attached_pic = AttachedPicture { size: 3, structure: None, flags: Ok(1), payload: Some(&JPEG) };
    let streams = [stream(MediaKind::Video), f, cover];
    let built = build_tracks(&streams, limits()).expect("built");
    assert_eq!(built.pending.len(), 2);
    assert_eq!(built.pending[0].track, 1);
    assert_eq!(built.pending[0].payload, FONT);
    assert!(built.pending[0].synthesized);
    assert_eq!(built.pending[1].track, 2);
    assert_eq!(built.pending[1].payload, JPEG);
    assert_eq!(built.pending[1].flags, 1);
    assert!(!built.pending[1].synthesized);
}

#[test]
fn a_refusal_admission_makes_comes_before_anything_is_built() {
    let mut last = stream(MediaKind::Video);
    last.time_base = Rational::new(1, 0);
    let streams = [stream(MediaKind::Video), last];
    match build_tracks(&streams, limits()) {
        Err(DemuxError::TrackTimebaseInvalid(p)) => assert_eq!((p.stream_index(), p.num(), p.den()), (1, 1, 0)),
        other => panic!("{other:?}"),
    }
}

#[test]
fn what_only_the_build_can_see_is_named_for_its_stream() {
    let mut audio = stream(MediaKind::Audio);
    audio.channels = Err(ChannelLayoutFault::MalformedLayout { order: 9, channels: 2 });
    match build_tracks(&[stream(MediaKind::Video), audio], limits()) {
        Err(DemuxError::ParametersLayoutShape(p)) => {
            assert_eq!((p.stream_index(), p.order(), p.channels()), (1, 9, 2));
        }
        other => panic!("{other:?}"),
    }
    let mut copy = stream(MediaKind::Video);
    copy.ticket = Some(TicketFault::Copy(AvError::InvalidData));
    match build_tracks(&[copy], limits()) {
        Err(DemuxError::ParametersCopy(p)) => {
            assert_eq!((p.stream_index(), p.source()), (0, AvError::InvalidData));
        }
        other => panic!("{other:?}"),
    }
    let mut alloc = stream(MediaKind::Video);
    alloc.ticket = Some(TicketFault::Alloc);
    assert!(matches!(build_tracks(&[alloc], limits()), Err(DemuxError::ParametersAlloc(p)) if p.stream_index() == 0));
}

#[test]
fn an_attachment_with_no_extradata_still_gets_its_one_empty_packet() {
    let built = build_tracks(&[stream(MediaKind::Attachment)], limits()).expect("built");
    assert_eq!(built.pending.len(), 1);
    assert!(built.pending[0].payload.is_empty());
    assert!(built.pending[0].synthesized);
}

#[test]
fn an_undescribable_audio_layout_is_reported_before_any_metadata_is_built() {
    let mut audio = stream(MediaKind::Audio);
    audio.channels = Err(ChannelLayoutFault::MalformedCustomMap { channels: 0 });
    audio.metadata[0] = MetadataValue::Present(b"a.flac");
    audio.ticket = Some(TicketFault::Alloc);
    match build_tracks(&[audio], limits()) {
        Err(DemuxError::ParametersChannelMap(p)) => assert_eq!((p.stream_index(), p.channels()), (0, 0)),
        other => panic!("{other:?}"),
    }
}

#[test]
fn the_first_refused_row_is_the_one_reported() {
    let video = stream(MediaKind::Video);
    let mut copy_failed = stream(MediaKind::Video);
    copy_failed.ticket = Some(TicketFault::Copy(AvError::InvalidData));
    let mut audio = stream(MediaKind::Audio);
    audio.channels = Err(ChannelLayoutFault::MalformedCustomMap { channels: 0 });
    match build_tracks(&[video, copy_failed, audio], limits()) {
        Err(DemuxError::ParametersCopy(p)) => assert_eq!(p.stream_index(), 1),
        other => panic!("{other:?}"),
    }
}
