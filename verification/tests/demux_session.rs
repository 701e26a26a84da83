use mediadecode_ffmpeg::admission::{
    AttachedPicture, DemuxLimits, MediaKind, ParameterFootprint, StreamRecord,
    AV_DISPOSITION_ATTACHED_PIC,
};
use mediadecode_ffmpeg::averror::AvError;
use mediadecode_ffmpeg::chapters::ChapterRecord;
use mediadecode_ffmpeg::demux_error::{DemuxError, PacketBufferError, ReaderPanic};
use mediadecode_ffmpeg::metadata::MetadataValue;
use mediadecode_ffmpeg::session::{
    judge_packet_payload, reader_open_verdict, DemuxSession, PullStart, ReadVerdict, Route, Settled, TrackKind,
};
use mediadecode_ffmpeg::timebase::Rational;
use mediadecode_ffmpeg::tracks::AV_NOPTS_VALUE;

fn limits() -> DemuxLimits {
    DemuxLimits {
        max_probe_bytes: 1 << 20,
        max_streams: 64,
        max_chapters: 4,
        max_total_chapter_title_bytes: 64,
        max_total_stream_metadata_bytes: 1024,
        max_attachment_bytes: 1000,
        max_total_attachment_bytes: 1500,
        max_codec_parameter_bytes: 500,
        max_total_codec_parameter_bytes: 800,
        max_packet_bytes: 1 << 20,
    }
}

fn stream(medium: MediaKind) -> StreamRecord<'static> {
    StreamRecord {
        has_parameters: true,
        time_base: Rational::new(1, 1000),
        layout_defect: None,
        footprint: Some(ParameterFootprint { total: Some(10), without_extradata: Some(10), extradata_payload: 0 }),
        disposition: 0,
        medium,
        metadata: [MetadataValue::Absent, MetadataValue::Absent, MetadataValue::Absent],
        attached_pic: AttachedPicture { size: 0, structure: None, flags: Ok(0), payload: None },
        codec_id: 1,
        duration: AV_NOPTS_VALUE,
        start_time: AV_NOPTS_VALUE,
        frames: 0,
        width: 64,
        height: 64,
        format: 0,
        sample_rate: 44_100,
        avg_frame_rate: Rational::new(0, 1),
        channels: Ok(2),
        ticket: None,
        extradata: &[],
    }
}

fn session() -> DemuxSession<&'static str> {
    let mut cover = stream(MediaKind::Video);
    cover.disposition = AV_DISPOSITION_ATTACHED_PIC;
    let streams = [stream(MediaKind::Video), stream(MediaKind::Audio), cover];
    let chapters = [Some(ChapterRecord {
        id: 1,
        time_base: Rational::new(1, 1000),
        start: 0,
        end: 1000,
        title: MetadataValue::Present(b"One"),
    })];
    DemuxSession::from_input(&streams, &chapters, limits()).expect("opens")
}

#[test]
fn an_open_builds_both_tables_and_queues_every_attachment() {
    let s = session();
    assert_eq!(s.tracks().len(), 3);
    assert_eq!(s.chapters().len(), 1);
    assert_eq!(s.chapters()[0].title.as_deref(), Some("One"));
    assert_eq!(s.limits(), limits());
}

#[test]
fn chapters_are_judged_before_streams() {
    let mut bad = stream(MediaKind::Video);
    bad.time_base = Rational::new(1, 0);
    let chapters = [None, None, None, None, None];
    match DemuxSession::<()>::from_input(&[bad], &chapters, limits()) {
        Err(DemuxError::TooManyChapters(p)) => assert_eq!(p.declared(), 5),
        Err(other) => panic!("{other:?}"),
        Ok(_) => panic!("must be refused"),
    }
}

#[test]
fn attachments_leave_first_and_exactly_once() {
    let mut s = session();
    match s.pull_start(None) {
        PullStart::Deliver(p) => assert_eq!((p.track, p.synthesized), (2, true)),
        _ => panic!("the queued attachment must leave before any read"),
    }
    assert!(matches!(s.pull_start(None), PullStart::Read));
}

#[test]
fn a_reader_panic_is_terminal_even_with_attachments_queued() {
    let mut s = session();
    let panicked = DemuxError::ReaderPanic(ReaderPanic::new(String::from("boom")));
    match s.pull_start(Some(panicked)) {
        PullStart::Fail(DemuxError::ReaderPanic(p)) => assert_eq!(p.message(), "boom"),
        _ => panic!("a latched panic answers first"),
    }
    // The queue is untouched by the refusal.
    assert!(matches!(s.pull_start(None), PullStart::Deliver(_)));
}

#[test]
fn reads_are_classified() {
    let mut s = session();
    assert!(matches!(s.on_read(None, Ok(())), ReadVerdict::Route));
    assert!(matches!(s.on_read(None, Err(AvError::InvalidData)), ReadVerdict::ReadAgain));
    assert!(matches!(s.on_read(None, Err(AvError::Exit)), ReadVerdict::Fail(DemuxError::Ffmpeg(AvError::Exit))));
    assert!(matches!(s.on_read(None, Err(AvError::Eof)), ReadVerdict::Finished));
    // Seeking clears the session's own end latch first, and says so.
    assert!(s.seek_prepare());
    assert!(!s.seek_prepare());
}

#[test]
fn packets_are_routed_by_their_track() {
    let mut s = session();
    match s.route_packet(0) {
        Route::Convert { kind, time_base } => {
            assert_eq!(kind, TrackKind::Video);
            assert_eq!((time_base.num(), time_base.den()), (1, 1000));
        }
        other => panic!("{other:?}"),
    }
    assert!(matches!(s.route_packet(1), Route::Convert { kind: TrackKind::Audio, .. }));
    assert_eq!(s.route_packet(2), Route::Skip { report: false }, "an attachment's duplicate is dropped");
    assert_eq!(s.route_packet(9), Route::Skip { report: true }, "reported the first time");
    assert_eq!(s.route_packet(9), Route::Skip { report: false }, "and never again");
}

#[test]
fn only_an_allocation_refusal_parks_the_packet_and_a_seek_that_happened_drops_it() {
    let mut s = session();
    let _ = s.pull_start(None);
    match s.settle_conversion(0, "pkt-a", Err(PacketBufferError::OutOfBounds)) {
        Err(DemuxError::PacketBuffer(p)) => assert_eq!((p.stream_index(), p.source()), (0, PacketBufferError::OutOfBounds)),
        other => panic!("{other:?}"),
    }
    assert!(matches!(s.pull_start(None), PullStart::Read), "a malformed packet is not parked");

    assert!(s.settle_conversion(1, "pkt-b", Err(PacketBufferError::Alloc)).is_err());
    match s.pull_start(None) {
        PullStart::Retry(p) => assert_eq!(p, "pkt-b"),
        _ => panic!("the parked packet is re-attempted before another is read"),
    }
    assert!(s.settle_conversion(1, "pkt-c", Err(PacketBufferError::Alloc)).is_err());
    assert!(s.seek_settle(None, Err(AvError::Exit)).is_err());
    assert!(matches!(s.pull_start(None), PullStart::Retry("pkt-c")), "a failed seek keeps it");
    assert!(s.settle_conversion(1, "pkt-d", Err(PacketBufferError::Alloc)).is_err());
    assert!(s.seek_settle(None, Ok(())).is_ok());
    assert!(matches!(s.pull_start(None), PullStart::Read), "a seek that happened drops it");
    assert!(matches!(s.settle_conversion(0, "pkt-e", Ok(true)), Ok(Settled::Deliver)));
    assert!(matches!(s.settle_conversion(0, "pkt-f", Ok(false)), Ok(Settled::ReadNext)));
}

#[test]
fn an_open_over_a_reader_names_the_right_one_of_three_failures() {
    let panic = || DemuxError::ReaderPanic(ReaderPanic::new(String::from("p")));
    assert!(matches!(
        reader_open_verdict(Err(AvError::InvalidData), Some(panic()), Some((10, 5))),
        Err(DemuxError::ReaderPanic(_))
    ));
    match reader_open_verdict(Err(AvError::InvalidData), None, Some((10, 5))) {
        Err(DemuxError::ProbeBudgetExhausted(p)) => assert_eq!((p.read(), p.budget()), (10, 5)),
        other => panic!("{other:?}"),
    }
    assert!(matches!(
        reader_open_verdict(Err(AvError::InvalidData), None, None),
        Err(DemuxError::Ffmpeg(AvError::InvalidData))
    ));
    assert!(matches!(
        reader_open_verdict(Ok(()), Some(panic()), Some((10, 5))),
        Err(DemuxError::ProbeBudgetExhausted(_))
    ));
    assert!(matches!(reader_open_verdict(Ok(()), Some(panic()), None), Err(DemuxError::ReaderPanic(_))));
    assert!(reader_open_verdict(Ok(()), None, None).is_ok());
}

#[test]
fn an_empty_container_opens_to_empty_tables() {
    let s = DemuxSession::<()>::from_input(&[], &[], limits()).expect("nothing to refuse");
    assert!(s.tracks().is_empty() && s.chapters().is_empty());
}

#[test]
fn a_timed_payload_is_judged_structure_first_then_size_then_flags() {
    use_judge();
}

fn use_judge() {
    assert_eq!(judge_packet_payload(true, false, 10, 5, false), Err(PacketBufferError::Trusted));
    assert_eq!(judge_packet_payload(false, false, 10, 5, false), Err(PacketBufferError::OutOfBounds));
    assert_eq!(
        judge_packet_payload(false, true, 10, 5, false),
        Err(PacketBufferError::TooLarge { bytes: 10, limit: 5 }),
    );
    assert_eq!(judge_packet_payload(false, true, 5, 5, false), Err(PacketBufferError::UnportableFlags));
    assert_eq!(judge_packet_payload(false, true, 5, 5, true), Ok(()));
}
