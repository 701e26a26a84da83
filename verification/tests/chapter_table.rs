use mediadecode_ffmpeg::admission::DemuxLimits;
use mediadecode_ffmpeg::chapters::{admit_chapters, build_chapters, ChapterRecord};
use mediadecode_ffmpeg::demux_error::DemuxError;
use mediadecode_ffmpeg::metadata::MetadataValue;
use mediadecode_ffmpeg::timebase::Rational;

fn limits() -> DemuxLimits {
    DemuxLimits {
        max_probe_bytes: 1 << 20,
        max_streams: 64,
        max_chapters: 3,
        max_total_chapter_title_bytes: 10,
        max_total_stream_metadata_bytes: 1024,
        max_attachment_bytes: 1000,
        max_total_attachment_bytes: 1500,
        max_codec_parameter_bytes: 500,
        max_total_codec_parameter_bytes: 800,
        max_packet_bytes: 1 << 20,
    }
}

fn chapter(id: i64, start: i64, end: i64, title: MetadataValue<'static>) -> Option<ChapterRecord<'static>> {
    Some(ChapterRecord { id, time_base: Rational::new(1, 1000), start, end, title })
}

#[test]
fn no_table_is_an_empty_table() {
    assert!(admit_chapters(&[], limits()).is_ok());
    assert!(build_chapters(&[], limits()).expect("nothing to build").is_empty());
}

#[test]
fn a_table_over_the_ceiling_is_refused_by_its_count() {
    let table = [None, None, None, None];
    match admit_chapters(&table, limits()) {
        Err(DemuxError::TooManyChapters(p)) => assert_eq!((p.declared(), p.limit()), (4, 3)),
        other => panic!("{other:?}"),
    }
    assert!(matches!(build_chapters(&table, limits()), Err(DemuxError::TooManyChapters(_))));
}

#[test]
fn a_chapter_ruler_must_be_positive() {
    let mut bad = chapter(9, 0, 10, MetadataValue::Absent);
    if let Some(c) = bad.as_mut() {
        c.time_base = Rational::new(0, 1);
    }
    let table = [chapter(1, 0, 5, MetadataValue::Absent), bad];
    match admit_chapters(&table, limits()) {
        Err(DemuxError::ChapterTimebaseInvalid(p)) => {
            assert_eq!((p.index(), p.id(), p.num(), p.den()), (1, 9, 0, 1));
        }
        other => panic!("{other:?}"),
    }
    match build_chapters(&table, limits()) {
        Err(DemuxError::ChapterTimebaseInvalid(p)) => assert_eq!(p.index(), 1),
        other => panic!("{other:?}"),
    }
}

#[test]
fn titles_are_charged_against_one_table_budget() {
    let table = [
        chapter(1, 0, 5, MetadataValue::Present(b"Opening")),
        chapter(2, 5, 9, MetadataValue::Present(b"End")),
        chapter(3, 9, 12, MetadataValue::Present(b"x")),
    ];
    match admit_chapters(&table, limits()) {
        Err(DemuxError::ChapterTitleBudgetExhausted(p)) => {
            assert_eq!((p.index(), p.bytes(), p.limit()), (2, 11, 10));
        }
        other => panic!("{other:?}"),
    }
    let table = [chapter(1, 0, 5, MetadataValue::NotTerminated)];
    assert!(matches!(admit_chapters(&table, limits()), Err(DemuxError::ChapterTitleTooLong(p)) if p.index() == 0));
}

#[test]
fn rows_mirror_what_was_declared_and_skip_null_entries() {
    let table = [
        chapter(10, 0, 5000, MetadataValue::Present(b"Intro")),
        None,
        chapter(11, 9000, 4000, MetadataValue::Absent),
    ];
    admit_chapters(&table, limits()).expect("admitted");
    let rows = build_chapters(&table, limits()).expect("built");
    assert_eq!(rows.len(), 2);
    assert_eq!(rows[0].id, 10);
    assert_eq!((rows[0].time_base.num(), rows[0].time_base.den()), (1, 1000));
    assert_eq!((rows[0].start.pts, rows[0].end.pts), (0, 5000));
    assert_eq!(rows[0].title.as_deref(), Some("Intro"));
    // An end before its start is mirrored as written, not repaired.
    assert_eq!((rows[1].id, rows[1].start.pts, rows[1].end.pts), (11, 9000, 4000));
    assert!(rows[1].title.is_none());
}

#[test]
fn a_refused_table_is_refused_before_anything_is_reserved() {
    let mut over = limits();
    over.max_chapters = 1;
    let table = [chapter(1, 0, 5, MetadataValue::Absent), chapter(2, 5, 9, MetadataValue::Absent)];
    assert!(matches!(build_chapters(&table, over), Err(DemuxError::TooManyChapters(p)) if p.declared() == 2));
}
