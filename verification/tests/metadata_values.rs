use mediadecode_ffmpeg::demux_error::DemuxError;
use mediadecode_ffmpeg::metadata::{
    chapter_title_error, charge_metadata, metadata_value, retain_metadata,
    retained_stream_metadata, stream_metadata_error, MetadataFault, MetadataValue,
    METADATA_VALUE_MAX_BYTES,
};

#[test]
fn a_refused_metadata_value_is_never_materialised() {
    let long = vec![b'x'; 4096];
    let mut spent = 0usize;
    match retain_metadata(MetadataValue::Present(&long), &mut spent, 0) {
        Err(MetadataFault::BudgetExhausted(total)) => assert_eq!(total, 4096),
        _ => panic!("a zero budget must refuse a 4096-byte value"),
    }
    assert_eq!(spent, 0, "a refused value does not advance the budget");

    let mut spent = 0usize;
    let text = retain_metadata(MetadataValue::Present(&long), &mut spent, 8192)
        .expect("admitted")
        .expect("present");
    assert_eq!(text.len(), 4096);
    assert_eq!(spent, 4096);

    let mut spent = 0usize;
    assert!(retain_metadata(MetadataValue::Absent, &mut spent, 0)
        .expect("absent is not a fault")
        .is_none());
    assert!(matches!(
        retain_metadata(MetadataValue::NotTerminated, &mut spent, usize::MAX),
        Err(MetadataFault::TooLong),
    ));
    assert_eq!(spent, 0);
}

#[test]
fn the_unterminated_case_is_distinct_from_the_absent_one() {
    let mut spent = 0usize;
    assert!(matches!(
        retain_metadata(MetadataValue::NotTerminated, &mut spent, usize::MAX),
        Err(MetadataFault::TooLong),
    ));
    assert!(matches!(
        retain_metadata(MetadataValue::Absent, &mut spent, usize::MAX),
        Ok(None),
    ));
}

#[test]
fn metadata_that_is_not_utf8_is_read_lossily_not_unsoundly() {
    let raw: &[u8] = b"caf\xe9 \xff\xfe name\0";
    let value = metadata_value(Some(raw));
    let bytes = match value {
        MetadataValue::Present(b) => b,
        other => panic!("expected a present value, got {other:?}"),
    };
    assert_eq!(bytes, b"caf\xe9 \xff\xfe name");
    let mut spent = 0usize;
    let text = retain_metadata(value, &mut spent, usize::MAX)
        .expect("admitted")
        .expect("present");
    assert_eq!(text, std::string::String::from_utf8_lossy(bytes));
    assert!(text.contains('\u{fffd}'));
}

#[test]
fn valid_metadata_survives_unchanged() {
    let raw = "Ünïcödé title ✓\0".as_bytes();
    let value = metadata_value(Some(raw));
    let mut spent = 0usize;
    let text = retain_metadata(value, &mut spent, usize::MAX)
        .expect("admitted")
        .expect("present");
    assert_eq!(text, "Ünïcödé title ✓");
    assert_eq!(spent, "Ünïcödé title ✓".len());
}

#[test]
fn an_unterminated_length_is_refused_rather_than_truncated() {
    let exact = vec![b'a'; METADATA_VALUE_MAX_BYTES];
    assert!(matches!(metadata_value(Some(&exact)), MetadataValue::NotTerminated));
    let mut longer = vec![b'a'; METADATA_VALUE_MAX_BYTES];
    longer.push(0);
    assert!(matches!(metadata_value(Some(&longer)), MetadataValue::NotTerminated));
    let mut fits = vec![b'a'; METADATA_VALUE_MAX_BYTES - 1];
    fits.push(0);
    match metadata_value(Some(&fits)) {
        MetadataValue::Present(b) => assert_eq!(b.len(), METADATA_VALUE_MAX_BYTES - 1),
        other => panic!("one byte under the cap must be present, got {other:?}"),
    }
}

#[test]
fn an_absent_entry_and_an_empty_value_are_told_apart() {
    assert!(matches!(metadata_value(None), MetadataValue::Absent));
    match metadata_value(Some(b"\0trailing")) {
        MetadataValue::Present(b) => assert!(b.is_empty()),
        other => panic!("an empty value is present, got {other:?}"),
    }
}

#[test]
fn charging_is_cumulative_and_stops_at_the_budget() {
    let mut spent = 0usize;
    let first = charge_metadata(MetadataValue::Present(b"abcd"), &mut spent, 6).expect("fits");
    assert_eq!(first.map(|(_, d)| d), Some(4));
    assert_eq!(spent, 4);
    assert!(matches!(
        charge_metadata(MetadataValue::Present(b"xyz"), &mut spent, 6),
        Err(MetadataFault::BudgetExhausted(7)),
    ));
    assert_eq!(spent, 4);
    // An invalid byte is charged at its decoded size.
    let mut spent = 0usize;
    assert!(matches!(
        charge_metadata(MetadataValue::Present(b"\xff"), &mut spent, 2),
        Err(MetadataFault::BudgetExhausted(3)),
    ));
}

#[test]
fn the_retained_keys_are_filename_mimetype_language() {
    assert_eq!(retained_stream_metadata(), ["filename", "mimetype", "language"]);
}

#[test]
fn each_metadata_fault_is_named_for_its_seat() {
    match chapter_title_error(3, MetadataFault::TooLong, 100) {
        DemuxError::ChapterTitleTooLong(p) => {
            assert_eq!((p.index(), p.limit()), (3, METADATA_VALUE_MAX_BYTES));
        }
        other => panic!("{other:?}"),
    }
    match chapter_title_error(3, MetadataFault::BudgetExhausted(120), 100) {
        DemuxError::ChapterTitleBudgetExhausted(p) => {
            assert_eq!((p.index(), p.bytes(), p.limit()), (3, 120, 100));
        }
        other => panic!("{other:?}"),
    }
    match chapter_title_error(3, MetadataFault::Alloc(42), 100) {
        DemuxError::ChapterTitleAlloc(p) => assert_eq!((p.index(), p.bytes()), (3, 42)),
        other => panic!("{other:?}"),
    }
    match stream_metadata_error(5, "language", MetadataFault::TooLong, 9) {
        DemuxError::TrackMetadataTooLong(p) => {
            assert_eq!((p.stream_index(), p.key(), p.limit()), (5, "language", METADATA_VALUE_MAX_BYTES));
        }
        other => panic!("{other:?}"),
    }
    match stream_metadata_error(5, "filename", MetadataFault::BudgetExhausted(11), 9) {
        DemuxError::TrackMetadataBudgetExhausted(p) => {
            assert_eq!((p.stream_index(), p.key(), p.bytes(), p.limit()), (5, "filename", 11, 9));
        }
        other => panic!("{other:?}"),
    }
    match stream_metadata_error(5, "mimetype", MetadataFault::Alloc(7), 9) {
        DemuxError::TrackMetadataAlloc(p) => {
            assert_eq!((p.stream_index(), p.key(), p.bytes()), (5, "mimetype", 7));
        }
        other => panic!("{other:?}"),
    }
}

#[test]
fn an_empty_value_is_retained_as_empty_text() {
    let mut spent = 5usize;
    let text = retain_metadata(MetadataValue::Present(b""), &mut spent, 5).expect("admitted");
    assert_eq!(text.as_deref(), Some(""));
    assert_eq!(spent, 5);
}
