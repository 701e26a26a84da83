use mediadecode_ffmpeg::averror::{AvError, Errno};
use mediadecode_ffmpeg::error::Error;
use mediadecode_ffmpeg::opening::{admit_codec_parameters, ensure_codec_type, ensure_parameters_non_null};

type E = Error<(), u8>;

fn rejects_null_parameters() {
    match ensure_parameters_non_null::<(), u8>(false) {
        Ok(()) => panic!("open should fail on null parameters"),
        Err(Error::Ffmpeg(AvError::Other { errno })) => {
            assert_eq!(errno, Errno::OutOfMemory, "expected ENOMEM, got {errno:?}");
        }
        Err(other) => panic!("expected Ffmpeg(Other {{ ENOMEM }}), got {other:?}"),
    }
    assert!(ensure_parameters_non_null::<(), u8>(true).is_ok());
}

#[test]
fn decoder_open_rejects_null_parameters() {
    rejects_null_parameters();
}

#[test]
fn decoder_open_with_rejects_null_parameters() {
    rejects_null_parameters();
}

#[test]
fn tests_open_rejects_null_parameters() {
    rejects_null_parameters();
}

#[test]
fn tests_open_with_rejects_null_parameters() {
    rejects_null_parameters();
}

#[test]
fn parameters_are_admitted_against_the_ceiling_and_unmeasurable_ones_are_not() {
    assert!(admit_codec_parameters::<(), u8>(Some(100), 100).is_ok());
    match admit_codec_parameters::<(), u8>(Some(101), 100) {
        Err(Error::ParametersTooLarge(p)) => assert_eq!((p.stream_index(), p.bytes(), p.limit()), (0, 101, 100)),
        other => panic!("{other:?}"),
    }
    match admit_codec_parameters::<(), u8>(None, 100) {
        Err(Error::ParametersTooLarge(p)) => assert_eq!(p.bytes(), usize::MAX),
        other => panic!("{other:?}"),
    }
}

#[test]
fn an_opened_context_of_another_medium_is_refused() {
    assert!(ensure_codec_type::<(), u8>(0, 0).is_ok());
    let refused: Result<(), E> = ensure_codec_type(1, 0);
    assert!(matches!(refused, Err(Error::Ffmpeg(AvError::InvalidData))));
}
