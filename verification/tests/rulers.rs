use mediadecode_ffmpeg::demux_error::DemuxError;
use mediadecode_ffmpeg::timebase::{
    av_time_base_q, positive_rational_to_timebase, rate_to_timebase, rational_to_timebase,
    stream_timebase, Rational, Timebase,
};

#[test]
fn a_malformed_rational_is_refused_rather_than_clamped() {
    for (num, den) in [(1, 0), (1, -1000), (-1, 1000), (-1, -1000)] {
        assert_eq!(
            rational_to_timebase(Rational::new(num, den)),
            None,
            "{num}/{den} is not a timebase",
        );
    }
}

#[test]
fn a_stream_ruler_is_refused_by_one_rule_that_names_what_was_declared() {
    for (num, den) in [(1, 0), (1, -1000), (-1, 1000), (-1, -1000)] {
        match stream_timebase(7, Rational::new(num, den)) {
            Err(DemuxError::TrackTimebaseInvalid(fault)) => {
                assert_eq!(fault.stream_index(), 7, "the refusal names the stream");
                assert_eq!((fault.num(), fault.den()), (num, den));
            }
            Err(other) => panic!("{num}/{den} must be a timebase fault, got {other:?}"),
            Ok(_) => panic!("{num}/{den} must be refused, and it was admitted"),
        }
    }
    assert_eq!(
        stream_timebase(0, Rational::new(1, 90_000)).map(|tb| (tb.num(), tb.den())).ok(),
        Some((1, 90_000)),
    );
    assert_eq!(
        stream_timebase(0, Rational::new(0, 1)).map(|tb| (tb.num(), tb.den())).ok(),
        Some((0, 1)),
    );
}

#[test]
fn a_zero_numerator_is_absent_for_a_track_and_malformed_for_a_chapter() {
    let zero = Rational::new(0, 1);
    assert_eq!(
        rational_to_timebase(zero).map(|tb| (tb.num(), tb.den())),
        Some((0, 1)),
    );
    assert_eq!(positive_rational_to_timebase(zero), None);
}

#[test]
fn a_declared_frame_rate_becomes_a_rate_shaped_timebase() {
    let ntsc = rate_to_timebase(Rational::new(30_000, 1001)).expect("declared");
    assert_eq!((ntsc.num(), ntsc.den()), (30_000, 1001));
    assert_eq!(rate_to_timebase(Rational::new(0, 1)), None, "0 fps is absent");
    assert_eq!(rate_to_timebase(Rational::new(30, 0)), None, "no denominator");
}

#[test]
fn the_seek_timebase_is_microseconds() {
    let tb = av_time_base_q();
    assert_eq!((tb.num(), tb.den()), (1, 1_000_000));
}

#[test]
fn a_timebase_is_built_only_from_a_well_formed_pair() {
    assert!(Timebase::try_new(0, 1).is_some());
    assert!(Timebase::try_new(1, 0).is_none());
    assert!(Timebase::try_new(-1, 1).is_none());
    let tb = Timebase::try_new(1001, 30_000).expect("well formed");
    assert_eq!((tb.num(), tb.den()), (1001, 30_000));
    let r = Rational::new(3, 4);
    assert_eq!((r.numerator(), r.denominator()), (3, 4));
}
