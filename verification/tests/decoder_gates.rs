use mediadecode_ffmpeg::averror::{is_eagain, is_hw_decode_failure, is_transient, AvError, Errno};
use mediadecode_ffmpeg::error::{Error, FrameBudgetExceeded, FrameMedium};
use mediadecode_ffmpeg::gates::{
    fallback_required, receive_status, send_status, verdict_routing, BareVerdict,
    DeclinationLatch, Received, Sent, SessionPhase, VerdictRouting,
};
use mediadecode_ffmpeg::probe::{DecoderSession, HwRoute};
use SessionPhase::{Auditioning, AuditioningPastEnd, Draining, Streaming};

type E = Error<Vec<u8>, u8>;

fn eagain() -> E {
    Error::Ffmpeg(AvError::Other { errno: Errno::Again })
}

fn eof() -> E {
    Error::Ffmpeg(AvError::Eof)
}

fn committed_decoder() -> (DecoderSession<Vec<u8>, u8>, DeclinationLatch) {
    (DecoderSession::committed(1u8), DeclinationLatch::new())
}

fn reported(route: HwRoute<Vec<u8>, u8>) -> E {
    match route {
        HwRoute::Report(err) => err,
        HwRoute::Advance(err) => {
            panic!("a committed decoder has no candidate to advance to, got Advance({err:?})")
        }
    }
}

#[test]
fn decoder_is_transient_recognises_eagain_and_eof() {
    let eagain = AvError::Other { errno: Errno::Again };
    assert!(is_transient(&eagain));
    assert!(is_transient(&AvError::Eof));
    assert!(!is_transient(&AvError::InvalidData));
}

#[test]
fn tests_is_transient_recognises_eagain_and_eof() {
    let eagain = AvError::Other { errno: Errno::Again };
    assert!(is_transient(&eagain));
    assert!(is_eagain(&eagain));
    assert!(!is_eagain(&AvError::Eof));
    assert!(is_transient(&AvError::Eof));
    assert!(!is_transient(&AvError::InvalidData));
}

#[test]
fn is_hw_decode_failure_covers_hw_failures_excludes_transient_and_eof() {
    assert!(is_hw_decode_failure(&AvError::External));
    assert!(is_hw_decode_failure(&AvError::Bug));
    assert!(is_hw_decode_failure(&AvError::Bug2));
    assert!(is_hw_decode_failure(&AvError::Unknown));
    assert!(is_hw_decode_failure(&AvError::InvalidData));
    assert!(is_hw_decode_failure(&AvError::Other { errno: Errno::InvalidArgument }));
    assert!(!is_hw_decode_failure(&AvError::Eof));
    assert!(!is_hw_decode_failure(&AvError::Other { errno: Errno::Again }));
    assert!(!is_hw_decode_failure(&AvError::Other { errno: Errno::OutOfMemory }));
}

#[test]
fn the_gates_read_every_errno_against_every_phase() {

    for phase in [Streaming, Auditioning] {
        assert_eq!(receive_status(eagain(), phase).expect("back pressure"), Received::NeedsInput, "{phase:?}");
    }
    assert_eq!(receive_status(eagain(), Draining).expect("a settled end"), Received::Ended);
    assert!(matches!(receive_status(eagain(), AuditioningPastEnd), Err(Error::Ffmpeg(_))));

    for phase in [Streaming, Draining] {
        assert_eq!(receive_status(eof(), phase).expect("the end of a stream"), Received::Ended, "{phase:?}");
    }
    for phase in [Auditioning, AuditioningPastEnd] {
        assert!(matches!(receive_status(eof(), phase), Err(Error::Ffmpeg(_))), "{phase:?}");
    }

    for phase in [Streaming, Auditioning] {
        assert_eq!(send_status(eagain(), phase).expect("back pressure"), Sent::MustDrain, "{phase:?}");
    }
    for phase in [Draining, AuditioningPastEnd] {
        assert!(matches!(send_status(eagain(), phase), Err(Error::Ffmpeg(_))), "{phase:?}");
    }
    for phase in [Streaming, Draining, Auditioning, AuditioningPastEnd] {
        assert!(
            matches!(send_status(eof(), phase), Err(Error::Ffmpeg(AvError::Eof))),
            "{phase:?}",
        );
    }

    for phase in [Streaming, Draining, Auditioning, AuditioningPastEnd] {
        for gate in [
            send_status::<Vec<u8>, u8>(Error::Ffmpeg(AvError::InvalidData), phase).err(),
            receive_status::<Vec<u8>, u8>(Error::Ffmpeg(AvError::InvalidData), phase).err(),
        ] {
            assert!(matches!(gate, Some(Error::Ffmpeg(AvError::InvalidData))), "{phase:?}");
        }
    }
}

#[test]
fn the_phase_is_read_off_the_two_latches() {
    assert_eq!(SessionPhase::of(false, false), SessionPhase::Streaming);
    assert_eq!(SessionPhase::of(false, true), SessionPhase::Draining);
    assert_eq!(SessionPhase::of(true, false), SessionPhase::Auditioning);
    assert_eq!(SessionPhase::of(true, true), SessionPhase::AuditioningPastEnd);
    assert!(SessionPhase::Streaming.accepts_input() && SessionPhase::Streaming.is_committed());
    assert!(!SessionPhase::Draining.accepts_input() && SessionPhase::Draining.is_committed());
    assert!(SessionPhase::Auditioning.accepts_input() && !SessionPhase::Auditioning.is_committed());
    assert!(!SessionPhase::AuditioningPastEnd.accepts_input());
}

#[test]
fn the_declination_reader_reports_then_clears() {
    let mut quiet = DeclinationLatch::new();
    assert!(quiet.ceiling_declination_of::<Vec<u8>, u8>().is_none());

    let mut declined = DeclinationLatch::new();
    declined.declare_ceiling_declined(1920 * 1088, 1_048_576);
    match declined.ceiling_declination_of::<Vec<u8>, u8>() {
        Some(Error::HwSurfaceTooLarge(p)) => {
            assert_eq!(p.bytes(), 1920 * 1088);
            assert_eq!(p.limit(), 1_048_576);
        }
        other => panic!("expected a named coded-surface refusal, got {other:?}"),
    }
    assert!(
        declined.ceiling_declination_of::<Vec<u8>, u8>().is_none(),
        "the refusal must be consumed, not latched",
    );
}

#[test]
fn the_post_commit_failure_records_the_verdict_it_was_given() {
    let (dec, mut latch) = committed_decoder();
    latch.declare_ceiling_declined(8_294_400, 2_073_600);

    let recorded = dec.post_commit_hw_failure(Error::Ffmpeg(AvError::InvalidData));
    let Error::AllBackendsFailed(p) = &recorded else {
        panic!("expected AllBackendsFailed, got {recorded:?}");
    };
    let cause = format!("{:?}", p.attempts());
    assert!(cause.contains("InvalidData"), "it must record the verdict it was handed: {cause}");
    assert!(!cause.contains("HwSurfaceTooLarge"), "it must not read the latch itself: {cause}");

    let verdict = latch.hw_exit(Error::Ffmpeg(AvError::InvalidData));
    match &verdict {
        Error::HwSurfaceTooLarge(q) => assert_eq!(q.bytes(), 8_294_400),
        other => panic!("the latch must still hold its refusal: {other:?}"),
    }

    let threaded = dec.post_commit_hw_failure(verdict);
    let Error::AllBackendsFailed(p) = &threaded else {
        panic!("expected AllBackendsFailed, got {threaded:?}");
    };
    let cause = format!("{:?}", p.attempts());
    assert!(
        cause.contains("HwSurfaceTooLarge") && cause.contains("8294400"),
        "the threaded verdict must reach the attempt log with its numbers: {cause}",
    );
}

#[test]
fn a_funnel_consumes_what_it_collects() {
    let (_dec, mut latch) = committed_decoder();
    latch.declare_ceiling_declined(4_096, 1_024);

    let first: E = latch.hw_exit(Error::Ffmpeg(AvError::InvalidData));
    assert!(matches!(first, Error::HwSurfaceTooLarge(ref p) if p.bytes() == 4_096), "{first:?}");

    let second: E = latch.hw_exit(Error::Ffmpeg(AvError::InvalidData));
    assert!(matches!(second, Error::Ffmpeg(AvError::InvalidData)), "{second:?}");
}

#[test]
fn a_declined_surface_reaches_the_caller_whatever_errno_the_codec_wrapped_it_in() {
    let hevc = AvError::Other { errno: Errno::Code(1) };
    assert!(!is_hw_decode_failure(&hevc));

    let (dec, mut latch) = committed_decoder();
    latch.declare_ceiling_declined(8_294_400, 2_073_600);

    let out = reported(dec.hw_failure(&mut latch, hevc, BareVerdict::CandidateFailure));
    let Error::AllBackendsFailed(p) = &out else {
        panic!("a declined surface must ask for the software fallback, got {out:?}");
    };
    let cause = format!("{:?}", p.attempts());
    assert!(cause.contains("HwSurfaceTooLarge") && cause.contains("8294400"), "{cause}");

    let after: E = latch.hw_exit(Error::Ffmpeg(hevc));
    assert!(matches!(after, Error::Ffmpeg(AvError::Other { errno: Errno::Code(1) })), "{after:?}");
}

#[test]
fn a_budget_refusal_never_triggers_the_fallback_whatever_errno_rides_with_it() {
    let einval = AvError::Other { errno: Errno::InvalidArgument };
    assert!(is_hw_decode_failure(&einval));

    for (name, raw) in [("the judge's own -EINVAL", einval), ("libavcodec's InvalidData", AvError::InvalidData)] {
        let (dec, mut latch) = committed_decoder();
        latch.declare_frame_budget_declined(12_582_912, 1_048_576, false);
        let out = reported(dec.hw_failure(&mut latch, raw, BareVerdict::CandidateFailure));
        assert!(
            matches!(out, Error::FrameBudgetExceeded(ref p) if p.bytes() == 12_582_912),
            "{name}: {out:?}",
        );
    }
}

#[test]
fn an_unnamed_failure_is_still_judged_on_its_errno() {
    let (dec, mut latch) = committed_decoder();
    let out = reported(dec.hw_failure(&mut latch, AvError::InvalidData, BareVerdict::CandidateFailure));
    assert!(matches!(out, Error::AllBackendsFailed(_)), "{out:?}");

    let (dec, mut latch) = committed_decoder();
    let out = reported(dec.hw_failure(&mut latch, AvError::Other { errno: Errno::Code(1) }, BareVerdict::CandidateFailure));
    assert!(matches!(out, Error::Ffmpeg(AvError::Other { errno: Errno::Code(1) })), "{out:?}");
}

#[test]
fn a_named_verdict_outranks_the_errno_in_both_directions() {
    let surface: E = Error::HwSurfaceTooLarge(mediadecode_ffmpeg::error::HwSurfaceTooLarge::new(10, 5));
    assert_eq!(verdict_routing(&surface), VerdictRouting::CandidateFailed);
    assert!(fallback_required(&surface, AvError::Other { errno: Errno::Code(1) }));
    let budget: E = Error::FrameBudgetExceeded(FrameBudgetExceeded::new(10, 5, FrameMedium::Audio));
    assert_eq!(verdict_routing(&budget), VerdictRouting::Direct);
    assert!(!fallback_required(&budget, AvError::InvalidData));
    assert_eq!(verdict_routing(&eof()), VerdictRouting::Unnamed);
    assert!(!fallback_required(&eof(), AvError::Eof));
    assert!(fallback_required(&eof(), AvError::External));
}

#[test]
fn the_software_funnel_names_a_refused_frame_instead_of_its_errno() {
    let mut latch = DeclinationLatch::new();
    latch.declare_frame_budget_declined(4_000, 1_000, true);
    let named: E = latch.software_exit(AvError::Other { errno: Errno::InvalidArgument });
    match named {
        Error::FrameBudgetExceeded(p) => {
            assert_eq!((p.bytes(), p.limit(), p.medium()), (4_000, 1_000, FrameMedium::Audio));
        }
        other => panic!("{other:?}"),
    }
    let plain: E = latch.software_exit(AvError::Other { errno: Errno::InvalidArgument });
    assert!(matches!(plain, Error::Ffmpeg(AvError::Other { errno: Errno::InvalidArgument })));
    assert!(matches!(
        latch.software_receive::<Vec<u8>, u8>(AvError::Other { errno: Errno::Again }, SessionPhase::Streaming),
        Ok(Received::NeedsInput)
    ));
    assert!(matches!(
        latch.software_send::<Vec<u8>, u8>(AvError::Other { errno: Errno::Again }, SessionPhase::Draining),
        Err(Error::Ffmpeg(_))
    ));
}
