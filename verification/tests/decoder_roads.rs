use mediadecode_ffmpeg::averror::{AvError, Errno};
use mediadecode_ffmpeg::decoder::{
    AdvanceAction, AdvanceEvent, HwDecoder, ReceiveAction, ReceiveEvent, ReplayQueue, SendAction, SendEvent,
};
use mediadecode_ffmpeg::error::{Error, FallbackOrigin, HwTransferTooLarge};
use mediadecode_ffmpeg::gates::{DeclinationLatch, Received, Sent};
use mediadecode_ffmpeg::pricing::{DrainStep, DrainedFrame};
use mediadecode_ffmpeg::probe::{
    DecoderSession, HwRoute, MAX_PROBE_PACKET_BYTES, MAX_PROBE_PACKET_SIDE_DATA_ENTRIES, MAX_PROBE_PENDING_FRAMES,
};

type Packet = &'static str;
type Decoder = HwDecoder<Packet, u8, u32>;

const AGAIN: AvError = AvError::Other { errno: Errno::Again };

fn on_trial(remaining: Vec<u8>) -> Decoder {
    HwDecoder::new(DecoderSession::probing(1u8, remaining, Vec::new()))
}

/// Sends `pkt` through the send road with no backend failure.
fn send_accepted(d: &mut Decoder, latch: &mut DeclinationLatch, pkt: Packet, charge: usize) {
    match d.send_step(latch, SendEvent::Offer { side_entries: 0, charge }) {
        SendAction::ClonePacket => {}
        other => panic!("{other:?}"),
    }
    assert!(matches!(d.send_step(latch, SendEvent::Cloned(Ok(pkt))), SendAction::SubmitPacket));
    assert!(matches!(d.send_step(latch, SendEvent::Submitted(Ok(()))), SendAction::Done(Sent::Accepted)));
}

/// Installs the next candidate with the frames its replay produced.
fn install_with_frames(d: &mut Decoder, latch: &mut DeclinationLatch, frames: &[u32]) {
    match d.advance_step(latch, AdvanceEvent::Begin(Error::Ffmpeg(AvError::InvalidData))) {
        AdvanceAction::Build(_) => {}
        other => panic!("{other:?}"),
    }
    let mut queue = ReplayQueue::new(1000);
    for f in frames {
        assert_eq!(queue.judge(Ok(DrainedFrame { estimate: Some(10), transfer: Ok(()) })), DrainStep::Download);
        queue.enqueue(*f, true, Some(10), 0).expect("fits");
    }
    assert!(matches!(d.advance_step(latch, AdvanceEvent::ReplayAccepted(queue)), AdvanceAction::Installed));
}

#[test]
fn tests_cap_overflow_does_not_consume_packet_and_preserves_pending() {
    let mut latch = DeclinationLatch::new();
    let mut d = on_trial(vec![2]);
    send_accepted(&mut d, &mut latch, "pre-existing", MAX_PROBE_PACKET_BYTES);
    match d.send_step(&mut latch, SendEvent::Offer { side_entries: 0, charge: 1 }) {
        SendAction::Fail(Error::AllBackendsFailed(p)) => {
            assert_eq!(p.unconsumed_packets(), &["pre-existing"], "the triggering packet was not consumed");
            assert!(p.attempts().is_empty(), "no backend failed");
            assert_eq!(p.origin(), FallbackOrigin::Probe);
        }
        other => panic!("expected AllBackendsFailed bailout, got {other:?}"),
    }
    assert!(!d.session().is_probing(), "probe must be abandoned after cap overflow");

    // Frames a replay queued belong to the active backend: abandoning the
    // probe does not drop them.
    let mut d = on_trial(vec![2]);
    install_with_frames(&mut d, &mut latch, &[7, 8]);
    send_accepted(&mut d, &mut latch, "pre-existing", MAX_PROBE_PACKET_BYTES);
    let pending_before = d.pending_frames();
    assert_eq!(pending_before, 2);
    assert!(matches!(
        d.send_step(&mut latch, SendEvent::Offer { side_entries: MAX_PROBE_PACKET_SIDE_DATA_ENTRIES + 1, charge: 0 }),
        SendAction::Fail(Error::AllBackendsFailed(_))
    ));
    assert_eq!(d.pending_frames(), pending_before);
}

#[test]
fn tests_all_backends_failed_returns_buffered_packets_to_caller() {
    let mut latch = DeclinationLatch::new();
    let mut d = on_trial(Vec::new());
    send_accepted(&mut d, &mut latch, "p16", 16);
    send_accepted(&mut d, &mut latch, "p32", 32);
    match d.advance_step(&mut latch, AdvanceEvent::Begin(Error::Ffmpeg(AvError::InvalidData))) {
        AdvanceAction::GiveUp(Error::AllBackendsFailed(p)) => {
            assert_eq!(p.unconsumed_packets(), &["p16", "p32"]);
            assert!(!p.attempts().is_empty(), "the active backend's failure should be in attempts");
        }
        other => panic!("expected AllBackendsFailed, got {other:?}"),
    }
}

#[test]
fn tests_all_backends_failed_preserves_earlier_open_failures() {
    let earlier: Vec<(u8, Box<Error<Packet, u8>>)> = vec![(0u8, Box::new(Error::BackendUnsupportedByCodec(0u8)))];
    let mut d: Decoder = HwDecoder::new(DecoderSession::probing(1u8, Vec::new(), earlier));
    let mut latch = DeclinationLatch::new();
    match d.advance_step(&mut latch, AdvanceEvent::Begin(Error::Ffmpeg(AvError::InvalidData))) {
        AdvanceAction::GiveUp(Error::AllBackendsFailed(p)) => {
            let attempts = p.attempts();
            assert_eq!(attempts.len(), 2);
            assert_eq!(attempts[0].0, 0, "earlier open failure must come first in probe order");
            assert!(matches!(*attempts[0].1, Error::BackendUnsupportedByCodec(0)));
            assert_eq!(attempts[1].0, 1, "active backend's runtime failure must come second");
            assert!(matches!(*attempts[1].1, Error::Ffmpeg(AvError::InvalidData)));
        }
        other => panic!("expected AllBackendsFailed, got {other:?}"),
    }
}

#[test]
fn a_packet_joins_the_history_only_once_the_backend_took_it() {
    let mut latch = DeclinationLatch::new();
    let mut d = on_trial(vec![2]);
    assert!(matches!(d.send_step(&mut latch, SendEvent::Offer { side_entries: 0, charge: 5 }), SendAction::ClonePacket));
    assert!(matches!(d.send_step(&mut latch, SendEvent::Cloned(Ok("a"))), SendAction::SubmitPacket));
    match d.send_step(&mut latch, SendEvent::Submitted(Err(AGAIN))) {
        SendAction::Done(Sent::MustDrain) => {}
        other => panic!("{other:?}"),
    }
    assert!(d.session().buffered_packets().is_empty(), "back pressure consumed nothing");
    send_accepted(&mut d, &mut latch, "a", 5);
    assert_eq!(d.session().buffered_packets(), &["a"]);

    // A clone that fails ends the probe before the backend sees the packet.
    match d.send_step(&mut latch, SendEvent::Offer { side_entries: 0, charge: 5 }) {
        SendAction::ClonePacket => {}
        other => panic!("{other:?}"),
    }
    match d.send_step(&mut latch, SendEvent::Cloned(Err(AvError::Other { errno: Errno::OutOfMemory }))) {
        SendAction::Fail(Error::AllBackendsFailed(p)) => assert_eq!(p.unconsumed_packets(), &["a"]),
        other => panic!("{other:?}"),
    }
}

#[test]
fn a_failed_send_on_trial_advances_and_then_retries() {
    let mut latch = DeclinationLatch::new();
    let mut d = on_trial(vec![2]);
    d.send_step(&mut latch, SendEvent::Offer { side_entries: 0, charge: 5 });
    d.send_step(&mut latch, SendEvent::Cloned(Ok("a")));
    match d.send_step(&mut latch, SendEvent::Submitted(Err(AvError::External))) {
        SendAction::Route(HwRoute::Advance(Error::Ffmpeg(AvError::External))) => {}
        other => panic!("{other:?}"),
    }
    assert!(d.session().buffered_packets().is_empty());
    assert!(matches!(d.send_step(&mut latch, SendEvent::Advanced(Ok(()))), SendAction::Retry));
    // A send after the end is the caller's fault: reported, not advanced.
    match d.send_step(&mut latch, SendEvent::Submitted(Err(AvError::Eof))) {
        SendAction::Route(HwRoute::Report(Error::Ffmpeg(AvError::Eof))) => {}
        other => panic!("{other:?}"),
    }
    // A committed session submits at once and keeps nothing.
    let mut c: Decoder = HwDecoder::new(DecoderSession::committed(4));
    assert!(matches!(c.send_step(&mut latch, SendEvent::Offer { side_entries: 1000, charge: usize::MAX }), SendAction::SubmitPacket));
    assert!(matches!(c.send_step(&mut latch, SendEvent::Submitted(Ok(()))), SendAction::Done(Sent::Accepted)));
    assert!(c.session().buffered_packets().is_empty());
}

#[test]
fn the_end_of_stream_is_recorded_only_once_accepted() {
    let mut latch = DeclinationLatch::new();
    let mut d = on_trial(vec![2]);
    assert!(matches!(d.send_step(&mut latch, SendEvent::OfferEof), SendAction::SubmitEof));
    assert!(matches!(d.send_step(&mut latch, SendEvent::EofSubmitted(Err(AGAIN))), SendAction::Done(Sent::MustDrain)));
    assert!(!d.session().eof_sent());
    assert!(matches!(d.send_step(&mut latch, SendEvent::EofSubmitted(Ok(()))), SendAction::Done(Sent::Accepted)));
    assert!(d.session().eof_sent());
}

#[test]
fn an_advance_installs_only_a_candidate_that_took_the_history() {
    let mut latch = DeclinationLatch::new();
    let mut d = on_trial(vec![2, 3, 4]);
    send_accepted(&mut d, &mut latch, "a", 1);
    match d.advance_step(&mut latch, AdvanceEvent::Begin(Error::Ffmpeg(AvError::InvalidData))) {
        AdvanceAction::Build(2) => {}
        other => panic!("{other:?}"),
    }
    match d.advance_step(&mut latch, AdvanceEvent::BuildFailed(Error::HwDeviceInitFailed(
        mediadecode_ffmpeg::error::HwDeviceInitFailed::new(2, AvError::External),
    ))) {
        AdvanceAction::Build(3) => {}
        other => panic!("{other:?}"),
    }
    let mut candidate = DeclinationLatch::new();
    candidate.declare_ceiling_declined(4096, 1024);
    match d.advance_step(&mut latch, AdvanceEvent::ReplayFailed { latch: candidate, error: AvError::InvalidData }) {
        AdvanceAction::Build(4) => {}
        other => panic!("{other:?}"),
    }
    assert_eq!(*d.session().backend(), 1, "nothing installed yet");
    let mut queue = ReplayQueue::new(100);
    queue.enqueue(42u32, true, Some(10), 0).expect("fits");
    assert!(matches!(d.advance_step(&mut latch, AdvanceEvent::ReplayAccepted(queue)), AdvanceAction::Installed));
    assert_eq!(*d.session().backend(), 4);
    assert!(d.session().is_probing(), "still on trial until a frame is delivered");
    assert_eq!(d.session().buffered_packets(), &["a"]);
    assert_eq!(d.session().next_candidate(), None);

    // The attempt log, in order, names the candidate's own refusal.
    match d.advance_step(&mut latch, AdvanceEvent::Begin(Error::Ffmpeg(AvError::External))) {
        AdvanceAction::GiveUp(Error::AllBackendsFailed(p)) => {
            let backends: Vec<u8> = p.attempts().iter().map(|(b, _)| *b).collect();
            assert_eq!(backends, vec![1, 2, 3, 4]);
            assert!(matches!(*p.attempts()[2].1, Error::HwSurfaceTooLarge(ref s) if s.bytes() == 4096 && s.limit() == 1024));
            assert_eq!(p.unconsumed_packets(), &["a"]);
        }
        other => panic!("{other:?}"),
    }
}

#[test]
fn replayed_frames_come_first_and_the_first_frame_commits() {
    let mut latch = DeclinationLatch::new();
    let mut d = on_trial(vec![2]);
    install_with_frames(&mut d, &mut latch, &[7, 8]);
    assert!(d.session().is_probing());
    assert!(matches!(d.receive_step(&mut latch, ReceiveEvent::Start), ReceiveAction::Deliver(7)));
    assert!(!d.session().is_probing(), "delivering a frame collapses the probe");
    assert!(matches!(d.receive_step(&mut latch, ReceiveEvent::Start), ReceiveAction::Deliver(8)));
    assert!(matches!(d.receive_step(&mut latch, ReceiveEvent::Start), ReceiveAction::Receive));

    let mut d = on_trial(vec![2]);
    assert!(matches!(d.receive_step(&mut latch, ReceiveEvent::Start), ReceiveAction::Receive));
    assert!(matches!(d.receive_step(&mut latch, ReceiveEvent::Decoded(Ok(()))), ReceiveAction::Transfer));
    assert!(matches!(
        d.receive_step(&mut latch, ReceiveEvent::Transferred(Ok(()))),
        ReceiveAction::Done(Received::Frame)
    ));
    assert!(!d.session().is_probing());
}

#[test]
fn the_receive_road_reads_flow_signals_by_phase_and_refuses_oversized_downloads() {
    let mut latch = DeclinationLatch::new();
    let mut d = on_trial(vec![2]);
    assert!(matches!(
        d.receive_step(&mut latch, ReceiveEvent::ReceiveFailed(AGAIN)),
        ReceiveAction::Done(Received::NeedsInput)
    ));
    // A candidate's own end is not the stream's: it advances.
    assert!(matches!(
        d.receive_step(&mut latch, ReceiveEvent::ReceiveFailed(AvError::Eof)),
        ReceiveAction::Route(HwRoute::Advance(Error::Ffmpeg(AvError::Eof)))
    ));
    match d.receive_step(&mut latch, ReceiveEvent::Decoded(Err(HwTransferTooLarge::new(200, 100)))) {
        ReceiveAction::Fail(Error::HwTransferTooLarge(t)) => assert_eq!((t.bytes(), t.limit()), (200, 100)),
        other => panic!("{other:?}"),
    }
    assert!(matches!(
        d.receive_step(&mut latch, ReceiveEvent::Transferred(Err(AvError::Other { errno: Errno::InvalidArgument }))),
        ReceiveAction::Route(HwRoute::Advance(_))
    ));
    let mut committed: Decoder = HwDecoder::new(DecoderSession::committed(4));
    assert!(matches!(
        committed.receive_step(&mut latch, ReceiveEvent::ReceiveFailed(AvError::Eof)),
        ReceiveAction::Done(Received::Ended)
    ));
    // A named refusal left in the latch outranks the errno.
    latch.declare_ceiling_declined(10, 5);
    assert!(matches!(
        d.receive_step(&mut latch, ReceiveEvent::ReceiveFailed(AGAIN)),
        ReceiveAction::Route(HwRoute::Advance(Error::HwSurfaceTooLarge(_)))
    ));
    assert!(matches!(
        d.receive_step(&mut latch, ReceiveEvent::Advanced(Err(Error::Ffmpeg(AvError::External)))),
        ReceiveAction::Fail(Error::Ffmpeg(AvError::External))
    ));
}

#[test]
fn a_flush_drops_queued_frames_and_the_history() {
    let mut latch = DeclinationLatch::new();
    let mut d = on_trial(vec![2, 3]);
    install_with_frames(&mut d, &mut latch, &[1]);
    send_accepted(&mut d, &mut latch, "a", 1);
    d.flush();
    assert_eq!(d.pending_frames(), 0);
    assert!(d.session().buffered_packets().is_empty());
    assert!(d.session().is_probing());
}

#[test]
fn the_replay_queue_stays_within_its_caps_over_a_whole_drain() {
    let mut q: ReplayQueue<u32> = ReplayQueue::new(100);
    let frame = Ok(DrainedFrame { estimate: Some(10), transfer: Ok(()) });
    assert_eq!(q.judge(Err(AGAIN)), DrainStep::Done);
    assert_eq!(q.judge(Err(AvError::Eof)), DrainStep::Done);
    assert_eq!(q.judge(Err(AvError::External)), DrainStep::Fail(AvError::External));
    assert_eq!(q.judge(frame), DrainStep::Download);
    q.enqueue(1, true, Some(30), 5).expect("fits");
    q.enqueue(2, true, Some(30), 5).expect("fits");
    assert_eq!((q.len(), q.bytes()), (2, 70));
    assert_eq!(q.enqueue(3, true, Some(30), 1), Err(AvError::Other { errno: Errno::OutOfMemory }));
    assert_eq!(q.enqueue(3, false, Some(1), 0), Err(AvError::Other { errno: Errno::InvalidArgument }));
    assert_eq!(q.enqueue(3, true, None, 0), Err(AvError::Other { errno: Errno::OutOfMemory }));
    assert_eq!((q.len(), q.bytes()), (2, 70), "a refusal leaves the queue as it was");
    assert_eq!(q.judge(Ok(DrainedFrame { estimate: Some(31), transfer: Ok(()) })), DrainStep::Fail(AvError::Other { errno: Errno::OutOfMemory }));

    let mut many: ReplayQueue<u32> = ReplayQueue::new(usize::MAX);
    for i in 0..MAX_PROBE_PENDING_FRAMES {
        assert_eq!(many.judge(frame), DrainStep::Download);
        many.enqueue(i as u32, true, Some(1), 0).expect("fits");
    }
    assert_eq!(many.judge(frame), DrainStep::Fail(AvError::Other { errno: Errno::OutOfMemory }));
    assert_eq!(many.into_frames().into_iter().collect::<Vec<u32>>(), (0..16).collect::<Vec<u32>>());
}
