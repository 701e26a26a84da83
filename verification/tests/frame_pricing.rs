use mediadecode_ffmpeg::averror::{AvError, Errno};
use mediadecode_ffmpeg::error::HwTransferTooLarge;
use mediadecode_ffmpeg::gates::DeclinationLatch;
use mediadecode_ffmpeg::pricing::{drain_pre_transfer, drain_queue_step, drain_step, DrainStep, DrainedFrame};
use mediadecode_ffmpeg::pricing::{
    cpu_frame_bytes, estimate_transfer_bytes, hw_frames_ctx_dimensions, judge_buffer,
    judge_hw_transfer, packet_side_data_bytes, packet_side_data_count, pre_transfer_admission,
    queue_admission, sum_side_data_bytes, worst_bytes_per_probe, AllocationVerdict,
    TransferExtent, HW_COPY_SIDE_DATA_MAX_ENTRIES, HW_COPY_SIDE_DATA_MAX_TOTAL_BYTES,
    PROBE_PIXELS, WORST_CASE_BYTES_PER_PIXEL,
};
use mediadecode_ffmpeg::probe::{
    DEFAULT_MAX_PROBE_PENDING_BYTES, MAX_PROBE_PACKET_SIDE_DATA_ENTRIES, MAX_PROBE_PENDING_FRAMES,
    SIDE_DATA_ENTRY_OVERHEAD,
};

const PAYLOAD_SIZE: usize = 16;
const SIDE_DATA_SIZE: usize = 1024 * 1024;

fn packet_side_data_counts_against_probe_budget_body() {
    let sizes = [SIDE_DATA_SIZE];
    let side = packet_side_data_bytes(&sizes, MAX_PROBE_PACKET_SIDE_DATA_ENTRIES);
    assert!(side >= SIDE_DATA_SIZE, "side-data accounting must include the attached buffer; got {side}");
    let total = PAYLOAD_SIZE.saturating_add(side);
    assert!(total >= PAYLOAD_SIZE + SIDE_DATA_SIZE);
}

#[test]
fn decoder_packet_side_data_counts_against_probe_budget() {
    packet_side_data_counts_against_probe_budget_body();
}

#[test]
fn tests_packet_side_data_counts_against_probe_budget() {
    packet_side_data_counts_against_probe_budget_body();
}

fn packet_side_data_is_zero_when_no_side_data_body() {
    assert_eq!(packet_side_data_bytes(&[], MAX_PROBE_PACKET_SIDE_DATA_ENTRIES), 0);
    assert_eq!(packet_side_data_count(0), 0);
}

#[test]
fn decoder_packet_side_data_is_zero_when_no_side_data() {
    packet_side_data_is_zero_when_no_side_data_body();
}

#[test]
fn tests_packet_side_data_is_zero_when_no_side_data() {
    packet_side_data_is_zero_when_no_side_data_body();
}

fn zero_size_entries_body() {
    let sizes = [0usize, 0];
    assert_eq!(packet_side_data_count(2), 2);
    let bytes = packet_side_data_bytes(&sizes, MAX_PROBE_PACKET_SIDE_DATA_ENTRIES);
    assert!(bytes >= 2 * SIDE_DATA_ENTRY_OVERHEAD, "got {bytes}");
}

#[test]
fn decoder_packet_side_data_bytes_charges_descriptor_overhead_for_zero_size_entries() {
    zero_size_entries_body();
}

#[test]
fn tests_packet_side_data_bytes_charges_descriptor_overhead_for_zero_size_entries() {
    zero_size_entries_body();
}

fn max_entries_cap_body() {
    let sizes = [100usize, 200, 300, 400, 500];
    assert_eq!(packet_side_data_count(5), 5);
    let walked_2 = packet_side_data_bytes(&sizes, 2);
    let walked_5 = packet_side_data_bytes(&sizes, 5);
    assert_eq!(walked_2, 2 * SIDE_DATA_ENTRY_OVERHEAD + 100 + 200);
    assert_eq!(walked_5, 5 * SIDE_DATA_ENTRY_OVERHEAD + 100 + 200 + 300 + 400 + 500);
    assert_eq!(packet_side_data_bytes(&sizes, 0), 0);
    let walked_huge = packet_side_data_bytes(&sizes, 1_000_000);
    assert_eq!(walked_huge, walked_5);
}

#[test]
fn decoder_packet_side_data_bytes_respects_max_entries_cap() {
    max_entries_cap_body();
}

#[test]
fn tests_packet_side_data_bytes_respects_max_entries_cap() {
    max_entries_cap_body();
}

#[test]
fn decoder_packet_side_data_count_reports_attached_entries() {
    assert_eq!(packet_side_data_count(2), 2);
}

#[test]
fn tests_packet_side_data_count_reports_attached_entries() {
    assert_eq!(packet_side_data_count(2), 2);
    assert_eq!(packet_side_data_count(-4), 0, "a negative count is none");
}

fn negative_linesize_body() {
    assert!(cpu_frame_bytes(-1920, &[]).is_none(), "negative linesize must be unsizeable, not Some(0)");
}

#[test]
fn decoder_cpu_frame_bytes_rejects_negative_first_plane_linesize() {
    negative_linesize_body();
}

#[test]
fn tests_cpu_frame_bytes_rejects_negative_first_plane_linesize() {
    negative_linesize_body();
}

#[test]
fn decoder_cpu_frame_bytes_sums_buf_sizes() {
    assert_eq!(cpu_frame_bytes(256, &[Some(4096), Some(2048)]), Some(4096 + 2048));
}

#[test]
fn tests_cpu_frame_bytes_sums_buf_sizes() {
    assert_eq!(cpu_frame_bytes(256, &[Some(4096), Some(2048), None]), Some(4096 + 2048));
}

#[test]
fn decoder_cpu_frame_bytes_zero_for_empty_frame() {
    assert_eq!(cpu_frame_bytes(0, &[]), Some(0));
}

#[test]
fn tests_cpu_frame_bytes_zero_for_empty_frame() {
    assert_eq!(cpu_frame_bytes(0, &[None, None]), Some(0));
}

#[test]
fn decoder_cpu_frame_bytes_uses_buf_size_independent_of_display_height() {
    // A 1x1 display over a 256-byte buffer: the buffer is what is charged.
    assert_eq!(cpu_frame_bytes(32, &[Some(256)]), Some(256));
}

#[test]
fn tests_cpu_frame_bytes_uses_buf_size_independent_of_display_height() {
    assert_eq!(cpu_frame_bytes(32, &[Some(256)]), Some(256));
}

#[test]
fn decoder_estimate_transfer_bytes_reads_alloc_dims_from_hw_frames_ctx() {
    assert_eq!(
        estimate_transfer_bytes(Some((8192, 8192))),
        Some(8192usize * 8192 * WORST_CASE_BYTES_PER_PIXEL),
    );
}

#[test]
fn tests_estimate_transfer_bytes_reads_alloc_dims_from_hw_frames_ctx() {
    assert_eq!(
        estimate_transfer_bytes(Some((8192, 8192))),
        Some(8192usize * 8192 * WORST_CASE_BYTES_PER_PIXEL),
    );
    assert_eq!(hw_frames_ctx_dimensions(Some((8192, 8192))), Some((8192, 8192)));
}

#[test]
fn decoder_estimate_transfer_bytes_returns_none_without_hw_frames_ctx() {
    assert!(estimate_transfer_bytes(None).is_none());
}

#[test]
fn tests_estimate_transfer_bytes_returns_none_without_hw_frames_ctx() {
    assert!(estimate_transfer_bytes(None).is_none());
}

#[test]
fn decoder_estimate_transfer_bytes_rejects_non_positive_alloc_dimensions() {
    assert!(estimate_transfer_bytes(Some((0, 1080))).is_none());
}

#[test]
fn tests_estimate_transfer_bytes_rejects_non_positive_alloc_dimensions() {
    assert!(estimate_transfer_bytes(Some((0, 1080))).is_none());
    assert!(estimate_transfer_bytes(Some((1920, -1))).is_none());
}

fn eight_k_body() {
    let estimate = estimate_transfer_bytes(Some((7680, 4320))).expect("8K is sizable");
    assert!(estimate <= DEFAULT_MAX_PROBE_PENDING_BYTES);
    assert!(estimate > 96 * 1024 * 1024);
}

#[test]
fn decoder_estimate_transfer_bytes_8k_fits_default_cap() {
    eight_k_body();
}

#[test]
fn tests_estimate_transfer_bytes_8k_fits_default_cap() {
    eight_k_body();
}

#[test]
fn the_pre_allocation_rulers_are_what_the_docs_say() {
    // A census whose widest format costs 16 bytes a pixel.
    let census = [(16 * PROBE_PIXELS) as i32, (3 * PROBE_PIXELS) as i32, -22];
    assert_eq!(worst_bytes_per_probe(&census), 16 * PROBE_PIXELS);
    // A census that walked nothing still answers the known worst.
    assert_eq!(worst_bytes_per_probe(&[]), 16 * PROBE_PIXELS);
    // A wider format than any known one raises the ruler.
    assert_eq!(worst_bytes_per_probe(&[(20 * PROBE_PIXELS) as i32]), 20 * PROBE_PIXELS);
    let effective_pixels = (512usize * 1024 * 1024) / 16;
    assert_eq!(effective_pixels, 33_554_432);
    assert!(effective_pixels > 7680 * 4320);
}

#[test]
fn a_hardware_frame_with_an_unreadable_pool_fails_closed() {
    match judge_hw_transfer(TransferExtent::Unreadable, None, None, 1 << 20) {
        Err(e) => assert_eq!((e.bytes(), e.limit()), (usize::MAX, 1 << 20)),
        Ok(()) => panic!("an unreadable pool extent must fail closed"),
    }
    assert!(judge_hw_transfer(TransferExtent::NotHardware, None, None, 0).is_ok());
}

#[test]
fn the_transfer_judge_prices_the_pool_not_the_display() {
    let pool = TransferExtent::Pool { width: 8192, height: 8192 };
    let prices = [Some(8192usize * 8192 * 3 / 2), Some(8192usize * 8192 * 3)];
    let refusal = judge_hw_transfer(pool, Some(&prices), None, 16 * 1024 * 1024)
        .expect_err("an 8192x8192 pool must not pass a 16 MiB ceiling");
    assert_eq!(refusal.bytes(), 8192 * 8192 * 3, "the worst candidate is what is reported");
    assert!(judge_hw_transfer(pool, Some(&prices), None, usize::MAX).is_ok());
    // An unpriceable candidate is charged the bound; without one, it fails closed.
    let unpriced = [Some(100usize), None];
    assert_eq!(
        judge_hw_transfer(pool, Some(&unpriced), Some(5_000), 1_000).map_err(|e| e.bytes()),
        Err(5_000),
    );
    assert_eq!(
        judge_hw_transfer(pool, Some(&unpriced), None, 1_000).map_err(|e| e.bytes()),
        Err(usize::MAX),
    );
}

#[test]
fn the_allocator_judge_prices_what_it_can_and_refuses_what_it_cannot() {
    let mut latch = DeclinationLatch::new();
    assert_eq!(
        judge_buffer(&mut latch, true, true, 1920, 1080, 0, 0, None, 0),
        AllocationVerdict::Delegate,
        "a hardware frame carries no CPU bytes",
    );
    assert_eq!(judge_buffer(&mut latch, false, false, 16, 16, 0, 0, Some(1), u64::MAX), AllocationVerdict::Refuse);
    assert_eq!(
        judge_buffer(&mut latch, false, true, 0, 0, 1024, 0, Some(16), u64::MAX),
        AllocationVerdict::Refuse,
        "audio with no channels is malformed",
    );
    assert!(latch.frame_budget_declination_of::<Vec<u8>, u8>().is_none(), "an unpriced refusal records nothing");
    assert_eq!(judge_buffer(&mut latch, false, true, 64, 64, 0, 0, Some(4096), 4096), AllocationVerdict::Delegate);
    assert_eq!(judge_buffer(&mut latch, false, true, 64, 64, 0, 0, Some(4097), 4096), AllocationVerdict::Refuse);
    match latch.frame_budget_declination_of::<Vec<u8>, u8>() {
        Some(mediadecode_ffmpeg::error::Error::FrameBudgetExceeded(p)) => {
            assert_eq!((p.bytes(), p.limit()), (4097, 4096));
            assert_eq!(p.medium(), mediadecode_ffmpeg::error::FrameMedium::Video);
        }
        other => panic!("{other:?}"),
    }
    assert_eq!(judge_buffer(&mut latch, false, true, 0, 0, 1024, 8, None, 4096), AllocationVerdict::Refuse);
    match latch.frame_budget_declination_of::<Vec<u8>, u8>() {
        Some(mediadecode_ffmpeg::error::Error::FrameBudgetExceeded(p)) => {
            assert_eq!((p.bytes(), p.medium()), (u64::MAX, mediadecode_ffmpeg::error::FrameMedium::Audio));
        }
        other => panic!("{other:?}"),
    }
}

#[test]
fn the_replay_queue_is_capped_in_frames_and_bytes() {
    let enomem = Err(AvError::Other { errno: Errno::OutOfMemory });
    assert_eq!(pre_transfer_admission(0, 0, 1_000, Some(1_000)), Ok(()));
    assert_eq!(pre_transfer_admission(0, 0, 1_000, Some(1_001)), enomem);
    assert_eq!(pre_transfer_admission(MAX_PROBE_PENDING_FRAMES, 0, 1_000, Some(1)), enomem);
    assert_eq!(pre_transfer_admission(0, 1_000, 1_000, Some(0)), enomem);
    assert_eq!(pre_transfer_admission(0, 0, 1_000, None), enomem);
    assert_eq!(queue_admission(100, Some(200), 50, 1_000), Ok(350));
    assert_eq!(queue_admission(100, Some(900), 1, 1_000), Err(AvError::Other { errno: Errno::OutOfMemory }));
    assert_eq!(queue_admission(100, None, 0, 1_000), Err(AvError::Other { errno: Errno::OutOfMemory }));
}

#[test]
fn the_side_data_a_transfer_copies_is_capped_in_entries_and_bytes() {
    assert_eq!(sum_side_data_bytes(&[Some(10), None, Some(20)]), 30);
    let many = vec![Some(1usize); HW_COPY_SIDE_DATA_MAX_ENTRIES + 10];
    assert_eq!(sum_side_data_bytes(&many), HW_COPY_SIDE_DATA_MAX_ENTRIES);
    assert_eq!(
        sum_side_data_bytes(&[Some(HW_COPY_SIDE_DATA_MAX_TOTAL_BYTES - 1), Some(5), Some(7)]),
        HW_COPY_SIDE_DATA_MAX_TOTAL_BYTES,
    );
}

#[test]
fn a_drained_frame_is_judged_on_the_queue_then_on_the_ceiling() {
    let ok: Result<(), HwTransferTooLarge> = Ok(());
    assert_eq!(drain_pre_transfer(0, 0, 100, Some(10), ok), Ok(()));
    assert_eq!(
        drain_pre_transfer(0, 0, 100, Some(10), Err(HwTransferTooLarge::new(200, 100))),
        Err(AvError::Other { errno: Errno::InvalidArgument }),
    );
    assert_eq!(
        drain_pre_transfer(MAX_PROBE_PENDING_FRAMES, 0, 100, Some(10), Err(HwTransferTooLarge::new(200, 100))),
        Err(AvError::Other { errno: Errno::OutOfMemory }),
    );
}

#[test]
fn a_pool_without_a_positive_extent_fails_closed() {
    for pool in [TransferExtent::Pool { width: 0, height: 5 }, TransferExtent::Pool { width: 5, height: -1 }] {
        match judge_hw_transfer(pool, None, Some(10), 5) {
            Err(e) => assert_eq!((e.bytes(), e.limit()), (usize::MAX, 5)),
            Ok(()) => panic!("an unreadable extent must fail closed"),
        }
        assert!(judge_hw_transfer(pool, None, Some(1), 5).is_err(), "a small bound does not rescue it");
    }
}

#[test]
fn a_drain_step_reads_flow_signals_failures_and_frames() {
    let fine = DrainedFrame { estimate: Some(10), transfer: Ok(()) };
    assert_eq!(drain_step(0, 0, 100, Err(AvError::Other { errno: Errno::Again })), DrainStep::Done);
    assert_eq!(drain_step(0, 0, 100, Err(AvError::Eof)), DrainStep::Done);
    assert_eq!(drain_step(0, 0, 100, Err(AvError::InvalidData)), DrainStep::Fail(AvError::InvalidData));
    assert_eq!(drain_step(0, 0, 100, Ok(fine)), DrainStep::Download);
    assert_eq!(
        drain_step(0, 95, 100, Ok(fine)),
        DrainStep::Fail(AvError::Other { errno: Errno::OutOfMemory }),
    );
    let refused = DrainedFrame { estimate: Some(10), transfer: Err(HwTransferTooLarge::new(200, 100)) };
    assert_eq!(drain_step(0, 0, 100, Ok(refused)), DrainStep::Fail(AvError::Other { errno: Errno::InvalidArgument }));
    assert_eq!(drain_queue_step(false, 0, Some(1), 0, 100), Err(AvError::Other { errno: Errno::InvalidArgument }));
    assert_eq!(drain_queue_step(true, 10, Some(20), 5, 100), Ok(35));
    assert_eq!(drain_queue_step(true, 10, None, 5, 100), Err(AvError::Other { errno: Errno::OutOfMemory }));
}
