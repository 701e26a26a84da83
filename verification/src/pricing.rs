//! Pricing before paying: what a packet, a frame or a hardware download
//! will cost, decided before the allocation it describes is made.
//!
//! FFmpeg reports sizes through raw fields (`side_data_elems`,
//! `AVBufferRef.size`, a frames context's pool extent) and through its own
//! sizing functions. Those readings arrive here as plain values; the rules
//! that turn them into a charge or a refusal are this module's.
use vstd::prelude::*;
use crate::averror::{AvError, Errno};
use crate::error::HwTransferTooLarge;
use crate::gates::DeclinationLatch;
use crate::probe::{MAX_PROBE_PENDING_FRAMES, SIDE_DATA_ENTRY_OVERHEAD};

verus! {

/// Conservative bytes per pixel for a hardware download, charged before
/// the download allocates: the widest download format this crate produces
/// plus a margin for row alignment.
pub const WORST_CASE_BYTES_PER_PIXEL: usize = 8;

/// Most side-data entries carried across a hardware transfer.
pub const HW_COPY_SIDE_DATA_MAX_ENTRIES: usize = 64;

/// Most side-data bytes carried across one hardware transfer.
pub const HW_COPY_SIDE_DATA_MAX_TOTAL_BYTES: usize = 262144;

/// The probe square the worst per-pixel rate is measured on: 256 x 256,
/// which every chroma subsampling and every alignment divides exactly.
pub const PROBE_PIXELS: usize = 65536;

/// The widest pixel format at the time of writing costs 16 bytes a pixel;
/// a census that comes back below that failed to walk the table.
pub const KNOWN_WORST_BYTES_PER_PIXEL: usize = 16;

/// `a + b`, saturated at `usize::MAX`.
pub open spec fn sat_add(a: int, b: int) -> int {
    if a + b > usize::MAX {
        usize::MAX as int
    } else {
        a + b
    }
}

/// `a * b`, saturated at `usize::MAX`.
pub open spec fn sat_mul(a: int, b: int) -> int {
    if a * b > usize::MAX {
        usize::MAX as int
    } else {
        a * b
    }
}

/// `a * b`, saturated at `usize::MAX`.
pub fn saturating_mul(a: usize, b: usize) -> (r: usize)
    ensures
        r as int == sat_mul(a as int, b as int),
{
    match a.checked_mul(b) {
        Some(p) => p,
        None => usize::MAX,
    }
}

/// The saturating sum of `s`, starting from `start`, added left to right.
pub open spec fn sat_sum(start: int, s: Seq<usize>) -> int
    decreases s.len(),
{
    if s.len() == 0 {
        start
    } else {
        sat_add(sat_sum(start, s.drop_last()), s.last() as int)
    }
}

/// What `av_packet_ref` costs a packet's side data: the first
/// `min(entries, max_entries)` entries, each charged its payload plus
/// [`SIDE_DATA_ENTRY_OVERHEAD`].
pub open spec fn spec_packet_side_data_bytes(sizes: Seq<usize>, max_entries: usize) -> int {
    let count = if sizes.len() < max_entries {
        sizes.len() as int
    } else {
        max_entries as int
    };
    sat_sum(sat_mul(count, SIDE_DATA_ENTRY_OVERHEAD as int), sizes.take(count))
}

/// The side-data charge for one packet, walking at most `max_entries`
/// entries. `sizes` is each entry's `size` field, in order.
pub fn packet_side_data_bytes(sizes: &[usize], max_entries: usize) -> (r: usize)
    ensures
        r as int == spec_packet_side_data_bytes(sizes@, max_entries),
{
    let len = sizes.len();
    let count = if len < max_entries {
        len
    } else {
        max_entries
    };
    let mut total = saturating_mul(count, SIDE_DATA_ENTRY_OVERHEAD);
    let ghost start = total as int;
    let mut i: usize = 0;
    proof {
        assert(sizes@.take(0) =~= Seq::<usize>::empty());
    }
    while i < count
        invariant
            len == sizes@.len(),
            count <= len,
            i <= count,
            total as int == sat_sum(start, sizes@.take(i as int)),
        decreases count - i,
    {
        total = total.saturating_add(sizes[i]);
        proof {
            assert(sizes@.take(i + 1).drop_last() =~= sizes@.take(i as int));
        }
        i = i + 1;
    }
    total
}

/// The number of side-data entries a packet declares; a negative count is
/// none.
pub fn packet_side_data_count(declared: i32) -> (r: usize)
    ensures
        r as int == (if declared <= 0 {
            0
        } else {
            declared as int
        }),
{
    if declared <= 0 {
        0
    } else {
        declared as usize
    }
}

/// The side-data bytes a hardware transfer copies: at most
/// [`HW_COPY_SIDE_DATA_MAX_ENTRIES`] entries, null entries skipped, the
/// running total capped at [`HW_COPY_SIDE_DATA_MAX_TOTAL_BYTES`].
pub open spec fn capped_side_data(s: Seq<Option<usize>>) -> int
    decreases s.len(),
{
    if s.len() == 0 {
        0
    } else {
        let before = capped_side_data(s.drop_last());
        let add = match s.last() {
            Some(n) => n as int,
            None => 0,
        };
        if before + add >= HW_COPY_SIDE_DATA_MAX_TOTAL_BYTES {
            HW_COPY_SIDE_DATA_MAX_TOTAL_BYTES as int
        } else {
            before + add
        }
    }
}

pub open spec fn spec_sum_side_data_bytes(entries: Seq<Option<usize>>) -> int {
    capped_side_data(
        entries.take(
            if entries.len() < HW_COPY_SIDE_DATA_MAX_ENTRIES {
                entries.len() as int
            } else {
                HW_COPY_SIDE_DATA_MAX_ENTRIES as int
            },
        ),
    )
}

proof fn lemma_capped_saturates(s: Seq<Option<usize>>, i: int)
    requires
        0 <= i <= s.len(),
        capped_side_data(s.take(i)) == HW_COPY_SIDE_DATA_MAX_TOTAL_BYTES,
    ensures
        capped_side_data(s) == HW_COPY_SIDE_DATA_MAX_TOTAL_BYTES,
    decreases s.len() - i,
{
    if i < s.len() {
        assert(s.take(i + 1).drop_last() =~= s.take(i));
        lemma_capped_saturates(s, i + 1);
    } else {
        assert(s.take(i) =~= s);
    }
}

/// The side-data bytes a frame's entries will cost across a hardware
/// transfer. `entries` holds each `side_data[i]`'s `size`, `None` for a null
/// entry.
pub fn sum_side_data_bytes(entries: &[Option<usize>]) -> (r: usize)
    ensures
        r as int == spec_sum_side_data_bytes(entries@),
{
    let len = entries.len();
    let count = if len < HW_COPY_SIDE_DATA_MAX_ENTRIES {
        len
    } else {
        HW_COPY_SIDE_DATA_MAX_ENTRIES
    };
    let ghost s = entries@.take(count as int);
    let mut total: usize = 0;
    let mut i: usize = 0;
    proof {
        assert(s.take(0) =~= Seq::<Option<usize>>::empty());
        assert(s.take(count as int) =~= s);
    }
    while i < count
        invariant_except_break
            s.take(count as int) == s,
            len == entries@.len(),
            count <= len,
            s == entries@.take(count as int),
            i <= count,
            total as int == capped_side_data(s.take(i as int)),
            total < HW_COPY_SIDE_DATA_MAX_TOTAL_BYTES,
        ensures
            total as int == capped_side_data(s),
        decreases count - i,
    {
        proof {
            assert(s.take(i + 1).drop_last() =~= s.take(i as int));
            assert(s.take(i + 1).last() == entries@[i as int]);
        }
        match entries[i] {
            Some(size) => {
                total = total.saturating_add(size);
            },
            None => {},
        }
        i = i + 1;
        if total >= HW_COPY_SIDE_DATA_MAX_TOTAL_BYTES {
            total = HW_COPY_SIDE_DATA_MAX_TOTAL_BYTES;
            proof {
                lemma_capped_saturates(s, i as int);
            }
            break;
        }
    }
    total
}

/// The exact resident size of a CPU frame: the saturating sum of its
/// buffers' sizes, or `None` for a vertically flipped layout (a negative
/// first-plane stride), which nothing downstream can read.
pub open spec fn spec_cpu_frame_bytes(first_linesize: i32, bufs: Seq<Option<usize>>) -> Option<int> {
    if first_linesize < 0 {
        None
    } else {
        Some(sat_sum(0, bufs.map_values(|b: Option<usize>| if let Some(n) = b { n } else { 0usize })))
    }
}

/// Sizes a CPU frame from its buffers. `bufs` holds each `buf[i]`'s
/// `size`, `None` for an unpopulated slot.
pub fn cpu_frame_bytes(first_linesize: i32, bufs: &[Option<usize>]) -> (r: Option<usize>)
    ensures
        match spec_cpu_frame_bytes(first_linesize, bufs@) {
            Some(n) => r == Some(n as usize),
            None => r is None,
        },
{
    if first_linesize < 0 {
        return None;
    }
    let ghost sizes = bufs@.map_values(|b: Option<usize>| if let Some(n) = b { n } else { 0usize });
    let len = bufs.len();
    let mut total: usize = 0;
    let mut i: usize = 0;
    proof {
        assert(sizes.take(0) =~= Seq::<usize>::empty());
    }
    while i < len
        invariant
            len == bufs@.len(),
            sizes == bufs@.map_values(|b: Option<usize>| if let Some(n) = b { n } else { 0usize }),
            i <= len,
            total as int == sat_sum(0, sizes.take(i as int)),
        decreases len - i,
    {
        proof {
            assert(sizes.take(i + 1).drop_last() =~= sizes.take(i as int));
        }
        match bufs[i] {
            Some(size) => {
                total = total.saturating_add(size);
            },
            None => {
                total = total.saturating_add(0);
            },
        }
        i = i + 1;
    }
    proof {
        assert(sizes.take(len as int) =~= sizes);
    }
    Some(total)
}

/// A hardware frames context's pool extent, when it reads as a picture.
pub open spec fn spec_pool_dimensions(pool: Option<(i32, i32)>) -> Option<(i32, i32)> {
    match pool {
        Some((w, h)) => if w > 0 && h > 0 {
            Some((w, h))
        } else {
            None
        },
        None => None,
    }
}

/// The allocated extent of a hardware frame: the pool's width and height,
/// read from its frames context. `None` — no context, or non-positive
/// dimensions — means the extent cannot be proved.
pub fn hw_frames_ctx_dimensions(pool: Option<(i32, i32)>) -> (r: Option<(i32, i32)>)
    ensures
        r == spec_pool_dimensions(pool),
{
    match pool {
        Some((w, h)) => if w > 0 && h > 0 {
            Some((w, h))
        } else {
            None
        },
        None => None,
    }
}

/// The download estimate for a pool, when it reads as a picture.
pub open spec fn spec_estimate_transfer(pool: Option<(i32, i32)>) -> Option<int> {
    match spec_pool_dimensions(pool) {
        Some((w, h)) => Some(sat_mul(sat_mul(w as int, h as int), WORST_CASE_BYTES_PER_PIXEL as int)),
        None => None,
    }
}

/// A conservative upper bound on what downloading a hardware frame will
/// allocate: its pool's pixels at [`WORST_CASE_BYTES_PER_PIXEL`],
/// saturating. Never the display extent, which a cropped stream can make
/// arbitrarily smaller than the allocation.
pub fn estimate_transfer_bytes(pool: Option<(i32, i32)>) -> (r: Option<usize>)
    ensures
        match spec_estimate_transfer(pool) {
            Some(n) => r == Some(n as usize),
            None => r is None,
        },
{
    match hw_frames_ctx_dimensions(pool) {
        Some((w, h)) => Some(saturating_mul(saturating_mul(w as usize, h as usize), WORST_CASE_BYTES_PER_PIXEL)),
        None => None,
    }
}

/// The largest positive entry of `sizes`, or 0.
pub open spec fn max_positive(sizes: Seq<i32>) -> int
    decreases sizes.len(),
{
    if sizes.len() == 0 {
        0
    } else {
        let before = max_positive(sizes.drop_last());
        if sizes.last() > 0 && sizes.last() as int > before {
            sizes.last() as int
        } else {
            before
        }
    }
}

/// The worst cost of a [`PROBE_PIXELS`] picture, from the census of every
/// pixel format libavutil can size: the largest positive size, never below
/// [`KNOWN_WORST_BYTES_PER_PIXEL`] per pixel.
pub open spec fn spec_worst_bytes_per_probe(sizes: Seq<i32>) -> int {
    let floor = (KNOWN_WORST_BYTES_PER_PIXEL * PROBE_PIXELS) as int;
    if max_positive(sizes) > floor {
        max_positive(sizes)
    } else {
        floor
    }
}

/// Folds the census: `sizes` holds `av_image_get_buffer_size` for each
/// descriptor at [`PROBE_PIXELS`], negative where libavutil cannot size it.
pub fn worst_bytes_per_probe(sizes: &[i32]) -> (r: usize)
    ensures
        r as int == spec_worst_bytes_per_probe(sizes@),
{
    let len = sizes.len();
    let mut worst: usize = 0;
    let mut i: usize = 0;
    proof {
        assert(sizes@.take(0) =~= Seq::<i32>::empty());
    }
    while i < len
        invariant
            len == sizes@.len(),
            i <= len,
            worst as int == max_positive(sizes@.take(i as int)),
            worst <= i32::MAX,
        decreases len - i,
    {
        proof {
            assert(sizes@.take(i + 1).drop_last() =~= sizes@.take(i as int));
        }
        let size = sizes[i];
        if size > 0 && size as usize > worst {
            worst = size as usize;
        }
        i = i + 1;
    }
    proof {
        assert(sizes@.take(len as int) =~= sizes@);
    }
    let floor = KNOWN_WORST_BYTES_PER_PIXEL * PROBE_PIXELS;
    if worst > floor {
        worst
    } else {
        floor
    }
}

/// What the allocator hook answers libavcodec.
#[derive(Clone, Copy, Debug, PartialEq, Eq, Structural)]
pub enum AllocationVerdict {
    /// Hand the frame to the default allocator.
    Delegate,
    /// Refuse it (`AVERROR(EINVAL)`).
    Refuse,
}

/// **The allocator judge's rule.**
///
/// A hardware frame carries no CPU bytes and is delegated. Without the
/// callback's state there is no ceiling to judge against, and the frame is
/// refused. A picture (positive width and height) is priced by its
/// footprint; an audio frame (samples, no geometry) by its own, unless it
/// declares no channels, which is malformed and refused. `price` is that
/// footprint, `None` where it cannot be established. An unpriceable frame
/// is charged as unbounded; a costless one passes; one over
/// `byte_ceiling` is refused — and every priced refusal leaves its reason
/// in the latch, since libavcodec will only ever see the errno.
pub open spec fn spec_judge_allocation(
    hw_frame: bool,
    has_state: bool,
    width: i32,
    height: i32,
    nb_samples: i32,
    channels: i32,
    price: Option<usize>,
    byte_ceiling: u64,
) -> (AllocationVerdict, Option<u64>) {
    if hw_frame {
        (AllocationVerdict::Delegate, None)
    } else if !has_state {
        (AllocationVerdict::Refuse, None)
    } else if !(width > 0 && height > 0) && nb_samples > 0 && channels <= 0 {
        (AllocationVerdict::Refuse, None)
    } else {
        let priced = if (width > 0 && height > 0) || nb_samples > 0 {
            price
        } else {
            Some(0usize)
        };
        match priced {
            None => (AllocationVerdict::Refuse, Some(u64::MAX)),
            Some(bytes) => if bytes == 0 {
                (AllocationVerdict::Delegate, None)
            } else if bytes as int > byte_ceiling as int {
                (AllocationVerdict::Refuse, Some(bytes as u64))
            } else {
                (AllocationVerdict::Delegate, None)
            },
        }
    }
}

/// Judges one allocation and, when the refusal is priced, records it in
/// `latch` with the ceiling and whether the frame was audio.
pub fn judge_buffer(
    latch: &mut DeclinationLatch,
    hw_frame: bool,
    has_state: bool,
    width: i32,
    height: i32,
    nb_samples: i32,
    channels: i32,
    price: Option<usize>,
    byte_ceiling: u64,
) -> (r: AllocationVerdict)
    ensures
        r == spec_judge_allocation(hw_frame, has_state, width, height, nb_samples, channels, price, byte_ceiling).0,
        final(latch).spec_ceiling() == old(latch).spec_ceiling(),
        match spec_judge_allocation(hw_frame, has_state, width, height, nb_samples, channels, price, byte_ceiling).1 {
            Some(bytes) => final(latch).spec_frame_budget() == Some((bytes, byte_ceiling, width <= 0 && height <= 0)),
            None => final(latch).spec_frame_budget() == old(latch).spec_frame_budget(),
        },
{
    if hw_frame {
        return AllocationVerdict::Delegate;
    }
    if !has_state {
        return AllocationVerdict::Refuse;
    }
    let picture = width > 0 && height > 0;
    if !picture && nb_samples > 0 && channels <= 0 {
        return AllocationVerdict::Refuse;
    }
    let priced = if picture || nb_samples > 0 {
        price
    } else {
        Some(0usize)
    };
    let audio = width <= 0 && height <= 0;
    match priced {
        None => {
            latch.declare_frame_budget_declined(u64::MAX, byte_ceiling, audio);
            AllocationVerdict::Refuse
        },
        Some(bytes) => {
            if bytes == 0 {
                AllocationVerdict::Delegate
            } else if bytes as u64 > byte_ceiling {
                latch.declare_frame_budget_declined(bytes as u64, byte_ceiling, audio);
                AllocationVerdict::Refuse
            } else {
                AllocationVerdict::Delegate
            }
        },
    }
}

/// What a hardware frame's download destination is sized from.
#[derive(Clone, Copy, Debug, PartialEq, Eq, Structural)]
pub enum TransferExtent {
    /// Not a hardware frame: the transfer allocates nothing and refuses it
    /// on its own.
    NotHardware,
    /// A hardware frame whose pool extent cannot be read.
    Unreadable,
    /// The pool's allocated extent; a pool whose width or height is not
    /// positive is as unreadable as a missing one.
    Pool { width: i32, height: i32 },
}

/// A candidate format's cost: its own price, else the dimension-only bound.
pub open spec fn candidate_cost(price: Option<usize>, bound: Option<usize>) -> Option<usize> {
    if price is Some {
        price
    } else {
        bound
    }
}

/// The worst cost over `prices`, or `None` when one candidate cannot be
/// priced at all.
pub open spec fn worst_candidate(prices: Seq<Option<usize>>, bound: Option<usize>) -> Option<int>
    decreases prices.len(),
{
    if prices.len() == 0 {
        Some(0)
    } else {
        match (worst_candidate(prices.drop_last(), bound), candidate_cost(prices.last(), bound)) {
            (Some(w), Some(c)) => Some(if c as int > w {
                c as int
            } else {
                w
            }),
            _ => None,
        }
    }
}

/// **The transfer judge's rule**, as the bytes it would refuse with.
///
/// FFmpeg picks the download format from the candidate list, so the bound
/// is the worst candidate; an unpriceable candidate is charged the
/// dimension-only bound, and where even that cannot be formed the extent
/// is not a picture and the transfer is refused as unbounded. With no
/// candidate list (or an empty one) the bound stands in. Only the pool
/// extent is ever priced — never the display extent.
pub open spec fn spec_judge_transfer(
    extent: TransferExtent,
    candidates: Option<Seq<Option<usize>>>,
    bound: Option<usize>,
    limit: usize,
) -> Option<int> {
    match extent {
        TransferExtent::NotHardware => None,
        TransferExtent::Unreadable => Some(usize::MAX as int),
        TransferExtent::Pool { width, height } => if width <= 0 || height <= 0 {
            Some(usize::MAX as int)
        } else {
            let worst = match candidates {
                Some(c) => if c.len() > 0 {
                    worst_candidate(c, bound)
                } else {
                    match bound {
                        Some(b) => Some(b as int),
                        None => None,
                    }
                },
                None => match bound {
                    Some(b) => Some(b as int),
                    None => None,
                },
            };
            match worst {
                None => Some(usize::MAX as int),
                Some(w) => if w > limit {
                    Some(w)
                } else {
                    None
                },
            }
        },
    }
}

/// Prices the CPU frame a hardware download would allocate and refuses it
/// over `limit` — **before** the transfer runs.
///
/// `candidates` holds, for each destination format the transfer may pick,
/// its footprint at the pool extent (`None` where it cannot be sized);
/// `None` when the list could not be obtained. `bound` is the
/// dimension-only upper bound at the pool extent.
pub fn judge_hw_transfer(
    extent: TransferExtent,
    candidates: Option<&[Option<usize>]>,
    bound: Option<usize>,
    limit: usize,
) -> (r: Result<(), HwTransferTooLarge>)
    ensures
        match spec_judge_transfer(
            extent,
            match candidates {
                Some(c) => Some(c@),
                None => None,
            },
            bound,
            limit,
        ) {
            None => r is Ok,
            Some(bytes) => r matches Err(e) && e.spec_bytes() == bytes && e.spec_limit() == limit,
        },
{
    match extent {
        TransferExtent::NotHardware => return Ok(()),
        TransferExtent::Unreadable => return Err(HwTransferTooLarge::new(usize::MAX, limit)),
        TransferExtent::Pool { width, height } => if width <= 0 || height <= 0 {
            return Err(HwTransferTooLarge::new(usize::MAX, limit));
        },
    }
    let mut worst: usize = 0;
    let mut judged_any = false;
    match candidates {
        Some(list) => {
            let len = list.len();
            let mut i: usize = 0;
            proof {
                assert(list@.take(0) =~= Seq::<Option<usize>>::empty());
            }
            while i < len
                invariant
                    extent is Pool,
                    candidates == Some(list),
                    len == list@.len(),
                    i <= len,
                    worst_candidate(list@.take(i as int), bound) == Some(worst as int),
                    judged_any == (i > 0),
                decreases len - i,
            {
                proof {
                    assert(list@.take(i + 1).drop_last() =~= list@.take(i as int));
                }
                let cost = match list[i] {
                    Some(price) => Some(price),
                    None => bound,
                };
                match cost {
                    Some(size) => {
                        if size > worst {
                            worst = size;
                        }
                        judged_any = true;
                    },
                    None => {
                        proof {
                            assert(worst_candidate(list@.take(i + 1), bound) is None);
                            lemma_none_persists(list@, bound, i as int + 1);
                            assert(list@.len() > 0);
                            assert(spec_judge_transfer(extent, Some(list@), bound, limit) == Some(
                                usize::MAX as int,
                            ));
                        }
                        return Err(HwTransferTooLarge::new(usize::MAX, limit));
                    },
                }
                i = i + 1;
            }
            proof {
                assert(list@.take(len as int) =~= list@);
            }
        },
        None => {},
    }
    if !judged_any {
        match bound {
            Some(b) => {
                worst = b;
            },
            None => return Err(HwTransferTooLarge::new(usize::MAX, limit)),
        }
    }
    if worst > limit {
        return Err(HwTransferTooLarge::new(worst, limit));
    }
    Ok(())
}

proof fn lemma_none_persists(prices: Seq<Option<usize>>, bound: Option<usize>, i: int)
    requires
        0 <= i <= prices.len(),
        worst_candidate(prices.take(i), bound) is None,
    ensures
        worst_candidate(prices, bound) is None,
    decreases prices.len() - i,
{
    if i < prices.len() {
        assert(prices.take(i + 1).drop_last() =~= prices.take(i));
        lemma_none_persists(prices, bound, i + 1);
    } else {
        assert(prices.take(i) =~= prices);
    }
}

/// Whether a candidate replaying the history may receive one more frame
/// before its download: the queue must be under [`MAX_PROBE_PENDING_FRAMES`]
/// frames and `max_bytes`, the pool must be sizeable, and the download's
/// estimate must fit. A refusal fails the candidate with `ENOMEM`.
pub open spec fn spec_pre_transfer(pending_frames: usize, pending_bytes: usize, max_bytes: usize, estimate: Option<usize>) -> bool {
    &&& pending_frames < MAX_PROBE_PENDING_FRAMES
    &&& pending_bytes < max_bytes
    &&& estimate matches Some(e) && sat_add(pending_bytes as int, e as int) <= max_bytes
}

/// Judges a drained frame before its download.
pub fn pre_transfer_admission(pending_frames: usize, pending_bytes: usize, max_bytes: usize, estimate: Option<usize>) -> (r: Result<(), AvError>)
    ensures
        spec_pre_transfer(pending_frames, pending_bytes, max_bytes, estimate) ==> r is Ok,
        !spec_pre_transfer(pending_frames, pending_bytes, max_bytes, estimate) ==> r == Err::<(), AvError>(AvError::Other { errno: Errno::OutOfMemory }),
{
    if pending_frames >= MAX_PROBE_PENDING_FRAMES || pending_bytes >= max_bytes {
        return Err(AvError::Other { errno: Errno::OutOfMemory });
    }
    match estimate {
        Some(e) => if pending_bytes.saturating_add(e) > max_bytes {
            Err(AvError::Other { errno: Errno::OutOfMemory })
        } else {
            Ok(())
        },
        None => Err(AvError::Other { errno: Errno::OutOfMemory }),
    }
}

/// What the queue weighs with a downloaded frame added: its exact size
/// plus the side data that rides along. A frame that cannot be sized, or
/// that would push the queue past `max_bytes`, fails the candidate with
/// `ENOMEM`.
pub fn queue_admission(pending_bytes: usize, pixel_bytes: Option<usize>, side_data_bytes: usize, max_bytes: usize) -> (r: Result<usize, AvError>)
    ensures
        match pixel_bytes {
            None => r == Err::<usize, AvError>(AvError::Other { errno: Errno::OutOfMemory }),
            Some(p) => {
                let total = sat_add(sat_add(pending_bytes as int, p as int), side_data_bytes as int);
                if total > max_bytes {
                    r == Err::<usize, AvError>(AvError::Other { errno: Errno::OutOfMemory })
                } else {
                    r == Ok::<usize, AvError>(total as usize)
                }
            },
        },
{
    match pixel_bytes {
        None => Err(AvError::Other { errno: Errno::OutOfMemory }),
        Some(p) => {
            let total = pending_bytes.saturating_add(p).saturating_add(side_data_bytes);
            if total > max_bytes {
                Err(AvError::Other { errno: Errno::OutOfMemory })
            } else {
                Ok(total)
            }
        },
    }
}

/// **A drained frame, judged before its download**: the replay queue's
/// frame and byte caps and the download's estimate first, each refused
/// with `ENOMEM` — the candidate is producing more than can be held —
/// and then the frame ceiling's verdict on the download itself, refused
/// with `EINVAL`. A refusal fails the candidate.
pub fn drain_pre_transfer(
    pending_frames: usize,
    pending_bytes: usize,
    max_bytes: usize,
    estimate: Option<usize>,
    transfer: Result<(), HwTransferTooLarge>,
) -> (r: Result<(), AvError>)
    ensures
        !spec_pre_transfer(pending_frames, pending_bytes, max_bytes, estimate) ==> r == Err::<
            (),
            AvError,
        >(AvError::Other { errno: Errno::OutOfMemory }),
        spec_pre_transfer(pending_frames, pending_bytes, max_bytes, estimate) ==> match transfer {
            Ok(()) => r is Ok,
            Err(_) => r == Err::<(), AvError>(AvError::Other { errno: Errno::InvalidArgument }),
        },
{
    match pre_transfer_admission(pending_frames, pending_bytes, max_bytes, estimate) {
        Ok(()) => {},
        Err(e) => return Err(e),
    }
    match transfer {
        Ok(()) => Ok(()),
        Err(_) => Err(AvError::Other { errno: Errno::InvalidArgument }),
    }
}

/// **The replay queue never outgrows its caps.** A frame that passed the
/// pre-transfer judgement and whose queue charge was admitted leaves the
/// queue within [`MAX_PROBE_PENDING_FRAMES`] frames and `max_bytes` bytes,
/// whatever it weighed; a queue within its caps stays within them.
pub proof fn law_drain_queue_bounded(
    pending_frames: usize,
    pending_bytes: usize,
    max_bytes: usize,
    estimate: Option<usize>,
    pixel_bytes: usize,
    side_data_bytes: usize,
)
    requires
        spec_pre_transfer(pending_frames, pending_bytes, max_bytes, estimate),
        sat_add(sat_add(pending_bytes as int, pixel_bytes as int), side_data_bytes as int) <= max_bytes,
    ensures
        pending_frames + 1 <= MAX_PROBE_PENDING_FRAMES,
        sat_add(sat_add(pending_bytes as int, pixel_bytes as int), side_data_bytes as int) <= max_bytes,
        pending_bytes <= sat_add(sat_add(pending_bytes as int, pixel_bytes as int), side_data_bytes as int),
{
}

/// A frame a candidate produced while it was replayed the history, as
/// judged before its download: the download's estimate, and the frame
/// ceiling's verdict on it.
#[derive(Clone, Copy, Debug)]
pub struct DrainedFrame {
    pub estimate: Option<usize>,
    pub transfer: Result<(), HwTransferTooLarge>,
}

/// What a drain does with what the candidate's output produced.
#[derive(Clone, Copy, Debug, PartialEq, Eq, Structural)]
pub enum DrainStep {
    /// Back pressure or the end: the candidate produced everything it is
    /// going to for now.
    Done,
    /// The candidate fails with this error.
    Fail(AvError),
    /// Download the frame, then weigh it with [`drain_queue_step`].
    Download,
}

/// The drain's rule for what the candidate's output produced.
pub open spec fn spec_drain_step(
    pending_frames: usize,
    pending_bytes: usize,
    max_bytes: usize,
    received: Result<DrainedFrame, AvError>,
) -> DrainStep {
    match received {
        Err(e) => if crate::averror::spec_is_transient(e) {
            DrainStep::Done
        } else {
            DrainStep::Fail(e)
        },
        Ok(frame) => if !spec_pre_transfer(pending_frames, pending_bytes, max_bytes, frame.estimate) {
            DrainStep::Fail(AvError::Other { errno: Errno::OutOfMemory })
        } else if frame.transfer is Err {
            DrainStep::Fail(AvError::Other { errno: Errno::InvalidArgument })
        } else {
            DrainStep::Download
        },
    }
}

/// **One step of draining a candidate during replay.** A receive that
/// answers a flow signal ends the drain; any other error fails the
/// candidate; a frame is judged before its download by
/// [`drain_pre_transfer`].
pub fn drain_step(
    pending_frames: usize,
    pending_bytes: usize,
    max_bytes: usize,
    received: Result<DrainedFrame, AvError>,
) -> (r: DrainStep)
    ensures
        r == spec_drain_step(pending_frames, pending_bytes, max_bytes, received),
{
    match received {
        Err(e) => if crate::averror::is_transient(&e) {
            DrainStep::Done
        } else {
            DrainStep::Fail(e)
        },
        Ok(frame) => match drain_pre_transfer(
            pending_frames,
            pending_bytes,
            max_bytes,
            frame.estimate,
            frame.transfer,
        ) {
            Ok(()) => DrainStep::Download,
            Err(e) => DrainStep::Fail(e),
        },
    }
}

/// The queue's rule for a downloaded frame: its new weight, or the error
/// that fails the candidate.
pub open spec fn spec_drain_queue_step(
    supported_format: bool,
    pending_bytes: usize,
    pixel_bytes: Option<usize>,
    side_data_bytes: usize,
    max_bytes: usize,
) -> Result<usize, AvError> {
    if !supported_format {
        Err(AvError::Other { errno: Errno::InvalidArgument })
    } else {
        match pixel_bytes {
            None => Err(AvError::Other { errno: Errno::OutOfMemory }),
            Some(p) => {
                let total = sat_add(sat_add(pending_bytes as int, p as int), side_data_bytes as int);
                if total > max_bytes {
                    Err(AvError::Other { errno: Errno::OutOfMemory })
                } else {
                    Ok(total as usize)
                }
            },
        }
    }
}

/// **A downloaded frame, weighed before it is queued.** A pixel format
/// the public frame cannot carry fails the candidate with `EINVAL`; then
/// the frame's exact size and the side data riding along must fit the
/// queue's byte cap, as [`queue_admission`] rules. `Ok` is the queue's new
/// weight.
pub fn drain_queue_step(
    supported_format: bool,
    pending_bytes: usize,
    pixel_bytes: Option<usize>,
    side_data_bytes: usize,
    max_bytes: usize,
) -> (r: Result<usize, AvError>)
    ensures
        r == spec_drain_queue_step(supported_format, pending_bytes, pixel_bytes, side_data_bytes, max_bytes),
{
    if !supported_format {
        return Err(AvError::Other { errno: Errno::InvalidArgument });
    }
    queue_admission(pending_bytes, pixel_bytes, side_data_bytes, max_bytes)
}


/// What the transfer charges candidate `i`: its own price, else the
/// dimension-only bound.
pub open spec fn spec_charge_of(prices: Seq<Option<usize>>, bound: Option<usize>, i: int) -> Option<usize> {
    match prices[i] {
        Some(p) => Some(p),
        None => bound,
    }
}

proof fn lemma_worst_dominates(prices: Seq<Option<usize>>, bound: Option<usize>)
    requires
        forall|i: int| 0 <= i < prices.len() ==> spec_charge_of(prices, bound, i) is Some,
    ensures
        worst_candidate(prices, bound) is Some,
        forall|i: int|
            0 <= i < prices.len() ==> (spec_charge_of(prices, bound, i)->Some_0 as int) <= worst_candidate(
                prices,
                bound,
            )->Some_0,
        prices.len() == 0 ==> worst_candidate(prices, bound) == Some(0int),
        prices.len() > 0 ==> exists|i: int|
            0 <= i < prices.len() && (spec_charge_of(prices, bound, i)->Some_0 as int) == worst_candidate(
                prices,
                bound,
            )->Some_0,
    decreases prices.len(),
{
    if prices.len() > 0 {
        let init = prices.drop_last();
        assert forall|i: int| 0 <= i < init.len() implies spec_charge_of(init, bound, i) is Some by {
            assert(init[i] == prices[i]);
            assert(spec_charge_of(prices, bound, i) is Some);
        }
        lemma_worst_dominates(init, bound);
        let last = prices.len() - 1;
        assert(spec_charge_of(prices, bound, last) is Some);
        assert forall|i: int| 0 <= i < init.len() implies spec_charge_of(init, bound, i) == spec_charge_of(
            prices,
            bound,
            i,
        ) by {
            assert(init[i] == prices[i]);
        }
        let w = worst_candidate(prices, bound)->Some_0;
        let wi = worst_candidate(init, bound)->Some_0;
        let c = spec_charge_of(prices, bound, last)->Some_0 as int;
        if c > wi {
            assert((spec_charge_of(prices, bound, last)->Some_0 as int) == w);
        } else if init.len() == 0 {
            assert(c == 0);
            assert((spec_charge_of(prices, bound, last)->Some_0 as int) == w);
        } else {
            let j = choose|j: int|
                0 <= j < init.len() && (spec_charge_of(init, bound, j)->Some_0 as int) == wi;
            assert((spec_charge_of(prices, bound, j)->Some_0 as int) == w);
        }
    }
}

proof fn lemma_unpriceable_poisons(prices: Seq<Option<usize>>, bound: Option<usize>, k: int)
    requires
        0 <= k < prices.len(),
        spec_charge_of(prices, bound, k) is None,
    ensures
        worst_candidate(prices, bound) is None,
    decreases prices.len(),
{
    let init = prices.drop_last();
    if k < prices.len() - 1 {
        assert(init[k] == prices[k]);
        lemma_unpriceable_poisons(init, bound, k);
    }
}

/// **The transfer is charged its worst candidate.** FFmpeg picks the
/// download's format from the candidate list, so on a readable pool every
/// candidate that can be priced is charged at most the refused amount; the
/// refused amount is one of the candidates' charges and is over the
/// ceiling; and a list whose every charge fits is let through.
pub proof fn law_transfer_charges_the_worst_candidate(
    width: i32,
    height: i32,
    prices: Seq<Option<usize>>,
    bound: Option<usize>,
    limit: usize,
)
    requires
        width > 0,
        height > 0,
        prices.len() > 0,
        forall|i: int| 0 <= i < prices.len() ==> spec_charge_of(prices, bound, i) is Some,
    ensures
        ({
            let verdict = spec_judge_transfer(TransferExtent::Pool { width, height }, Some(prices), bound, limit);
            &&& verdict matches Some(bytes) ==> bytes > limit && (forall|i: int|
                0 <= i < prices.len() ==> (spec_charge_of(prices, bound, i)->Some_0 as int) <= bytes)
                && (exists|i: int|
                0 <= i < prices.len() && (spec_charge_of(prices, bound, i)->Some_0 as int) == bytes)
            &&& verdict is None <==> (forall|i: int|
                0 <= i < prices.len() ==> (spec_charge_of(prices, bound, i)->Some_0 as int) <= limit)
        }),
{
    lemma_worst_dominates(prices, bound);
    let w = worst_candidate(prices, bound)->Some_0;
    if w <= limit {
        assert forall|i: int| 0 <= i < prices.len() implies (spec_charge_of(prices, bound, i)->Some_0 as int)
            <= limit by {}
    } else {
        let j = choose|j: int| 0 <= j < prices.len() && (spec_charge_of(prices, bound, j)->Some_0 as int) == w;
        assert(!(spec_charge_of(prices, bound, j)->Some_0 as int <= limit));
    }
}

/// **What cannot be priced is refused as unbounded.** A hardware frame
/// whose pool cannot be read, or reads as no picture, and a candidate that
/// has neither a price nor a dimension bound to stand in, are each refused
/// with `usize::MAX` bytes; a frame that is not a hardware frame is never
/// refused here.
pub proof fn law_transfer_fails_closed(
    extent: TransferExtent,
    prices: Option<Seq<Option<usize>>>,
    bound: Option<usize>,
    limit: usize,
)
    ensures
        extent is NotHardware ==> spec_judge_transfer(extent, prices, bound, limit) is None,
        extent is Unreadable ==> spec_judge_transfer(extent, prices, bound, limit) == Some(usize::MAX as int),
        (extent matches TransferExtent::Pool { width, height } && (width <= 0 || height <= 0))
            ==> spec_judge_transfer(extent, prices, bound, limit) == Some(usize::MAX as int),
        (extent matches TransferExtent::Pool { width, height } && width > 0 && height > 0 && bound is None
            && (prices is None || (prices matches Some(list) && list.len() == 0))) ==> spec_judge_transfer(
            extent,
            prices,
            bound,
            limit,
        ) == Some(usize::MAX as int),
{
}

/// **Without a candidate list the dimension bound stands in**: the
/// transfer is refused with the bound exactly when the bound is over the
/// ceiling.
pub proof fn law_bound_stands_in_without_candidates(
    width: i32,
    height: i32,
    prices: Option<Seq<Option<usize>>>,
    bound: usize,
    limit: usize,
)
    requires
        width > 0,
        height > 0,
        prices is None || prices == Some(Seq::<Option<usize>>::empty()),
    ensures
        bound > limit ==> spec_judge_transfer(TransferExtent::Pool { width, height }, prices, Some(bound), limit)
            == Some(bound as int),
        bound <= limit ==> spec_judge_transfer(TransferExtent::Pool { width, height }, prices, Some(bound), limit)
            is None,
{
}

/// **One candidate that cannot be priced makes the whole transfer
/// unbounded**, whatever the others cost: FFmpeg may pick it.
pub proof fn law_unpriceable_candidate_refuses(
    width: i32,
    height: i32,
    prices: Seq<Option<usize>>,
    bound: Option<usize>,
    limit: usize,
    k: int,
)
    requires
        width > 0,
        height > 0,
        0 <= k < prices.len(),
        prices[k] is None,
        bound is None,
    ensures
        spec_judge_transfer(TransferExtent::Pool { width, height }, Some(prices), bound, limit) == Some(
            usize::MAX as int,
        ),
{
    lemma_unpriceable_poisons(prices, bound, k);
}

/// **A frame is charged every buffer it holds.** With a readable stride,
/// an empty frame weighs nothing, an unpopulated slot adds nothing, and a
/// populated one adds its size, the total stopping at `usize::MAX`; a
/// vertically flipped layout cannot be sized at all.
pub proof fn law_cpu_frame_counts_every_buffer(first_linesize: i32, bufs: Seq<Option<usize>>, size: usize)
    ensures
        first_linesize < 0 ==> spec_cpu_frame_bytes(first_linesize, bufs) is None,
        first_linesize >= 0 ==> spec_cpu_frame_bytes(first_linesize, Seq::<Option<usize>>::empty()) == Some(
            0int,
        ),
        first_linesize >= 0 ==> spec_cpu_frame_bytes(first_linesize, bufs.push(None))
            == spec_cpu_frame_bytes(first_linesize, bufs),
        first_linesize >= 0 ==> (spec_cpu_frame_bytes(first_linesize, bufs) matches Some(before) && 0
            <= before <= usize::MAX && spec_cpu_frame_bytes(first_linesize, bufs.push(Some(size))) == Some(
            if before + size <= usize::MAX {
                before + size
            } else {
                usize::MAX as int
            },
        )),
{
    let f = |b: Option<usize>| if let Some(n) = b { n } else { 0usize };
    assert(Seq::<Option<usize>>::empty().map_values(f) =~= Seq::<usize>::empty());
    assert(bufs.push(None).map_values(f).drop_last() =~= bufs.map_values(f));
    assert(bufs.push(Some(size)).map_values(f).drop_last() =~= bufs.map_values(f));
    lemma_sat_sum_bounded(bufs.map_values(f));
}

proof fn lemma_sat_sum_bounded(s: Seq<usize>)
    ensures
        0 <= sat_sum(0, s) <= usize::MAX,
    decreases s.len(),
{
    if s.len() > 0 {
        lemma_sat_sum_bounded(s.drop_last());
    }
}


/// The plain sum of `s`.
pub open spec fn plain_sum(s: Seq<usize>) -> int
    decreases s.len(),
{
    if s.len() == 0 {
        0
    } else {
        plain_sum(s.drop_last()) + s.last()
    }
}

/// `n`, or `usize::MAX` when `n` is beyond it.
pub open spec fn clamp_to_usize(n: int) -> int {
    if n <= usize::MAX {
        n
    } else {
        usize::MAX as int
    }
}

proof fn lemma_plain_sum_nonneg(s: Seq<usize>)
    ensures
        plain_sum(s) >= 0,
    decreases s.len(),
{
    if s.len() > 0 {
        lemma_plain_sum_nonneg(s.drop_last());
    }
}

proof fn lemma_sat_sum_is_clamped(start: int, s: Seq<usize>)
    requires
        0 <= start <= usize::MAX,
    ensures
        sat_sum(start, s) == clamp_to_usize(start + plain_sum(s)),
    decreases s.len(),
{
    if s.len() > 0 {
        lemma_sat_sum_is_clamped(start, s.drop_last());
        lemma_plain_sum_nonneg(s.drop_last());
    }
}

/// **A packet's side data is charged each walked entry's payload plus the
/// per-entry overhead**, over the first `max_entries` entries at most, the
/// total stopping at `usize::MAX`.
pub proof fn law_packet_side_data_charge(sizes: Seq<usize>, max_entries: usize)
    ensures
        ({
            let walked = if sizes.len() < max_entries {
                sizes.len() as int
            } else {
                max_entries as int
            };
            spec_packet_side_data_bytes(sizes, max_entries) == clamp_to_usize(
                walked * 80 + plain_sum(sizes.take(walked)),
            )
        }),
{
    let walked = if sizes.len() < max_entries {
        sizes.len() as int
    } else {
        max_entries as int
    };
    assert(walked >= 0);
    assert(walked * 80 >= 0) by (nonlinear_arith)
        requires
            walked >= 0,
    ;
    lemma_sat_sum_is_clamped(sat_mul(walked, SIDE_DATA_ENTRY_OVERHEAD as int), sizes.take(walked));
    lemma_plain_sum_nonneg(sizes.take(walked));
}

proof fn lemma_max_positive(sizes: Seq<i32>)
    ensures
        max_positive(sizes) >= 0,
        forall|i: int| 0 <= i < sizes.len() ==> sizes[i] as int <= max_positive(sizes),
        max_positive(sizes) == 0 || exists|i: int| 0 <= i < sizes.len() && sizes[i] as int == max_positive(sizes),
    decreases sizes.len(),
{
    if sizes.len() > 0 {
        let init = sizes.drop_last();
        lemma_max_positive(init);
        assert forall|i: int| 0 <= i < init.len() implies init[i] == sizes[i] by {}
        if max_positive(sizes) != 0 && max_positive(sizes) == max_positive(init) {
            let j = choose|j: int| 0 <= j < init.len() && init[j] as int == max_positive(init);
            assert(sizes[j] as int == max_positive(sizes));
        }
    }
}

/// **The census takes the worst size it saw**: the result is at least
/// every size libavutil reported and never below the floor of
/// [`KNOWN_WORST_BYTES_PER_PIXEL`] a pixel, and it is either that floor or
/// one of the reported sizes.
pub proof fn law_census_takes_the_worst(sizes: Seq<i32>)
    ensures
        spec_worst_bytes_per_probe(sizes) >= 16 * 65536,
        forall|i: int| 0 <= i < sizes.len() ==> sizes[i] as int <= spec_worst_bytes_per_probe(sizes),
        spec_worst_bytes_per_probe(sizes) == 16 * 65536 || exists|i: int|
            0 <= i < sizes.len() && sizes[i] as int == spec_worst_bytes_per_probe(sizes),
{
    lemma_max_positive(sizes);
}

/// **The download estimate is the pool's pixels at the worst rate.** A
/// pool that reads as a picture is charged its width times its height
/// times [`WORST_CASE_BYTES_PER_PIXEL`], stopping at `usize::MAX`; any
/// other pool cannot be estimated.
pub proof fn law_estimate_is_the_pool_at_the_worst_rate(w: i32, h: i32)
    ensures
        (w > 0 && h > 0) ==> spec_pool_dimensions(Some((w, h))) == Some((w, h))
            && spec_estimate_transfer(Some((w, h))) == Some(clamp_to_usize(w * h * 8)),
        !(w > 0 && h > 0) ==> spec_pool_dimensions(Some((w, h))) is None && spec_estimate_transfer(
            Some((w, h)),
        ) is None,
        spec_pool_dimensions(None) is None,
        spec_estimate_transfer(None) is None,
{
    if w > 0 && h > 0 {
        assert(w * h > 0) by (nonlinear_arith)
            requires
                w > 0,
                h > 0,
        ;
        if w * h > usize::MAX {
            assert(w * h * 8 > usize::MAX) by (nonlinear_arith)
                requires
                    w * h > usize::MAX,
            ;
        }
    }
}

} // verus!
