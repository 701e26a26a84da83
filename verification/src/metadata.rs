//! Metadata values: **measured, charged, and only then built.**
//!
//! A container's dictionary values are file-controlled in both size and
//! content. Each one this crate retains is first measured as a borrow of
//! the dictionary's own buffer, then charged its *decoded* size against a
//! whole-file budget, and only a value the budget admitted is decoded into
//! owned text. A value the budget refuses costs no heap at all.
use vstd::prelude::*;
use std::collections::TryReserveError;
use crate::demux_error::{
    ChapterTitleAlloc, ChapterTitleBudgetExhausted, ChapterTitleTooLong, DemuxError,
    TrackMetadataAlloc, TrackMetadataBudgetExhausted, TrackMetadataTooLong,
};
use crate::pricing::sat_add;
use crate::text::{lossy_len, lossy_text, lossy_utf8};

verus! {

/// The longest a single metadata value may be: a value with no terminator
/// within this many bytes is refused rather than truncated — a truncated
/// filename is a different filename.
pub const METADATA_VALUE_MAX_BYTES: usize = 65536;

/// What a metadata dictionary holds for one key, measured and not yet
/// copied.
#[derive(Debug, Clone, Copy)]
pub enum MetadataValue<'a> {
    /// No such key, or a null value.
    Absent,
    /// The value, borrowed from the dictionary, without its terminator.
    Present(&'a [u8]),
    /// No terminator within [`METADATA_VALUE_MAX_BYTES`].
    NotTerminated,
}

/// Measures one dictionary entry without copying it.
///
/// `entry` is the entry's value as the dictionary holds it — `None` when
/// the key is absent or the value is null. The value runs to its first
/// zero byte, which must lie below [`METADATA_VALUE_MAX_BYTES`].
pub fn metadata_value<'a>(entry: Option<&'a [u8]>) -> (r: MetadataValue<'a>)
    ensures
        match entry {
            None => r is Absent,
            Some(window) => match r {
                MetadataValue::Present(bytes) => {
                    &&& bytes@.len() < METADATA_VALUE_MAX_BYTES
                    &&& bytes@.len() < window@.len()
                    &&& window@[bytes@.len() as int] == 0
                    &&& bytes@ == window@.take(bytes@.len() as int)
                    &&& forall|j: int| 0 <= j < bytes@.len() ==> window@[j] != 0
                },
                MetadataValue::NotTerminated => forall|j: int|
                    0 <= j < window@.len() && j < METADATA_VALUE_MAX_BYTES ==> window@[j] != 0,
                MetadataValue::Absent => false,
            },
        },
{
    let window = match entry {
        None => return MetadataValue::Absent,
        Some(w) => w,
    };
    let len = window.len();
    let mut k: usize = 0;
    while k < len && k < METADATA_VALUE_MAX_BYTES
        invariant
            entry == Some(window),
            len == window@.len(),
            k <= len,
            k <= METADATA_VALUE_MAX_BYTES,
            forall|j: int| 0 <= j < k ==> window@[j] != 0,
        decreases len - k,
    {
        if window[k] == 0 {
            let (value, _) = window.split_at(k);
            return MetadataValue::Present(value);
        }
        k = k + 1;
    }
    MetadataValue::NotTerminated
}

/// Why a value meant to be retained was not.
#[derive(Debug, Clone, Copy, PartialEq, Eq, Structural)]
pub enum MetadataFault {
    /// The value has no terminator within the cap.
    TooLong,
    /// Charging the value would bring the total to this, over the budget.
    BudgetExhausted(usize),
    /// The decoded size that could not be reserved.
    Alloc(usize),
}

/// Whether a present value is small enough that its decoded size fits in
/// memory.
pub open spec fn spec_priceable(value: MetadataValue) -> bool {
    value matches MetadataValue::Present(bytes) ==> bytes@.len() <= usize::MAX / 3
}

/// The decoded size a present value is charged.
pub open spec fn spec_decoded(value: MetadataValue) -> int {
    match value {
        MetadataValue::Present(bytes) => lossy_utf8(bytes@).len() as int,
        _ => 0,
    }
}

/// What charging `value` against a budget of `limit`, with `spent` already
/// spent, comes to: the new total, or the fault that refuses it.
pub open spec fn spec_charge(value: MetadataValue, spent: usize, limit: usize) -> Result<usize, MetadataFault> {
    match value {
        MetadataValue::Absent => Ok(spent),
        MetadataValue::NotTerminated => Err(MetadataFault::TooLong),
        MetadataValue::Present(_) => {
            let total = sat_add(spent as int, spec_decoded(value));
            if total > limit {
                Err(MetadataFault::BudgetExhausted(total as usize))
            } else {
                Ok(total as usize)
            }
        },
    }
}

/// **The judging half of retention**: measure and charge, build nothing.
///
/// An absent value is free. An unterminated one is refused. A present one
/// is charged its decoded size; if that brings the total over `limit` it
/// is refused with the total it would have reached, and `spent` does not
/// move. Otherwise `spent` advances and the bytes come back with their
/// price, for the building half.
pub fn charge_metadata<'a>(value: MetadataValue<'a>, spent: &mut usize, limit: usize) -> (r: Result<
    Option<(&'a [u8], usize)>,
    MetadataFault,
>)
    requires
        spec_priceable(value),
    ensures
        match value {
            MetadataValue::Absent => r == Ok::<Option<(&'a [u8], usize)>, MetadataFault>(None)
                && *final(spent) == *old(spent),
            MetadataValue::NotTerminated => r == Err::<Option<(&'a [u8], usize)>, MetadataFault>(
                MetadataFault::TooLong,
            ) && *final(spent) == *old(spent),
            MetadataValue::Present(bytes) => {
                let total = sat_add(*old(spent) as int, spec_decoded(value));
                if total > limit {
                    r == Err::<Option<(&'a [u8], usize)>, MetadataFault>(
                        MetadataFault::BudgetExhausted(total as usize),
                    ) && *final(spent) == *old(spent)
                } else {
                    (r matches Ok(Some((b, d))) && b == bytes && d as int == spec_decoded(value))
                        && *final(spent) == total
                }
            },
        },
        match spec_charge(value, *old(spent), limit) {
            Ok(total) => r is Ok && *final(spent) == total,
            Err(fault) => r == Err::<Option<(&'a [u8], usize)>, MetadataFault>(fault) && *final(spent)
                == *old(spent),
        },
{
    let bytes = match value {
        MetadataValue::Absent => return Ok(None),
        MetadataValue::NotTerminated => return Err(MetadataFault::TooLong),
        MetadataValue::Present(bytes) => bytes,
    };
    let decoded = lossy_len(bytes);
    let total = spent.saturating_add(decoded);
    if total > limit {
        return Err(MetadataFault::BudgetExhausted(total));
    }
    *spent = total;
    Ok(Some((bytes, decoded)))
}

/// **Measure, charge, then materialise — in that order.** Only a value the
/// budget admitted is decoded, through one fallible reservation of exactly
/// its charged size; an allocator refusal is reported with that size.
pub fn retain_metadata(value: MetadataValue<'_>, spent: &mut usize, limit: usize) -> (r: Result<
    Option<String>,
    MetadataFault,
>)
    requires
        spec_priceable(value),
    ensures
        match value {
            MetadataValue::Absent => r matches Ok(None) && *final(spent) == *old(spent),
            MetadataValue::NotTerminated => r == Err::<Option<String>, MetadataFault>(
                MetadataFault::TooLong,
            ) && *final(spent) == *old(spent),
            MetadataValue::Present(bytes) => {
                let total = sat_add(*old(spent) as int, spec_decoded(value));
                if total > limit {
                    r == Err::<Option<String>, MetadataFault>(
                        MetadataFault::BudgetExhausted(total as usize),
                    ) && *final(spent) == *old(spent)
                } else {
                    *final(spent) == total && match r {
                        Ok(Some(text)) => text@ == crate::text::spec_lossy_text(bytes@),
                        Err(fault) => (fault matches MetadataFault::Alloc(d) && d as int == spec_decoded(
                            value,
                        )),
                        Ok(None) => false,
                    }
                }
            },
        },
        (value is Present && spec_decoded(value) == 0 && sat_add(*old(spent) as int, 0) <= limit)
            ==> (r matches Ok(Some(text)) && text@.len() == 0),
{
    let admitted = charge_metadata(value, spent, limit);
    let (bytes, decoded) = match admitted {
        Ok(Some(pair)) => pair,
        Ok(None) => return Ok(None),
        Err(fault) => return Err(fault),
    };
    let built: Result<String, TryReserveError> = lossy_text(bytes, decoded);
    match built {
        Ok(text) => Ok(Some(text)),
        Err(_) => Err(MetadataFault::Alloc(decoded)),
    }
}

/// The three keys a track row retains, in the order they are read.
pub fn retained_stream_metadata() -> (r: [&'static str; 3])
    ensures
        r@[0]@ == "filename"@,
        r@[1]@ == "mimetype"@,
        r@[2]@ == "language"@,
{
    proof {
        reveal_strlit("filename");
        reveal_strlit("mimetype");
        reveal_strlit("language");
    }
    ["filename", "mimetype", "language"]
}

/// The error a chapter title's fault becomes.
pub open spec fn spec_chapter_title_error(index: usize, fault: MetadataFault, title_budget: usize, e: DemuxError) -> bool {
    match fault {
        MetadataFault::TooLong => e matches DemuxError::ChapterTitleTooLong(p) && p.spec_index()
            == index && p.spec_limit() == METADATA_VALUE_MAX_BYTES,
        MetadataFault::BudgetExhausted(total) => e matches DemuxError::ChapterTitleBudgetExhausted(p)
            && p.spec_index() == index && p.spec_bytes() == total && p.spec_limit() == title_budget,
        MetadataFault::Alloc(bytes) => e matches DemuxError::ChapterTitleAlloc(p) && p.spec_index()
            == index && p.spec_bytes() == bytes,
    }
}

/// Names the fault a chapter's title ran into — one mapper, so the
/// admission pass and the materialisation report it the same way.
pub fn chapter_title_error(index: usize, fault: MetadataFault, title_budget: usize) -> (r: DemuxError)
    ensures
        spec_chapter_title_error(index, fault, title_budget, r),
{
    match fault {
        MetadataFault::TooLong => DemuxError::ChapterTitleTooLong(
            ChapterTitleTooLong::new(index, METADATA_VALUE_MAX_BYTES),
        ),
        MetadataFault::BudgetExhausted(total) => DemuxError::ChapterTitleBudgetExhausted(
            ChapterTitleBudgetExhausted::new(index, total, title_budget),
        ),
        MetadataFault::Alloc(bytes) => DemuxError::ChapterTitleAlloc(ChapterTitleAlloc::new(index, bytes)),
    }
}

/// The error a stream metadata value's fault becomes.
pub open spec fn spec_stream_metadata_error(
    index: usize,
    key: &'static str,
    fault: MetadataFault,
    metadata_budget: usize,
    e: DemuxError,
) -> bool {
    match fault {
        MetadataFault::TooLong => e matches DemuxError::TrackMetadataTooLong(p) && p.spec_stream_index()
            == index && p.spec_key() == key && p.spec_limit() == METADATA_VALUE_MAX_BYTES,
        MetadataFault::BudgetExhausted(total) => e matches DemuxError::TrackMetadataBudgetExhausted(p)
            && p.spec_stream_index() == index && p.spec_key() == key && p.spec_bytes() == total
            && p.spec_limit() == metadata_budget,
        MetadataFault::Alloc(bytes) => e matches DemuxError::TrackMetadataAlloc(p)
            && p.spec_stream_index() == index && p.spec_key() == key && p.spec_bytes() == bytes,
    }
}

/// Names the fault a stream's metadata value ran into, for the key it was
/// reading.
pub fn stream_metadata_error(index: usize, key: &'static str, fault: MetadataFault, metadata_budget: usize) -> (r: DemuxError)
    ensures
        spec_stream_metadata_error(index, key, fault, metadata_budget, r),
{
    match fault {
        MetadataFault::TooLong => DemuxError::TrackMetadataTooLong(
            TrackMetadataTooLong::new(index, key, METADATA_VALUE_MAX_BYTES),
        ),
        MetadataFault::BudgetExhausted(total) => DemuxError::TrackMetadataBudgetExhausted(
            TrackMetadataBudgetExhausted::new(index, key, total, metadata_budget),
        ),
        MetadataFault::Alloc(bytes) => DemuxError::TrackMetadataAlloc(TrackMetadataAlloc::new(index, key, bytes)),
    }
}

} // verus!
