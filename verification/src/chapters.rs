//! The chapter table: judged whole before anything is materialised, then
//! mirrored into owned rows.
//!
//! The declared count is file-controlled, so it is judged against
//! [`DemuxLimits::max_chapters`] before anything is reserved, and the
//! reservation that follows is fallible. Every chapter's ruler must be a
//! positive rational — whatever wrote the chapter wrote its ruler too, so
//! `0/den` there is malformed, not unset. Titles are charged, decoded, to
//! one whole-table budget.
//!
//! Nothing is repaired: a chapter whose end precedes its start is mirrored
//! exactly as written.
use vstd::prelude::*;
use crate::admission::DemuxLimits;
use crate::demux_error::{ChapterAlloc, ChapterTimebaseInvalid, DemuxError, TooManyChapters};
use crate::metadata::{
    MetadataFault, MetadataValue, charge_metadata, chapter_title_error, retain_metadata,
    spec_chapter_title_error, spec_charge, spec_priceable,
};
use crate::reserve::reserve_exact;
use crate::text::{lossy_utf8, spec_lossy_text};
use crate::timebase::{Rational, Timebase, Timestamp, positive_rational_to_timebase, spec_is_timebase};

verus! {

/// One `AVChapter`, as the container declared it.
#[derive(Clone, Copy, Debug)]
pub struct ChapterRecord<'a> {
    pub id: i64,
    pub time_base: Rational,
    pub start: i64,
    pub end: i64,
    /// The `title` entry of the chapter's dictionary, measured.
    pub title: MetadataValue<'a>,
}

/// A chapter, owned.
#[derive(Debug)]
pub struct Chapter {
    pub id: i64,
    pub time_base: Timebase,
    pub start: Timestamp,
    pub end: Timestamp,
    pub title: Option<String>,
}

/// Why the chapter table refuses the open.
#[derive(Clone, Copy, Debug, PartialEq, Eq, Structural)]
pub enum ChapterRefusal {
    /// More chapters than the limit.
    TooMany,
    /// A ruler that is not a positive rational.
    Timebase { id: i64, declared: Rational },
    /// A title that cannot be retained.
    Title(MetadataFault),
}

/// Whether a chapter's ruler is admitted: positive over positive.
pub open spec fn spec_chapter_ruler(value: Rational) -> bool {
    value.num > 0 && spec_is_timebase(value)
}

/// The error a refusal of chapter `index` of a table of `count` is
/// reported as.
pub open spec fn spec_chapter_error(index: usize, refusal: ChapterRefusal, count: usize, limits: DemuxLimits, e: DemuxError) -> bool {
    match refusal {
        ChapterRefusal::TooMany => e matches DemuxError::TooManyChapters(p) && p.spec_declared() == count
            && p.spec_limit() == limits.max_chapters,
        ChapterRefusal::Timebase { id, declared } => e matches DemuxError::ChapterTimebaseInvalid(p)
            && p.spec_index() == index && p.spec_id() == id && p.spec_num() == declared.num
            && p.spec_den() == declared.den,
        ChapterRefusal::Title(fault) => spec_chapter_title_error(
            index,
            fault,
            limits.max_total_chapter_title_bytes,
            e,
        ),
    }
}

/// The rule for one entry: a null entry is skipped; a chapter is judged by
/// its ruler and then charged its title.
pub open spec fn spec_chapter_step(entry: Option<ChapterRecord>, spent: usize, limits: DemuxLimits) -> Result<usize, ChapterRefusal> {
    match entry {
        None => Ok(spent),
        Some(c) => if !spec_chapter_ruler(c.time_base) {
            Err(ChapterRefusal::Timebase { id: c.id, declared: c.time_base })
        } else {
            match spec_charge(c.title, spent, limits.max_total_chapter_title_bytes) {
                Err(fault) => Err(ChapterRefusal::Title(fault)),
                Ok(next) => Ok(next),
            }
        },
    }
}

/// The rule for the entries from `i` on.
pub open spec fn spec_chapters_from(entries: Seq<Option<ChapterRecord>>, i: int, spent: usize, limits: DemuxLimits) -> Result<usize, (usize, ChapterRefusal)>
    decreases entries.len() - i,
{
    if i >= entries.len() || i < 0 {
        Ok(spent)
    } else {
        match spec_chapter_step(entries[i], spent, limits) {
            Err(refusal) => Err((i as usize, refusal)),
            Ok(next) => spec_chapters_from(entries, i + 1, next, limits),
        }
    }
}

/// **The rule for a whole table**: an empty one is no table; one longer
/// than the limit is refused by its count; otherwise the first entry that
/// refuses, if any, refuses the open.
pub open spec fn spec_admit_chapters(entries: Seq<Option<ChapterRecord>>, limits: DemuxLimits) -> Result<(), (usize, ChapterRefusal)> {
    if entries.len() == 0 {
        Ok(())
    } else if entries.len() > limits.max_chapters {
        Err((0usize, ChapterRefusal::TooMany))
    } else {
        match spec_chapters_from(entries, 0, 0, limits) {
            Ok(_) => Ok(()),
            Err(refused) => Err(refused),
        }
    }
}

/// Whether every title can be priced.
pub open spec fn spec_titles_priceable(entries: Seq<Option<ChapterRecord>>) -> bool {
    forall|i: int| 0 <= i < entries.len() ==> (#[trigger] entries[i] matches Some(c) ==> spec_priceable(
        c.title,
    ))
}

/// Judges one entry, advancing `spent` when it is admitted.
fn admit_chapter(entry: Option<ChapterRecord>, index: usize, count: usize, limits: DemuxLimits, spent: &mut usize) -> (r:
    Result<(), DemuxError>)
    requires
        entry matches Some(c) ==> spec_priceable(c.title),
    ensures
        match spec_chapter_step(entry, *old(spent), limits) {
            Ok(next) => r is Ok && *final(spent) == next,
            Err(refusal) => r matches Err(e) && spec_chapter_error(index, refusal, count, limits, e),
        },
{
    let chapter = match entry {
        None => return Ok(()),
        Some(c) => c,
    };
    match positive_rational_to_timebase(chapter.time_base) {
        Some(_) => {},
        None => return Err(
            DemuxError::ChapterTimebaseInvalid(
                ChapterTimebaseInvalid::new(
                    index,
                    chapter.id,
                    chapter.time_base.num,
                    chapter.time_base.den,
                ),
            ),
        ),
    }
    match charge_metadata(chapter.title, spent, limits.max_total_chapter_title_bytes) {
        Ok(_) => Ok(()),
        Err(fault) => Err(chapter_title_error(index, fault, limits.max_total_chapter_title_bytes)),
    }
}

/// **Judges the whole chapter table before anything is materialised**,
/// allocating not one byte: the declared count against the limit, every
/// chapter's ruler, and every title's decoded size against the title
/// budget.
pub fn admit_chapters(entries: &[Option<ChapterRecord>], limits: DemuxLimits) -> (r: Result<(), DemuxError>)
    requires
        spec_titles_priceable(entries@),
    ensures
        match spec_admit_chapters(entries@, limits) {
            Ok(()) => r is Ok,
            Err((index, refusal)) => r matches Err(e) && spec_chapter_error(
                index,
                refusal,
                entries@.len() as usize,
                limits,
                e,
            ),
        },
{
    let count = entries.len();
    if count == 0 {
        return Ok(());
    }
    if count > limits.max_chapters as usize {
        return Err(DemuxError::TooManyChapters(TooManyChapters::new(count, limits.max_chapters)));
    }
    let mut spent: usize = 0;
    let mut index: usize = 0;
    while index < count
        invariant
            count == entries@.len(),
            0 < count <= limits.max_chapters,
            index <= count,
            spec_titles_priceable(entries@),
            spec_chapters_from(entries@, index as int, spent, limits) == spec_chapters_from(
                entries@,
                0,
                0,
                limits,
            ),
        decreases count - index,
    {
        let entry = entries[index];
        proof {
            assert(entries@[index as int] matches Some(c) ==> spec_priceable(c.title));
        }
        match admit_chapter(entry, index, count, limits, &mut spent) {
            Ok(()) => {},
            Err(e) => return Err(e),
        }
        index = index + 1;
    }
    Ok(())
}

/// The chapters of a table, null entries left out, in order.
pub open spec fn spec_present(entries: Seq<Option<ChapterRecord>>) -> Seq<ChapterRecord>
    decreases entries.len(),
{
    if entries.len() == 0 {
        Seq::empty()
    } else {
        spec_present(entries.drop_last()) + match entries.last() {
            Some(c) => seq![c],
            None => Seq::empty(),
        }
    }
}

/// Whether `row` mirrors `c` exactly: its id, its ruler, both boundaries
/// on that ruler as written, and its title decoded.
pub open spec fn spec_chapter_row(row: Chapter, c: ChapterRecord) -> bool {
    &&& row.id == c.id
    &&& row.time_base.spec_num() == c.time_base.num
    &&& row.time_base.spec_den() == c.time_base.den
    &&& row.start.pts == c.start
    &&& row.start.timebase == row.time_base
    &&& row.end.pts == c.end
    &&& row.end.timebase == row.time_base
    &&& match c.title {
        MetadataValue::Present(bytes) => row.title matches Some(text) && text@ == spec_lossy_text(bytes@),
        _ => row.title is None,
    }
}

/// Whether `e` is an allocator's refusal while building the table of
/// `entries`, once it was admitted: the table itself, reserved at its
/// declared count — which passed the ceiling — or one chapter's title,
/// reserved at its decoded size.
pub open spec fn spec_chapter_alloc_error(e: DemuxError, entries: Seq<Option<ChapterRecord>>, limits: DemuxLimits) -> bool {
    ||| (e matches DemuxError::ChapterAlloc(p) && p.spec_declared() == entries.len() && 0
        < entries.len() <= limits.max_chapters)
    ||| (e matches DemuxError::ChapterTitleAlloc(p) && p.spec_index() < entries.len() && (
    entries[p.spec_index() as int] matches Some(c) && c.title matches MetadataValue::Present(bytes)
        && p.spec_bytes() == lossy_utf8(bytes@).len()))
}

/// The error the allocator's refusal of chapter `index`'s title is
/// reported as.
pub open spec fn spec_title_alloc_error(e: DemuxError, index: usize, chapter: ChapterRecord) -> bool {
    e matches DemuxError::ChapterTitleAlloc(p) && p.spec_index() == index && (chapter.title matches MetadataValue::Present(
        bytes,
    ) && p.spec_bytes() == lossy_utf8(bytes@).len())
}

/// Builds one row, charging its title against `spent`.
fn build_chapter(chapter: ChapterRecord, index: usize, count: usize, limits: DemuxLimits, spent: &mut usize) -> (r:
    Result<Chapter, DemuxError>)
    requires
        spec_priceable(chapter.title),
        index < count,
    ensures
        match spec_chapter_step(Some(chapter), *old(spent), limits) {
            Ok(next) => match r {
                Ok(row) => spec_chapter_row(row, chapter) && *final(spent) == next,
                Err(e) => spec_title_alloc_error(e, index, chapter),
            },
            Err(refusal) => r matches Err(e) && spec_chapter_error(index, refusal, count, limits, e),
        },
{
    let timebase = match positive_rational_to_timebase(chapter.time_base) {
        Some(tb) => tb,
        None => return Err(
            DemuxError::ChapterTimebaseInvalid(
                ChapterTimebaseInvalid::new(
                    index,
                    chapter.id,
                    chapter.time_base.num,
                    chapter.time_base.den,
                ),
            ),
        ),
    };
    let title = match retain_metadata(chapter.title, spent, limits.max_total_chapter_title_bytes) {
        Ok(t) => t,
        Err(fault) => return Err(chapter_title_error(index, fault, limits.max_total_chapter_title_bytes)),
    };
    Ok(
        Chapter {
            id: chapter.id,
            time_base: timebase,
            start: Timestamp { pts: chapter.start, timebase },
            end: Timestamp { pts: chapter.end, timebase },
            title,
        },
    )
}

/// **Mirrors the chapter table into owned rows.** The table is judged
/// whole first — the same count, the same rulers, the same title charges
/// [`admit_chapters`] decides — so a table that is refused is refused
/// before anything is reserved, and the pass that pays cannot refuse what
/// the pass that judged admitted. What only this pass can run into is the
/// allocator, and its refusal is named. An empty table is no table.
pub fn build_chapters(entries: &[Option<ChapterRecord>], limits: DemuxLimits) -> (r: Result<
    Vec<Chapter>,
    DemuxError,
>)
    requires
        spec_titles_priceable(entries@),
    ensures
        entries@.len() == 0 ==> (r matches Ok(rows) && rows@.len() == 0),
        entries@.len() > limits.max_chapters ==> (r matches Err(e) && e matches DemuxError::TooManyChapters(p)
            && p.spec_declared() == entries@.len() && p.spec_limit() == limits.max_chapters),
        match spec_admit_chapters(entries@, limits) {
            Ok(()) => match r {
                Ok(rows) => rows@.len() == spec_present(entries@).len() && forall|k: int|
                    0 <= k < rows@.len() ==> spec_chapter_row(#[trigger] rows@[k], spec_present(entries@)[k]),
                Err(e) => spec_chapter_alloc_error(e, entries@, limits),
            },
            Err((index, refusal)) => r matches Err(e) && spec_chapter_error(
                index,
                refusal,
                entries@.len() as usize,
                limits,
                e,
            ),
        },
{
    let declared = entries.len();
    match admit_chapters(entries, limits) {
        Ok(()) => {},
        Err(e) => {
            proof {
                assert(declared as int == entries@.len());
                if entries@.len() > limits.max_chapters {
                    assert(spec_admit_chapters(entries@, limits) == Err::<(), (usize, ChapterRefusal)>(
                        (0usize, ChapterRefusal::TooMany),
                    ));
                }
            }
            return Err(e);
        },
    }
    let count = entries.len();
    let mut out: Vec<Chapter> = Vec::new();
    if count == 0 {
        proof {
            assert(spec_present(entries@).len() == 0);
        }
        return Ok(out);
    }
    if count > limits.max_chapters as usize {
        return Err(DemuxError::TooManyChapters(TooManyChapters::new(count, limits.max_chapters)));
    }
    match reserve_exact(&mut out, count) {
        Ok(()) => {},
        Err(_) => return Err(DemuxError::ChapterAlloc(ChapterAlloc::new(count))),
    }
    let mut spent: usize = 0;
    let mut index: usize = 0;
    while index < count
        invariant
            count == entries@.len(),
            0 < count <= limits.max_chapters,
            index <= count,
            spec_titles_priceable(entries@),
            spec_chapters_from(entries@, index as int, spent, limits) == spec_chapters_from(
                entries@,
                0,
                0,
                limits,
            ),
            spec_chapters_from(entries@, 0, 0, limits) is Ok,
            out@.len() == spec_present(entries@.take(index as int)).len(),
            forall|k: int|
                0 <= k < out@.len() ==> spec_chapter_row(
                    #[trigger] out@[k],
                    spec_present(entries@.take(index as int))[k],
                ),
        decreases count - index,
    {
        let entry = entries[index];
        proof {
            assert(entries@.take(index + 1).drop_last() == entries@.take(index as int));
            assert(entries@.take(index + 1).last() == entries@[index as int]);
            assert(entries@[index as int] matches Some(c) ==> spec_priceable(c.title));
        }
        match entry {
            None => {},
            Some(chapter) => {
                proof {
                    assert(spec_chapter_step(entries@[index as int], spent, limits) is Ok);
                }
                let ghost before = spent;
                let row = match build_chapter(chapter, index, count, limits, &mut spent) {
                    Ok(row) => row,
                    Err(e) => {
                        proof {
                            assert(entries@[index as int] == Some(chapter));
                            assert(spec_chapter_step(Some(chapter), before, limits) is Ok);
                            assert(spec_chapter_alloc_error(e, entries@, limits));
                        }
                        return Err(e);
                    },
                };
                out.push(row);
            },
        }
        index = index + 1;
    }
    proof {
        assert(entries@.take(count as int) == entries@);
    }
    Ok(out)
}

} // verus!
