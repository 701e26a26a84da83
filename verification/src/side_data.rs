//! Which frame side data survives a copy.
//!
//! A decoded frame's side data is file-controlled in both kind and size.
//! Only the kinds named here are carried from a decoder's frame to the one
//! handed out; everything else is dropped, and an integer this table does
//! not name is never turned into a kind.
use vstd::prelude::*;
use crate::pricing::{HW_COPY_SIDE_DATA_MAX_ENTRIES, HW_COPY_SIDE_DATA_MAX_TOTAL_BYTES};

verus! {

/// A frame side-data kind this crate carries, by libavutil's name for it:
/// HDR, Dolby Vision and ambient metadata, timecodes, the ICC profile,
/// closed captions, orientation and stereo layout. Decoder-internal kinds
/// — motion vectors, encoder parameters, RPU buffers — are not carried.
#[derive(Clone, Copy, Debug, PartialEq, Eq, Structural)]
pub enum FrameSideDataKind {
    PanScan,
    A53ClosedCaptions,
    Stereo3d,
    DisplayMatrix,
    ActiveFormatDescription,
    MasteringDisplayMetadata,
    GopTimecode,
    Spherical,
    ContentLightLevel,
    IccProfile,
    S12mTimecode,
    DynamicHdrPlus,
    RegionsOfInterest,
    SeiUnregistered,
    FilmGrainParams,
    DoviMetadata,
    DynamicHdrVivid,
    AmbientViewingEnvironment,
}

/// The `AVFrameSideDataType` code libavutil gives each kind, as numbered
/// since FFmpeg 5 (the numbering this crate's FFmpeg bindings carry); the
/// codes are written here rather than read from the linked bindings.
pub open spec fn side_data_code(kind: FrameSideDataKind) -> i32 {
    match kind {
        FrameSideDataKind::PanScan => 0,
        FrameSideDataKind::A53ClosedCaptions => 1,
        FrameSideDataKind::Stereo3d => 2,
        FrameSideDataKind::DisplayMatrix => 6,
        FrameSideDataKind::ActiveFormatDescription => 7,
        FrameSideDataKind::MasteringDisplayMetadata => 11,
        FrameSideDataKind::GopTimecode => 12,
        FrameSideDataKind::Spherical => 13,
        FrameSideDataKind::ContentLightLevel => 14,
        FrameSideDataKind::IccProfile => 15,
        FrameSideDataKind::S12mTimecode => 16,
        FrameSideDataKind::DynamicHdrPlus => 17,
        FrameSideDataKind::RegionsOfInterest => 18,
        FrameSideDataKind::SeiUnregistered => 20,
        FrameSideDataKind::FilmGrainParams => 21,
        FrameSideDataKind::DoviMetadata => 24,
        FrameSideDataKind::DynamicHdrVivid => 25,
        FrameSideDataKind::AmbientViewingEnvironment => 26,
    }
}

/// The codes the whitelist carries.
pub open spec fn is_whitelisted_code(raw: i32) -> bool {
    exists|kind: FrameSideDataKind| side_data_code(kind) == raw
}

/// The kind a raw side-data code names, when it is one this crate carries.
///
/// The code is compared against each known constant and the constant is
/// what comes back; a kind is never formed from arbitrary bytes.
pub fn whitelisted_side_data_kind(kind_raw: i32) -> (r: Option<FrameSideDataKind>)
    ensures
        r matches Some(kind) ==> side_data_code(kind) == kind_raw,
        r is None <==> !is_whitelisted_code(kind_raw),
{
    let kind = match kind_raw {
        0 => FrameSideDataKind::PanScan,
        1 => FrameSideDataKind::A53ClosedCaptions,
        2 => FrameSideDataKind::Stereo3d,
        6 => FrameSideDataKind::DisplayMatrix,
        7 => FrameSideDataKind::ActiveFormatDescription,
        11 => FrameSideDataKind::MasteringDisplayMetadata,
        12 => FrameSideDataKind::GopTimecode,
        13 => FrameSideDataKind::Spherical,
        14 => FrameSideDataKind::ContentLightLevel,
        15 => FrameSideDataKind::IccProfile,
        16 => FrameSideDataKind::S12mTimecode,
        17 => FrameSideDataKind::DynamicHdrPlus,
        18 => FrameSideDataKind::RegionsOfInterest,
        20 => FrameSideDataKind::SeiUnregistered,
        21 => FrameSideDataKind::FilmGrainParams,
        24 => FrameSideDataKind::DoviMetadata,
        25 => FrameSideDataKind::DynamicHdrVivid,
        26 => FrameSideDataKind::AmbientViewingEnvironment,
        _ => {
            proof {
                assert forall|kind: FrameSideDataKind| side_data_code(kind) != kind_raw by {
                    match kind {
                        _ => {},
                    }
                }
            }
            return None;
        },
    };
    assert(side_data_code(kind) == kind_raw);
    Some(kind)
}

/// The code a carried kind goes back to libavutil as.
pub fn side_data_code_of(kind: FrameSideDataKind) -> (r: i32)
    ensures
        r == side_data_code(kind),
{
    match kind {
        FrameSideDataKind::PanScan => 0,
        FrameSideDataKind::A53ClosedCaptions => 1,
        FrameSideDataKind::Stereo3d => 2,
        FrameSideDataKind::DisplayMatrix => 6,
        FrameSideDataKind::ActiveFormatDescription => 7,
        FrameSideDataKind::MasteringDisplayMetadata => 11,
        FrameSideDataKind::GopTimecode => 12,
        FrameSideDataKind::Spherical => 13,
        FrameSideDataKind::ContentLightLevel => 14,
        FrameSideDataKind::IccProfile => 15,
        FrameSideDataKind::S12mTimecode => 16,
        FrameSideDataKind::DynamicHdrPlus => 17,
        FrameSideDataKind::RegionsOfInterest => 18,
        FrameSideDataKind::SeiUnregistered => 20,
        FrameSideDataKind::FilmGrainParams => 21,
        FrameSideDataKind::DoviMetadata => 24,
        FrameSideDataKind::DynamicHdrVivid => 25,
        FrameSideDataKind::AmbientViewingEnvironment => 26,
    }
}

/// One `AVFrameSideData` entry of a decoded frame, as read.
#[derive(Clone, Copy, Debug, PartialEq, Eq, Structural)]
pub struct SideDataEntry {
    /// The entry's type, as the integer it is.
    pub kind: i32,
    pub size: usize,
    /// Whether the entry has a payload pointer at all.
    pub has_data: bool,
}

/// One entry chosen for copying: its position, its kind and its size.
#[derive(Clone, Copy, Debug, PartialEq, Eq, Structural)]
pub struct SideDataCopy {
    pub index: usize,
    pub kind: FrameSideDataKind,
    pub size: usize,
}

/// Whether an entry is one a copy may carry: present, non-empty, with a
/// payload, and of a kind the whitelist names.
pub open spec fn spec_copyable(entry: Option<SideDataEntry>) -> bool {
    entry matches Some(e) && e.size != 0 && e.has_data && is_whitelisted_code(e.kind)
}

/// The copyable entries among the first `n`, in order, each with its
/// position, its kind and its size.
pub open spec fn spec_side_data_candidates(entries: Seq<Option<SideDataEntry>>, n: int) -> Seq<SideDataCopy>
    decreases n,
{
    if n <= 0 {
        Seq::empty()
    } else {
        let before = spec_side_data_candidates(entries, n - 1);
        if spec_copyable(entries[n - 1]) {
            let entry = entries[n - 1]->Some_0;
            before.push(
                SideDataCopy {
                    index: (n - 1) as usize,
                    kind: choose|k: FrameSideDataKind| side_data_code(k) == entry.kind,
                    size: entry.size,
                },
            )
        } else {
            before
        }
    }
}

/// What a run of copies totals.
pub open spec fn copy_total(s: Seq<SideDataCopy>) -> int
    decreases s.len(),
{
    if s.len() == 0 {
        0
    } else {
        copy_total(s.drop_last()) + s.last().size
    }
}

/// How many entries a copy walks: at most
/// [`HW_COPY_SIDE_DATA_MAX_ENTRIES`].
pub open spec fn spec_walked(len: int) -> int {
    if len < HW_COPY_SIDE_DATA_MAX_ENTRIES {
        len
    } else {
        HW_COPY_SIDE_DATA_MAX_ENTRIES as int
    }
}

/// Whether `plan` is the copy plan for `entries`: the longest run of the
/// walked entries' candidates, from the first, whose sizes fit the byte
/// cap.
pub open spec fn spec_is_side_data_plan(entries: Seq<Option<SideDataEntry>>, plan: Seq<SideDataCopy>) -> bool {
    let candidates = spec_side_data_candidates(entries, spec_walked(entries.len() as int));
    &&& plan.len() <= candidates.len()
    &&& plan == candidates.take(plan.len() as int)
    &&& copy_total(plan) <= HW_COPY_SIDE_DATA_MAX_TOTAL_BYTES
    &&& plan.len() < candidates.len() ==> copy_total(plan) + candidates[plan.len() as int].size
        > HW_COPY_SIDE_DATA_MAX_TOTAL_BYTES
}

/// **Which side data a copied frame carries.** At most
/// [`HW_COPY_SIDE_DATA_MAX_ENTRIES`] entries are walked; a null entry, an
/// empty one and one of a kind the whitelist does not name are passed by;
/// and the first entry that would take the copied total past
/// [`HW_COPY_SIDE_DATA_MAX_TOTAL_BYTES`] ends the walk, dropping it and
/// everything behind it.
pub fn plan_side_data_copy(entries: &[Option<SideDataEntry>]) -> (r: Vec<SideDataCopy>)
    ensures
        spec_is_side_data_plan(entries@, r@),
{
    let len = entries.len();
    let count = if len < HW_COPY_SIDE_DATA_MAX_ENTRIES {
        len
    } else {
        HW_COPY_SIDE_DATA_MAX_ENTRIES
    };
    let mut chosen: Vec<SideDataCopy> = Vec::new();
    let mut total: usize = 0;
    let mut i: usize = 0;
    while i < count
        invariant_except_break
            count as int == spec_walked(len as int),
            len == entries@.len(),
            count <= len,
            i <= count,
            chosen@ == spec_side_data_candidates(entries@, i as int),
            total == copy_total(chosen@),
            total <= HW_COPY_SIDE_DATA_MAX_TOTAL_BYTES,
        ensures
            total == copy_total(chosen@),
            total <= HW_COPY_SIDE_DATA_MAX_TOTAL_BYTES,
            chosen@.len() <= spec_side_data_candidates(entries@, count as int).len(),
            chosen@ == spec_side_data_candidates(entries@, count as int).take(chosen@.len() as int),
            chosen@.len() < spec_side_data_candidates(entries@, count as int).len() ==> total
                + spec_side_data_candidates(entries@, count as int)[chosen@.len() as int].size
                > HW_COPY_SIDE_DATA_MAX_TOTAL_BYTES,
        decreases count - i,
    {
        match entries[i] {
            None => {},
            Some(entry) => {
                if entry.size != 0 && entry.has_data {
                    match whitelisted_side_data_kind(entry.kind) {
                        None => {},
                        Some(kind) => {
                            proof {
                                lemma_kind_unique(kind, entry.kind);
                            }
                            let next = SideDataCopy { index: i, kind, size: entry.size };
                            let projected = total.saturating_add(entry.size);
                            if projected > HW_COPY_SIDE_DATA_MAX_TOTAL_BYTES {
                                proof {
                                    let all = spec_side_data_candidates(entries@, count as int);
                                    assert(spec_side_data_candidates(entries@, i + 1) == chosen@.push(next));
                                    lemma_candidates_grow(entries@, i + 1, count as int);
                                    assert(all.take(chosen@.len() as int + 1) == chosen@.push(next));
                                    assert(all[chosen@.len() as int] == all.take(chosen@.len() as int + 1)[chosen@.len() as int]);
                                    assert(chosen@ =~= all.take(chosen@.len() as int));
                                }
                                break;
                            }
                            let ghost before = chosen@;
                            chosen.push(next);
                            proof {
                                assert(chosen@.drop_last() =~= before);
                            }
                            total = projected;
                        },
                    }
                }
            },
        }
        i = i + 1;
    }
    proof {
        if i == count {
            assert(spec_side_data_candidates(entries@, count as int).take(chosen@.len() as int) =~= chosen@);
        }
    }
    chosen
}

/// The candidates among fewer entries lead those among more.
proof fn lemma_candidates_grow(entries: Seq<Option<SideDataEntry>>, m: int, n: int)
    requires
        0 <= m <= n,
    ensures
        spec_side_data_candidates(entries, m).len() <= spec_side_data_candidates(entries, n).len(),
        spec_side_data_candidates(entries, n).take(spec_side_data_candidates(entries, m).len() as int)
            == spec_side_data_candidates(entries, m),
    decreases n - m,
{
    if m < n {
        lemma_candidates_grow(entries, m, n - 1);
        let a = spec_side_data_candidates(entries, m);
        let b = spec_side_data_candidates(entries, n - 1);
        let c = spec_side_data_candidates(entries, n);
        assert(c.take(a.len() as int) =~= b.take(a.len() as int));
    } else {
        assert(spec_side_data_candidates(entries, n).take(spec_side_data_candidates(entries, n).len() as int)
            =~= spec_side_data_candidates(entries, n));
    }
}

/// The code names one kind at most.
proof fn lemma_kind_unique(kind: FrameSideDataKind, raw: i32)
    requires
        side_data_code(kind) == raw,
    ensures
        (choose|k: FrameSideDataKind| side_data_code(k) == raw) == kind,
{
    let other = choose|k: FrameSideDataKind| side_data_code(k) == raw;
    assert(side_data_code(other) == raw);
    match kind {
        _ => {},
    }
    match other {
        _ => {},
    }
}


/// **Each carried kind travels under libavutil's own code** for it, and a
/// code names at most one kind: pan-scan 0, A/53 captions 1, stereo 3D 2,
/// display matrix 6, AFD 7, mastering display 11, GOP timecode 12,
/// spherical 13, content light level 14, ICC profile 15, S12M timecode 16,
/// HDR10+ 17, regions of interest 18, unregistered SEI 20, film grain 21,
/// Dolby Vision metadata 24, HDR Vivid 25, ambient viewing environment 26.
pub proof fn law_side_data_codes_are_libavutils()
    ensures
        side_data_code(FrameSideDataKind::PanScan) == 0,
        side_data_code(FrameSideDataKind::A53ClosedCaptions) == 1,
        side_data_code(FrameSideDataKind::Stereo3d) == 2,
        side_data_code(FrameSideDataKind::DisplayMatrix) == 6,
        side_data_code(FrameSideDataKind::ActiveFormatDescription) == 7,
        side_data_code(FrameSideDataKind::MasteringDisplayMetadata) == 11,
        side_data_code(FrameSideDataKind::GopTimecode) == 12,
        side_data_code(FrameSideDataKind::Spherical) == 13,
        side_data_code(FrameSideDataKind::ContentLightLevel) == 14,
        side_data_code(FrameSideDataKind::IccProfile) == 15,
        side_data_code(FrameSideDataKind::S12mTimecode) == 16,
        side_data_code(FrameSideDataKind::DynamicHdrPlus) == 17,
        side_data_code(FrameSideDataKind::RegionsOfInterest) == 18,
        side_data_code(FrameSideDataKind::SeiUnregistered) == 20,
        side_data_code(FrameSideDataKind::FilmGrainParams) == 21,
        side_data_code(FrameSideDataKind::DoviMetadata) == 24,
        side_data_code(FrameSideDataKind::DynamicHdrVivid) == 25,
        side_data_code(FrameSideDataKind::AmbientViewingEnvironment) == 26,
        forall|a: FrameSideDataKind, b: FrameSideDataKind| side_data_code(a) == side_data_code(b) ==> a == b,
{
    assert forall|a: FrameSideDataKind, b: FrameSideDataKind| side_data_code(a) == side_data_code(b) implies a
        == b by {
        match a {
            _ => match b {
                _ => {},
            },
        }
    }
}

/// **The whitelist is exactly the codes of the carried kinds**: every
/// other code — motion vectors, skip samples, encoder parameters, the
/// Dolby Vision RPU buffer and any number libavutil never issued — is
/// dropped.
pub proof fn law_whitelist_is_the_carried_codes(raw: i32)
    ensures
        is_whitelisted_code(raw) <==> (raw == 0 || raw == 1 || raw == 2 || raw == 6 || raw == 7 || raw
            == 11 || raw == 12 || raw == 13 || raw == 14 || raw == 15 || raw == 16 || raw == 17 || raw == 18
            || raw == 20 || raw == 21 || raw == 24 || raw == 25 || raw == 26),
{
    if is_whitelisted_code(raw) {
        let k = choose|k: FrameSideDataKind| side_data_code(k) == raw;
        match k {
            _ => {},
        }
    }
    if raw == 0 {
        assert(side_data_code(FrameSideDataKind::PanScan) == raw);
    } else if raw == 1 {
        assert(side_data_code(FrameSideDataKind::A53ClosedCaptions) == raw);
    } else if raw == 2 {
        assert(side_data_code(FrameSideDataKind::Stereo3d) == raw);
    } else if raw == 6 {
        assert(side_data_code(FrameSideDataKind::DisplayMatrix) == raw);
    } else if raw == 7 {
        assert(side_data_code(FrameSideDataKind::ActiveFormatDescription) == raw);
    } else if raw == 11 {
        assert(side_data_code(FrameSideDataKind::MasteringDisplayMetadata) == raw);
    } else if raw == 12 {
        assert(side_data_code(FrameSideDataKind::GopTimecode) == raw);
    } else if raw == 13 {
        assert(side_data_code(FrameSideDataKind::Spherical) == raw);
    } else if raw == 14 {
        assert(side_data_code(FrameSideDataKind::ContentLightLevel) == raw);
    } else if raw == 15 {
        assert(side_data_code(FrameSideDataKind::IccProfile) == raw);
    } else if raw == 16 {
        assert(side_data_code(FrameSideDataKind::S12mTimecode) == raw);
    } else if raw == 17 {
        assert(side_data_code(FrameSideDataKind::DynamicHdrPlus) == raw);
    } else if raw == 18 {
        assert(side_data_code(FrameSideDataKind::RegionsOfInterest) == raw);
    } else if raw == 20 {
        assert(side_data_code(FrameSideDataKind::SeiUnregistered) == raw);
    } else if raw == 21 {
        assert(side_data_code(FrameSideDataKind::FilmGrainParams) == raw);
    } else if raw == 24 {
        assert(side_data_code(FrameSideDataKind::DoviMetadata) == raw);
    } else if raw == 25 {
        assert(side_data_code(FrameSideDataKind::DynamicHdrVivid) == raw);
    } else if raw == 26 {
        assert(side_data_code(FrameSideDataKind::AmbientViewingEnvironment) == raw);
    }
}

/// **The candidates are the copyable entries, in order, each as it is.**
/// Every candidate is an entry among the first `n` that is present,
/// non-empty, has a payload and a whitelisted code; it keeps that entry's
/// position and size, and its kind is the one that code names. Candidates
/// come in the entries' order, and no copyable entry is left out.
pub proof fn law_candidates_are_the_copyable_entries(entries: Seq<Option<SideDataEntry>>, n: int)
    requires
        0 <= n <= entries.len(),
        entries.len() <= usize::MAX,
    ensures
        ({
            let c = spec_side_data_candidates(entries, n);
            &&& forall|k: int|
                0 <= k < c.len() ==> {
                    &&& 0 <= #[trigger] c[k].index < n
                    &&& entries[c[k].index as int] matches Some(e) && e.size == c[k].size && e.size != 0
                        && e.has_data && side_data_code(c[k].kind) == e.kind
                }
            &&& forall|k1: int, k2: int| 0 <= k1 < k2 < c.len() ==> c[k1].index < c[k2].index
            &&& forall|i: int|
                0 <= i < n && (#[trigger] entries[i] matches Some(e) && e.size != 0 && e.has_data
                    && exists|kind: FrameSideDataKind| side_data_code(kind) == e.kind) ==> exists|k: int|
                    0 <= k < c.len() && c[k].index == i
        }),
    decreases n,
{
    if n > 0 {
        law_candidates_are_the_copyable_entries(entries, n - 1);
        let before = spec_side_data_candidates(entries, n - 1);
        let c = spec_side_data_candidates(entries, n);
        if spec_copyable(entries[n - 1]) {
            let e = entries[n - 1]->Some_0;
            let kind = choose|k: FrameSideDataKind| side_data_code(k) == e.kind;
            assert(side_data_code(kind) == e.kind);
            assert(c.last().index == n - 1);
            assert forall|i: int|
                0 <= i < n && (#[trigger] entries[i] matches Some(e) && e.size != 0 && e.has_data
                    && exists|kind: FrameSideDataKind| side_data_code(kind) == e.kind) implies exists|k: int|
                0 <= k < c.len() && c[k].index == i by {
                if i == n - 1 {
                    assert(c[c.len() - 1].index == i);
                } else {
                    let k = choose|k: int| 0 <= k < before.len() && before[k].index == i;
                    assert(c[k] == before[k]);
                }
            }
            assert forall|k1: int, k2: int| 0 <= k1 < k2 < c.len() implies c[k1].index < c[k2].index by {
                if k2 < before.len() {
                    assert(c[k1] == before[k1] && c[k2] == before[k2]);
                } else {
                    assert(c[k1] == before[k1]);
                    assert(before[k1].index < n - 1);
                }
            }
            assert forall|k: int| 0 <= k < c.len() implies {
                &&& 0 <= #[trigger] c[k].index < n
                &&& entries[c[k].index as int] matches Some(e) && e.size == c[k].size && e.size != 0
                    && e.has_data && side_data_code(c[k].kind) == e.kind
            } by {
                if k < before.len() {
                    assert(c[k] == before[k]);
                }
            }
        } else {
            assert forall|i: int|
                0 <= i < n && (#[trigger] entries[i] matches Some(e) && e.size != 0 && e.has_data
                    && exists|kind: FrameSideDataKind| side_data_code(kind) == e.kind) implies exists|k: int|
                0 <= k < c.len() && c[k].index == i by {
                if i == n - 1 {
                    assert(spec_copyable(entries[n - 1]));
                }
            }
        }
    }
}

/// **A copy's total is the sum of its sizes.**
pub proof fn law_copy_total_adds_sizes(s: Seq<SideDataCopy>, c: SideDataCopy)
    ensures
        copy_total(Seq::<SideDataCopy>::empty()) == 0,
        copy_total(s.push(c)) == copy_total(s) + c.size,
{
    assert(s.push(c).drop_last() =~= s);
}

/// **A copy walks at most the entry cap**, and every entry when there are
/// fewer.
pub proof fn law_walk_is_capped(len: int)
    requires
        len >= 0,
    ensures
        spec_walked(len) <= 64,
        spec_walked(len) <= len,
        len <= 64 ==> spec_walked(len) == len,
        len > 64 ==> spec_walked(len) == 64,
{
}


/// **A copy plan takes the walked entries' candidates in order, as many as
/// fit 256 KiB, and stops at the first that does not.** It walks at most
/// the first 64 entries; it is a prefix of the candidates; what it copies
/// totals at most 262144 bytes; and when it stops short, the next
/// candidate would have taken the total past that.
pub proof fn law_plan_is_the_prefix_that_fits(entries: Seq<Option<SideDataEntry>>, plan: Seq<SideDataCopy>)
    requires
        spec_is_side_data_plan(entries, plan),
    ensures
        ({
            let walked = if entries.len() < 64 {
                entries.len() as int
            } else {
                64
            };
            let candidates = spec_side_data_candidates(entries, walked);
            &&& plan.len() <= candidates.len()
            &&& forall|k: int| 0 <= k < plan.len() ==> plan[k] == candidates[k]
            &&& copy_total(plan) <= 262144
            &&& plan.len() < candidates.len() ==> copy_total(plan) + candidates[plan.len() as int].size > 262144
        }),
{
}
} // verus!
