//! The demux tier's errors and their payloads.
//!
//! Every refusal names what was being read and the numbers that decided
//! it, reported as the container declared them.
use vstd::prelude::*;
use crate::averror::AvError;

verus! {

/// Why a packet's payload could not be carried.
#[derive(Debug, Clone, Copy, PartialEq, Eq, Structural)]
pub enum PacketBufferError {
    /// The payload is marked as one this layer must not copy.
    Trusted,
    /// The packet's `data`/`size` pair does not lie inside the buffer it
    /// claims.
    OutOfBounds,
    /// Somebody else holds a reference to the buffer.
    Shared,
    /// The packet carries flags outside the portable set.
    UnportableFlags,
    /// The payload is over the packet's own ceiling.
    TooLarge { bytes: usize, limit: usize },
    /// The allocator declined the carrier.
    Alloc,
}

impl PacketBufferError {
    /// Whether another attempt at the same packet could succeed: only an
    /// allocator refusal says nothing about the packet itself.
    pub fn parks_in_demux(&self) -> (r: bool)
        ensures
            r == (*self == PacketBufferError::Alloc),
    {
        matches!(self, PacketBufferError::Alloc)
    }
}

/// What a channel layout can be wrong about.
#[derive(Debug, Clone, Copy, PartialEq, Eq, Structural)]
pub enum ChannelLayoutFault {
    /// A custom order whose map is missing or unusable.
    MalformedCustomMap { channels: i32 },
    /// A custom order whose map's extent cannot be established.
    UnverifiableCustomMap { channels: i32 },
    /// An order and channel count FFmpeg's helpers cannot be given.
    MalformedLayout { order: i32, channels: i32 },
    /// The allocator declined a rendering buffer.
    Alloc,
}

/// Payload for [`DemuxError::ProbeBudgetExhausted`]: libavformat wanted more of
/// the file than the probe budget allows.
#[derive(Debug, Clone, Copy, PartialEq, Eq, Structural)]
pub struct ProbeBudgetExhausted {
    read: u64,
    budget: u64,
}

impl ProbeBudgetExhausted {
    /// Constructs a `ProbeBudgetExhausted` payload.
    pub fn new(read: u64, budget: u64) -> (r: Self)
        ensures
            r.spec_read() == read,
            r.spec_budget() == budget,
    {
        Self { read, budget }
    }

    pub closed spec fn spec_read(&self) -> u64 {
        self.read
    }

    pub closed spec fn spec_budget(&self) -> u64 {
        self.budget
    }

    /// Bytes libavformat was handed before the budget was reached.
    pub fn read(&self) -> (r: u64)
        ensures
            r == self.spec_read(),
    {
        self.read
    }

    /// The budget in force.
    pub fn budget(&self) -> (r: u64)
        ensures
            r == self.spec_budget(),
    {
        self.budget
    }
}

/// Payload for [`DemuxError::AttachmentTooLarge`]: one attachment's payload
/// exceeds the per-attachment budget.
#[derive(Debug, Clone, Copy, PartialEq, Eq, Structural)]
pub struct AttachmentTooLarge {
    stream_index: usize,
    bytes: usize,
    limit: usize,
}

impl AttachmentTooLarge {
    /// Constructs a `AttachmentTooLarge` payload.
    pub fn new(stream_index: usize, bytes: usize, limit: usize) -> (r: Self)
        ensures
            r.spec_stream_index() == stream_index,
            r.spec_bytes() == bytes,
            r.spec_limit() == limit,
    {
        Self { stream_index, bytes, limit }
    }

    pub closed spec fn spec_stream_index(&self) -> usize {
        self.stream_index
    }

    pub closed spec fn spec_bytes(&self) -> usize {
        self.bytes
    }

    pub closed spec fn spec_limit(&self) -> usize {
        self.limit
    }

    /// The `AVStream.index` carrying the oversized attachment.
    pub fn stream_index(&self) -> (r: usize)
        ensures
            r == self.spec_stream_index(),
    {
        self.stream_index
    }

    /// The attachment's payload length.
    pub fn bytes(&self) -> (r: usize)
        ensures
            r == self.spec_bytes(),
    {
        self.bytes
    }

    /// The per-attachment budget in force.
    pub fn limit(&self) -> (r: usize)
        ensures
            r == self.spec_limit(),
    {
        self.limit
    }
}

/// Payload for [`DemuxError::AttachmentBudgetExhausted`]: the file's
/// attachments, together, exceed the whole-file budget. It names the
/// stream that ran the total past the line.
#[derive(Debug, Clone, Copy, PartialEq, Eq, Structural)]
pub struct AttachmentBudgetExhausted {
    stream_index: usize,
    total: usize,
    limit: usize,
}

impl AttachmentBudgetExhausted {
    /// Constructs a `AttachmentBudgetExhausted` payload.
    pub fn new(stream_index: usize, total: usize, limit: usize) -> (r: Self)
        ensures
            r.spec_stream_index() == stream_index,
            r.spec_total() == total,
            r.spec_limit() == limit,
    {
        Self { stream_index, total, limit }
    }

    pub closed spec fn spec_stream_index(&self) -> usize {
        self.stream_index
    }

    pub closed spec fn spec_total(&self) -> usize {
        self.total
    }

    pub closed spec fn spec_limit(&self) -> usize {
        self.limit
    }

    /// The `AVStream.index` whose attachment crossed the line.
    pub fn stream_index(&self) -> (r: usize)
        ensures
            r == self.spec_stream_index(),
    {
        self.stream_index
    }

    /// The running total, including this attachment.
    pub fn total(&self) -> (r: usize)
        ensures
            r == self.spec_total(),
    {
        self.total
    }

    /// The whole-file budget in force.
    pub fn limit(&self) -> (r: usize)
        ensures
            r == self.spec_limit(),
    {
        self.limit
    }
}

/// Payload for [`DemuxError::ParametersTooLarge`]: one stream's codec
/// parameters hold more heap bytes than the per-stream budget allows.
#[derive(Debug, Clone, Copy, PartialEq, Eq, Structural)]
pub struct ParametersTooLarge {
    stream_index: usize,
    bytes: usize,
    limit: usize,
}

impl ParametersTooLarge {
    /// Constructs a `ParametersTooLarge` payload.
    pub fn new(stream_index: usize, bytes: usize, limit: usize) -> (r: Self)
        ensures
            r.spec_stream_index() == stream_index,
            r.spec_bytes() == bytes,
            r.spec_limit() == limit,
    {
        Self { stream_index, bytes, limit }
    }

    pub closed spec fn spec_stream_index(&self) -> usize {
        self.stream_index
    }

    pub closed spec fn spec_bytes(&self) -> usize {
        self.bytes
    }

    pub closed spec fn spec_limit(&self) -> usize {
        self.limit
    }

    /// The `AVStream.index` whose parameters were refused.
    pub fn stream_index(&self) -> (r: usize)
        ensures
            r == self.spec_stream_index(),
    {
        self.stream_index
    }

    /// The heap bytes the parameters declared.
    pub fn bytes(&self) -> (r: usize)
        ensures
            r == self.spec_bytes(),
    {
        self.bytes
    }

    /// The budget in force.
    pub fn limit(&self) -> (r: usize)
        ensures
            r == self.spec_limit(),
    {
        self.limit
    }
}

/// Payload for [`DemuxError::ParametersBudgetExhausted`]: every stream's
/// codec parameters, together, exceed the whole-file budget.
#[derive(Debug, Clone, Copy, PartialEq, Eq, Structural)]
pub struct ParametersBudgetExhausted {
    stream_index: usize,
    total: usize,
    limit: usize,
}

impl ParametersBudgetExhausted {
    /// Constructs a `ParametersBudgetExhausted` payload.
    pub fn new(stream_index: usize, total: usize, limit: usize) -> (r: Self)
        ensures
            r.spec_stream_index() == stream_index,
            r.spec_total() == total,
            r.spec_limit() == limit,
    {
        Self { stream_index, total, limit }
    }

    pub closed spec fn spec_stream_index(&self) -> usize {
        self.stream_index
    }

    pub closed spec fn spec_total(&self) -> usize {
        self.total
    }

    pub closed spec fn spec_limit(&self) -> usize {
        self.limit
    }

    /// The `AVStream.index` whose parameters crossed the line.
    pub fn stream_index(&self) -> (r: usize)
        ensures
            r == self.spec_stream_index(),
    {
        self.stream_index
    }

    /// The running total, including this stream.
    pub fn total(&self) -> (r: usize)
        ensures
            r == self.spec_total(),
    {
        self.total
    }

    /// The whole-file budget in force.
    pub fn limit(&self) -> (r: usize)
        ensures
            r == self.spec_limit(),
    {
        self.limit
    }
}

/// Payload for [`DemuxError::ParametersMissing`]: codec parameters arrived
/// that were never allocated.
#[derive(Debug, Clone, Copy, PartialEq, Eq, Structural)]
pub struct ParametersMissing {
    stream_index: usize,
}

impl ParametersMissing {
    /// Constructs a `ParametersMissing` payload.
    pub fn new(stream_index: usize) -> (r: Self)
        ensures
            r.spec_stream_index() == stream_index,
    {
        Self { stream_index }
    }

    pub closed spec fn spec_stream_index(&self) -> usize {
        self.stream_index
    }

    /// The `AVStream.index` the parameters were offered for.
    pub fn stream_index(&self) -> (r: usize)
        ensures
            r == self.spec_stream_index(),
    {
        self.stream_index
    }
}

/// Payload for [`DemuxError::ParametersAlloc`]: codec parameters for a track
/// could not be allocated.
#[derive(Debug, Clone, Copy, PartialEq, Eq, Structural)]
pub struct ParametersAlloc {
    stream_index: usize,
}

impl ParametersAlloc {
    /// Constructs a `ParametersAlloc` payload.
    pub fn new(stream_index: usize) -> (r: Self)
        ensures
            r.spec_stream_index() == stream_index,
    {
        Self { stream_index }
    }

    pub closed spec fn spec_stream_index(&self) -> usize {
        self.stream_index
    }

    /// The `AVStream.index` whose parameters could not be copied.
    pub fn stream_index(&self) -> (r: usize)
        ensures
            r == self.spec_stream_index(),
    {
        self.stream_index
    }
}

/// Payload for [`DemuxError::TrackTimebaseInvalid`]: a stream declares a
/// timebase that is not one — a zero or negative denominator, or a
/// negative numerator. Reported as the container wrote it.
#[derive(Debug, Clone, Copy, PartialEq, Eq, Structural)]
pub struct TrackTimebaseInvalid {
    stream_index: usize,
    num: i32,
    den: i32,
}

impl TrackTimebaseInvalid {
    /// Constructs a `TrackTimebaseInvalid` payload.
    pub fn new(stream_index: usize, num: i32, den: i32) -> (r: Self)
        ensures
            r.spec_stream_index() == stream_index,
            r.spec_num() == num,
            r.spec_den() == den,
    {
        Self { stream_index, num, den }
    }

    pub closed spec fn spec_stream_index(&self) -> usize {
        self.stream_index
    }

    pub closed spec fn spec_num(&self) -> i32 {
        self.num
    }

    pub closed spec fn spec_den(&self) -> i32 {
        self.den
    }

    /// The `AVStream.index` that declared it.
    pub fn stream_index(&self) -> (r: usize)
        ensures
            r == self.spec_stream_index(),
    {
        self.stream_index
    }

    /// The numerator the container wrote.
    pub fn num(&self) -> (r: i32)
        ensures
            r == self.spec_num(),
    {
        self.num
    }

    /// The denominator the container wrote.
    pub fn den(&self) -> (r: i32)
        ensures
            r == self.spec_den(),
    {
        self.den
    }
}

/// Payload for [`DemuxError::ChapterTimebaseInvalid`]: a chapter declares a
/// timebase that cannot rule its span — including a zero numerator.
#[derive(Debug, Clone, Copy, PartialEq, Eq, Structural)]
pub struct ChapterTimebaseInvalid {
    index: usize,
    id: i64,
    num: i32,
    den: i32,
}

impl ChapterTimebaseInvalid {
    /// Constructs a `ChapterTimebaseInvalid` payload.
    pub fn new(index: usize, id: i64, num: i32, den: i32) -> (r: Self)
        ensures
            r.spec_index() == index,
            r.spec_id() == id,
            r.spec_num() == num,
            r.spec_den() == den,
    {
        Self { index, id, num, den }
    }

    pub closed spec fn spec_index(&self) -> usize {
        self.index
    }

    pub closed spec fn spec_id(&self) -> i64 {
        self.id
    }

    pub closed spec fn spec_num(&self) -> i32 {
        self.num
    }

    pub closed spec fn spec_den(&self) -> i32 {
        self.den
    }

    /// The chapter's position in `AVFormatContext.chapters`.
    pub fn index(&self) -> (r: usize)
        ensures
            r == self.spec_index(),
    {
        self.index
    }

    /// The id the container assigned that chapter.
    pub fn id(&self) -> (r: i64)
        ensures
            r == self.spec_id(),
    {
        self.id
    }

    /// The numerator the container wrote.
    pub fn num(&self) -> (r: i32)
        ensures
            r == self.spec_num(),
    {
        self.num
    }

    /// The denominator the container wrote.
    pub fn den(&self) -> (r: i32)
        ensures
            r == self.spec_den(),
    {
        self.den
    }
}

/// Payload for [`DemuxError::TooManyChapters`]: the container declares more
/// chapters than the ceiling allows.
#[derive(Debug, Clone, Copy, PartialEq, Eq, Structural)]
pub struct TooManyChapters {
    declared: usize,
    limit: u32,
}

impl TooManyChapters {
    /// Constructs a `TooManyChapters` payload.
    pub fn new(declared: usize, limit: u32) -> (r: Self)
        ensures
            r.spec_declared() == declared,
            r.spec_limit() == limit,
    {
        Self { declared, limit }
    }

    pub closed spec fn spec_declared(&self) -> usize {
        self.declared
    }

    pub closed spec fn spec_limit(&self) -> u32 {
        self.limit
    }

    /// `AVFormatContext.nb_chapters`, as the container declared it.
    pub fn declared(&self) -> (r: usize)
        ensures
            r == self.spec_declared(),
    {
        self.declared
    }

    /// The ceiling in force.
    pub fn limit(&self) -> (r: u32)
        ensures
            r == self.spec_limit(),
    {
        self.limit
    }
}

/// Payload for [`DemuxError::ChapterTitleBudgetExhausted`]: the file's
/// chapter titles, together, are over the whole-file budget.
#[derive(Debug, Clone, Copy, PartialEq, Eq, Structural)]
pub struct ChapterTitleBudgetExhausted {
    index: usize,
    bytes: usize,
    limit: usize,
}

impl ChapterTitleBudgetExhausted {
    /// Constructs a `ChapterTitleBudgetExhausted` payload.
    pub fn new(index: usize, bytes: usize, limit: usize) -> (r: Self)
        ensures
            r.spec_index() == index,
            r.spec_bytes() == bytes,
            r.spec_limit() == limit,
    {
        Self { index, bytes, limit }
    }

    pub closed spec fn spec_index(&self) -> usize {
        self.index
    }

    pub closed spec fn spec_bytes(&self) -> usize {
        self.bytes
    }

    pub closed spec fn spec_limit(&self) -> usize {
        self.limit
    }

    /// The chapter whose title ran the total past the line.
    pub fn index(&self) -> (r: usize)
        ensures
            r == self.spec_index(),
    {
        self.index
    }

    /// The running total at that chapter.
    pub fn bytes(&self) -> (r: usize)
        ensures
            r == self.spec_bytes(),
    {
        self.bytes
    }

    /// The whole-file budget in force.
    pub fn limit(&self) -> (r: usize)
        ensures
            r == self.spec_limit(),
    {
        self.limit
    }
}

/// Payload for [`DemuxError::ChapterTitleTooLong`]: a chapter's title has no
/// terminator inside the cap on one metadata value.
#[derive(Debug, Clone, Copy, PartialEq, Eq, Structural)]
pub struct ChapterTitleTooLong {
    index: usize,
    limit: usize,
}

impl ChapterTitleTooLong {
    /// Constructs a `ChapterTitleTooLong` payload.
    pub fn new(index: usize, limit: usize) -> (r: Self)
        ensures
            r.spec_index() == index,
            r.spec_limit() == limit,
    {
        Self { index, limit }
    }

    pub closed spec fn spec_index(&self) -> usize {
        self.index
    }

    pub closed spec fn spec_limit(&self) -> usize {
        self.limit
    }

    /// The chapter's position in `AVFormatContext.chapters`.
    pub fn index(&self) -> (r: usize)
        ensures
            r == self.spec_index(),
    {
        self.index
    }

    /// The per-value cap in force.
    pub fn limit(&self) -> (r: usize)
        ensures
            r == self.spec_limit(),
    {
        self.limit
    }
}

/// Payload for [`DemuxError::ChapterTitleAlloc`]: a title that passed the
/// budget could not be decoded into owned text.
#[derive(Debug, Clone, Copy, PartialEq, Eq, Structural)]
pub struct ChapterTitleAlloc {
    index: usize,
    bytes: usize,
}

impl ChapterTitleAlloc {
    /// Constructs a `ChapterTitleAlloc` payload.
    pub fn new(index: usize, bytes: usize) -> (r: Self)
        ensures
            r.spec_index() == index,
            r.spec_bytes() == bytes,
    {
        Self { index, bytes }
    }

    pub closed spec fn spec_index(&self) -> usize {
        self.index
    }

    pub closed spec fn spec_bytes(&self) -> usize {
        self.bytes
    }

    /// The chapter's position in `AVFormatContext.chapters`.
    pub fn index(&self) -> (r: usize)
        ensures
            r == self.spec_index(),
    {
        self.index
    }

    /// The decoded size that could not be reserved.
    pub fn bytes(&self) -> (r: usize)
        ensures
            r == self.spec_bytes(),
    {
        self.bytes
    }
}

/// Payload for [`DemuxError::TrackMetadataTooLong`]: one of a stream's
/// retained metadata values has no terminator inside the cap.
#[derive(Debug, Clone, Copy, PartialEq, Eq)]
pub struct TrackMetadataTooLong {
    stream_index: usize,
    key: &'static str,
    limit: usize,
}

impl TrackMetadataTooLong {
    /// Constructs a `TrackMetadataTooLong` payload.
    pub fn new(stream_index: usize, key: &'static str, limit: usize) -> (r: Self)
        ensures
            r.spec_stream_index() == stream_index,
            r.spec_key() == key,
            r.spec_limit() == limit,
    {
        Self { stream_index, key, limit }
    }

    pub closed spec fn spec_stream_index(&self) -> usize {
        self.stream_index
    }

    pub closed spec fn spec_key(&self) -> &'static str {
        self.key
    }

    pub closed spec fn spec_limit(&self) -> usize {
        self.limit
    }

    /// The `AVStream.index` carrying it.
    pub fn stream_index(&self) -> (r: usize)
        ensures
            r == self.spec_stream_index(),
    {
        self.stream_index
    }

    /// The dictionary key that was being read.
    pub fn key(&self) -> (r: &'static str)
        ensures
            r == self.spec_key(),
    {
        self.key
    }

    /// The per-value cap in force.
    pub fn limit(&self) -> (r: usize)
        ensures
            r == self.spec_limit(),
    {
        self.limit
    }
}

/// Payload for [`DemuxError::TrackMetadataBudgetExhausted`]: the file's
/// stream metadata, together, is over the whole-file budget.
#[derive(Debug, Clone, Copy, PartialEq, Eq)]
pub struct TrackMetadataBudgetExhausted {
    stream_index: usize,
    key: &'static str,
    bytes: usize,
    limit: usize,
}

impl TrackMetadataBudgetExhausted {
    /// Constructs a `TrackMetadataBudgetExhausted` payload.
    pub fn new(stream_index: usize, key: &'static str, bytes: usize, limit: usize) -> (r: Self)
        ensures
            r.spec_stream_index() == stream_index,
            r.spec_key() == key,
            r.spec_bytes() == bytes,
            r.spec_limit() == limit,
    {
        Self { stream_index, key, bytes, limit }
    }

    pub closed spec fn spec_stream_index(&self) -> usize {
        self.stream_index
    }

    pub closed spec fn spec_key(&self) -> &'static str {
        self.key
    }

    pub closed spec fn spec_bytes(&self) -> usize {
        self.bytes
    }

    pub closed spec fn spec_limit(&self) -> usize {
        self.limit
    }

    /// The `AVStream.index` whose value ran the total past the line.
    pub fn stream_index(&self) -> (r: usize)
        ensures
            r == self.spec_stream_index(),
    {
        self.stream_index
    }

    /// The dictionary key that was being read.
    pub fn key(&self) -> (r: &'static str)
        ensures
            r == self.spec_key(),
    {
        self.key
    }

    /// The running total at that value.
    pub fn bytes(&self) -> (r: usize)
        ensures
            r == self.spec_bytes(),
    {
        self.bytes
    }

    /// The whole-file budget in force.
    pub fn limit(&self) -> (r: usize)
        ensures
            r == self.spec_limit(),
    {
        self.limit
    }
}

/// Payload for [`DemuxError::TrackMetadataAlloc`]: a stream metadata value
/// the budget admitted could not be decoded into owned text.
#[derive(Debug, Clone, Copy, PartialEq, Eq)]
pub struct TrackMetadataAlloc {
    stream_index: usize,
    key: &'static str,
    bytes: usize,
}

impl TrackMetadataAlloc {
    /// Constructs a `TrackMetadataAlloc` payload.
    pub fn new(stream_index: usize, key: &'static str, bytes: usize) -> (r: Self)
        ensures
            r.spec_stream_index() == stream_index,
            r.spec_key() == key,
            r.spec_bytes() == bytes,
    {
        Self { stream_index, key, bytes }
    }

    pub closed spec fn spec_stream_index(&self) -> usize {
        self.stream_index
    }

    pub closed spec fn spec_key(&self) -> &'static str {
        self.key
    }

    pub closed spec fn spec_bytes(&self) -> usize {
        self.bytes
    }

    /// The `AVStream.index` carrying it.
    pub fn stream_index(&self) -> (r: usize)
        ensures
            r == self.spec_stream_index(),
    {
        self.stream_index
    }

    /// The dictionary key that was being read.
    pub fn key(&self) -> (r: &'static str)
        ensures
            r == self.spec_key(),
    {
        self.key
    }

    /// The decoded size that could not be reserved.
    pub fn bytes(&self) -> (r: usize)
        ensures
            r == self.spec_bytes(),
    {
        self.bytes
    }
}

/// Payload for [`DemuxError::TrackTableAlloc`]: the track table, or the
/// attachment queue beside it, could not be reserved.
#[derive(Debug, Clone, Copy, PartialEq, Eq, Structural)]
pub struct TrackTableAlloc {
    streams: usize,
}

impl TrackTableAlloc {
    /// Constructs a `TrackTableAlloc` payload.
    pub fn new(streams: usize) -> (r: Self)
        ensures
            r.spec_streams() == streams,
    {
        Self { streams }
    }

    pub closed spec fn spec_streams(&self) -> usize {
        self.streams
    }

    /// The stream count the reservation was for.
    pub fn streams(&self) -> (r: usize)
        ensures
            r == self.spec_streams(),
    {
        self.streams
    }
}

/// Payload for [`DemuxError::ChapterAlloc`]: the chapter table could not be
/// reserved.
#[derive(Debug, Clone, Copy, PartialEq, Eq, Structural)]
pub struct ChapterAlloc {
    declared: usize,
}

impl ChapterAlloc {
    /// Constructs a `ChapterAlloc` payload.
    pub fn new(declared: usize) -> (r: Self)
        ensures
            r.spec_declared() == declared,
    {
        Self { declared }
    }

    pub closed spec fn spec_declared(&self) -> usize {
        self.declared
    }

    /// The chapter count the reservation was for.
    pub fn declared(&self) -> (r: usize)
        ensures
            r == self.spec_declared(),
    {
        self.declared
    }
}

/// Payload for [`DemuxError::ParametersCopy`]: copying a track's codec
/// parameters failed part way.
#[derive(Debug, Clone, Copy, PartialEq, Eq, Structural)]
pub struct ParametersCopy {
    stream_index: usize,
    source: AvError,
}

impl ParametersCopy {
    /// Constructs a `ParametersCopy` payload.
    pub fn new(stream_index: usize, source: AvError) -> (r: Self)
        ensures
            r.spec_stream_index() == stream_index,
            r.spec_source() == source,
    {
        Self { stream_index, source }
    }

    pub closed spec fn spec_stream_index(&self) -> usize {
        self.stream_index
    }

    pub closed spec fn spec_source(&self) -> AvError {
        self.source
    }

    /// The `AVStream.index` whose parameters could not be copied.
    pub fn stream_index(&self) -> (r: usize)
        ensures
            r == self.spec_stream_index(),
    {
        self.stream_index
    }

    /// What FFmpeg said.
    pub fn source(&self) -> (r: AvError)
        ensures
            r == self.spec_source(),
    {
        self.source
    }
}

/// Payload for [`DemuxError::ParametersOpaque`]: a channel layout carries
/// user-private data an owned codec ticket cannot mirror. `channel` names
/// the custom-map entry, or is `None` when the pointer was on the layout.
#[derive(Debug, Clone, Copy, PartialEq, Eq, Structural)]
pub struct ParametersOpaque {
    stream_index: usize,
    channel: Option<usize>,
}

impl ParametersOpaque {
    /// Constructs a `ParametersOpaque` payload.
    pub fn new(stream_index: usize, channel: Option<usize>) -> (r: Self)
        ensures
            r.spec_stream_index() == stream_index,
            r.spec_channel() == channel,
    {
        Self { stream_index, channel }
    }

    pub closed spec fn spec_stream_index(&self) -> usize {
        self.stream_index
    }

    pub closed spec fn spec_channel(&self) -> Option<usize> {
        self.channel
    }

    /// The `AVStream.index` whose layout carried the pointer.
    pub fn stream_index(&self) -> (r: usize)
        ensures
            r == self.spec_stream_index(),
    {
        self.stream_index
    }

    /// The custom-map entry the pointer was on, if any.
    pub fn channel(&self) -> (r: Option<usize>)
        ensures
            r == self.spec_channel(),
    {
        self.channel
    }
}

/// Payload for [`DemuxError::ParametersChannelMap`]: a custom channel order
/// declared without the map it requires.
#[derive(Debug, Clone, Copy, PartialEq, Eq, Structural)]
pub struct ParametersChannelMap {
    stream_index: usize,
    channels: i32,
}

impl ParametersChannelMap {
    /// Constructs a `ParametersChannelMap` payload.
    pub fn new(stream_index: usize, channels: i32) -> (r: Self)
        ensures
            r.spec_stream_index() == stream_index,
            r.spec_channels() == channels,
    {
        Self { stream_index, channels }
    }

    pub closed spec fn spec_stream_index(&self) -> usize {
        self.stream_index
    }

    pub closed spec fn spec_channels(&self) -> i32 {
        self.channels
    }

    /// The `AVStream.index` whose layout was malformed.
    pub fn stream_index(&self) -> (r: usize)
        ensures
            r == self.spec_stream_index(),
    {
        self.stream_index
    }

    /// The `nb_channels` the layout declared with no map.
    pub fn channels(&self) -> (r: i32)
        ensures
            r == self.spec_channels(),
    {
        self.channels
    }
}

/// Payload for [`DemuxError::ParametersLayoutShape`]: a channel layout whose
/// order and channel count FFmpeg's own helpers cannot be given.
#[derive(Debug, Clone, Copy, PartialEq, Eq, Structural)]
pub struct ParametersLayoutShape {
    stream_index: usize,
    order: i32,
    channels: i32,
}

impl ParametersLayoutShape {
    /// Constructs a `ParametersLayoutShape` payload.
    pub fn new(stream_index: usize, order: i32, channels: i32) -> (r: Self)
        ensures
            r.spec_stream_index() == stream_index,
            r.spec_order() == order,
            r.spec_channels() == channels,
    {
        Self { stream_index, order, channels }
    }

    pub closed spec fn spec_stream_index(&self) -> usize {
        self.stream_index
    }

    pub closed spec fn spec_order(&self) -> i32 {
        self.order
    }

    pub closed spec fn spec_channels(&self) -> i32 {
        self.channels
    }

    /// The `AVStream.index` whose layout declared it.
    pub fn stream_index(&self) -> (r: usize)
        ensures
            r == self.spec_stream_index(),
    {
        self.stream_index
    }

    /// `AVChannelLayout.order`, as the raw integer.
    pub fn order(&self) -> (r: i32)
        ensures
            r == self.spec_order(),
    {
        self.order
    }

    /// `nb_channels`, as the layout declared it.
    pub fn channels(&self) -> (r: i32)
        ensures
            r == self.spec_channels(),
    {
        self.channels
    }
}

/// Payload for [`DemuxError::PacketBuffer`]: a packet's payload could not be
/// carried — the bytes are there and this layer could not take them.
#[derive(Debug, Clone, Copy, PartialEq, Eq, Structural)]
pub struct PacketBuffer {
    stream_index: usize,
    source: PacketBufferError,
}

impl PacketBuffer {
    /// Constructs a `PacketBuffer` payload.
    pub fn new(stream_index: usize, source: PacketBufferError) -> (r: Self)
        ensures
            r.spec_stream_index() == stream_index,
            r.spec_source() == source,
    {
        Self { stream_index, source }
    }

    pub closed spec fn spec_stream_index(&self) -> usize {
        self.stream_index
    }

    pub closed spec fn spec_source(&self) -> PacketBufferError {
        self.source
    }

    /// The `AVStream.index` the packet belongs to.
    pub fn stream_index(&self) -> (r: usize)
        ensures
            r == self.spec_stream_index(),
    {
        self.stream_index
    }

    /// What went wrong.
    pub fn source(&self) -> (r: PacketBufferError)
        ensures
            r == self.spec_source(),
    {
        self.source
    }
}

/// Payload for [`DemuxError::ReaderPanic`]: the caller's reader panicked
/// inside a libavformat callback, and this is what the panic said.
#[derive(Debug, Clone)]
pub struct ReaderPanic {
    message: String,
}

impl ReaderPanic {
    /// Constructs a `ReaderPanic` payload.
    pub fn new(message: String) -> (r: Self)
        ensures
            r.spec_message() == message@,
    {
        Self { message }
    }

    pub closed spec fn spec_message(self) -> Seq<char> {
        self.message@
    }

    /// What the panic payload said.
    pub fn message(&self) -> (r: &str)
        ensures
            r@ == self.spec_message(),
    {
        self.message.as_str()
    }
}

/// Errors from the demuxer.
#[derive(Debug, Clone)]
pub enum DemuxError {
    /// The wrapped libavformat call reported an error.
    Ffmpeg(AvError),
    ProbeBudgetExhausted(ProbeBudgetExhausted),
    AttachmentTooLarge(AttachmentTooLarge),
    AttachmentBudgetExhausted(AttachmentBudgetExhausted),
    ParametersTooLarge(ParametersTooLarge),
    ParametersBudgetExhausted(ParametersBudgetExhausted),
    ParametersMissing(ParametersMissing),
    ParametersAlloc(ParametersAlloc),
    ParametersCopy(ParametersCopy),
    ParametersOpaque(ParametersOpaque),
    ParametersChannelMap(ParametersChannelMap),
    ParametersLayoutShape(ParametersLayoutShape),
    TrackTimebaseInvalid(TrackTimebaseInvalid),
    ChapterTimebaseInvalid(ChapterTimebaseInvalid),
    TooManyChapters(TooManyChapters),
    ChapterTitleBudgetExhausted(ChapterTitleBudgetExhausted),
    ChapterTitleTooLong(ChapterTitleTooLong),
    ChapterTitleAlloc(ChapterTitleAlloc),
    TrackMetadataTooLong(TrackMetadataTooLong),
    TrackMetadataBudgetExhausted(TrackMetadataBudgetExhausted),
    TrackMetadataAlloc(TrackMetadataAlloc),
    ChapterAlloc(ChapterAlloc),
    TrackTableAlloc(TrackTableAlloc),
    PacketBuffer(PacketBuffer),
    ReaderPanic(ReaderPanic),
}

/// The error a channel-layout fault on stream `stream_index` becomes.
pub open spec fn spec_layout_fault(stream_index: usize, fault: ChannelLayoutFault, r: DemuxError) -> bool {
    match fault {
        ChannelLayoutFault::MalformedCustomMap { channels }
        | ChannelLayoutFault::UnverifiableCustomMap { channels } => r matches DemuxError::ParametersChannelMap(p)
            && p.spec_stream_index() == stream_index && p.spec_channels() == channels,
        ChannelLayoutFault::MalformedLayout { order, channels } => r matches DemuxError::ParametersLayoutShape(p)
            && p.spec_stream_index() == stream_index && p.spec_order() == order
            && p.spec_channels() == channels,
        ChannelLayoutFault::Alloc => r matches DemuxError::ParametersAlloc(p)
            && p.spec_stream_index() == stream_index,
    }
}

/// Names a channel-layout fault for a demux caller — one mapper, so every
/// road that shares the preflight also shares its report.
pub fn layout_fault_to_demux(stream_index: usize, fault: ChannelLayoutFault) -> (r: DemuxError)
    ensures
        spec_layout_fault(stream_index, fault, r),
{
    match fault {
        ChannelLayoutFault::MalformedCustomMap { channels }
        | ChannelLayoutFault::UnverifiableCustomMap { channels } => DemuxError::ParametersChannelMap(
            ParametersChannelMap::new(stream_index, channels),
        ),
        ChannelLayoutFault::MalformedLayout { order, channels } => DemuxError::ParametersLayoutShape(
            ParametersLayoutShape::new(stream_index, order, channels),
        ),
        ChannelLayoutFault::Alloc => DemuxError::ParametersAlloc(ParametersAlloc::new(stream_index)),
    }
}

} // verus!
