//! What a stream's raw fields come to, before admission judges them: the
//! size a copy of its parameters would retain, whether its channel layout
//! can be mirrored and described, and whether its parked picture can be
//! carried. Each is read off plain values the caller took from libavformat.
use vstd::prelude::*;
use crate::admission::{LayoutDefect, ParameterFootprint};
use crate::demux_error::{ChannelLayoutFault, PacketBufferError};

verus! {

/// `AV_CHANNEL_ORDER_CUSTOM`: the layout names each channel in a map.
pub const AV_CHANNEL_ORDER_CUSTOM: i32 = 2;

/// `AV_PKT_FLAG_KEY | CORRUPT | DISCARD | TRUSTED | DISPOSABLE`: the packet
/// flags a carried packet may hold.
pub const PORTABLE_PACKET_FLAGS: i32 = 0x1f;

/// `AV_PKT_FLAG_TRUSTED`: a payload this layer must not copy.
pub const AV_PKT_FLAG_TRUSTED: i32 = 0x8;

/// The exact sum of `s`.
pub open spec fn spec_sum(s: Seq<usize>) -> int
    decreases s.len(),
{
    if s.len() == 0 {
        0
    } else {
        spec_sum(s.drop_last()) + s.last()
    }
}

/// `v`, when it fits a `usize`.
pub open spec fn spec_fits(v: int) -> Option<usize> {
    if 0 <= v <= usize::MAX {
        Some(v as usize)
    } else {
        None
    }
}

/// **What a copy of a stream's parameters retains**: its extradata and
/// every coded side-data entry. A sum that does not fit a `usize` cannot
/// be established and is `None`.
pub fn parameter_footprint(extradata: usize, side_data_sizes: &[usize]) -> (r: ParameterFootprint)
    ensures
        r.extradata_payload == extradata,
        r.without_extradata == spec_fits(spec_sum(side_data_sizes@)),
        r.total == spec_fits(spec_sum(side_data_sizes@) + extradata),
{
    let len = side_data_sizes.len();
    let mut acc: Option<usize> = Some(0);
    let mut i: usize = 0;
    proof {
        assert(side_data_sizes@.take(0) =~= Seq::<usize>::empty());
    }
    while i < len
        invariant
            len == side_data_sizes@.len(),
            i <= len,
            acc == spec_fits(spec_sum(side_data_sizes@.take(i as int))),
            spec_sum(side_data_sizes@.take(i as int)) >= 0,
        decreases len - i,
    {
        proof {
            assert(side_data_sizes@.take(i + 1).drop_last() =~= side_data_sizes@.take(i as int));
        }
        acc = match acc {
            Some(sum) => sum.checked_add(side_data_sizes[i]),
            None => None,
        };
        i = i + 1;
    }
    proof {
        assert(side_data_sizes@.take(len as int) =~= side_data_sizes@);
    }
    let total = match acc {
        Some(sum) => sum.checked_add(extradata),
        None => None,
    };
    ParameterFootprint { total, without_extradata: acc, extradata_payload: extradata }
}

/// The position of the first `true` in `s`, if any.
pub open spec fn spec_first_set(s: Seq<bool>) -> Option<int> {
    if exists|i: int| 0 <= i < s.len() && s[i] {
        Some(choose|i: int| 0 <= i < s.len() && s[i] && forall|j: int| 0 <= j < i ==> !s[j])
    } else {
        None
    }
}

/// **Whether a channel layout can be mirrored, and how many channels it
/// describes.** User-private data on the layout, or on a custom map's
/// entry, cannot be mirrored; a custom order with no map or no channels
/// is malformed; a negative count cannot be described.
///
/// `opaque` is whether the layout carries private data, `map_present`
/// whether a custom order's map exists, and `entry_opaque` whether each
/// of the map's `channels` entries carries private data.
pub fn channel_layout_check(
    opaque: bool,
    order: i32,
    channels: i32,
    map_present: bool,
    entry_opaque: &[bool],
) -> (r: (Option<LayoutDefect>, Result<u32, ChannelLayoutFault>))
    ensures
        if opaque {
            r == (
                Some(LayoutDefect::Opaque { channel: None }),
                Ok::<u32, ChannelLayoutFault>(if channels < 0 {
                    0u32
                } else {
                    channels as u32
                }),
            )
        } else if order == AV_CHANNEL_ORDER_CUSTOM && (!map_present || channels <= 0) {
            r == (
                Some(LayoutDefect::Fault(ChannelLayoutFault::MalformedCustomMap { channels })),
                Err::<u32, ChannelLayoutFault>(ChannelLayoutFault::MalformedCustomMap { channels }),
            )
        } else if order == AV_CHANNEL_ORDER_CUSTOM && spec_first_set(entry_opaque@) is Some {
            r == (
                Some(LayoutDefect::Opaque { channel: Some(spec_first_set(entry_opaque@)->0 as usize) }),
                Ok::<u32, ChannelLayoutFault>(channels as u32),
            )
        } else if channels < 0 {
            r == (
                None::<LayoutDefect>,
                Err::<u32, ChannelLayoutFault>(ChannelLayoutFault::MalformedLayout { order, channels }),
            )
        } else {
            r == (None::<LayoutDefect>, Ok::<u32, ChannelLayoutFault>(channels as u32))
        },
{
    if opaque {
        let count: u32 = if channels < 0 {
            0
        } else {
            channels as u32
        };
        return (Some(LayoutDefect::Opaque { channel: None }), Ok(count));
    }
    if order == AV_CHANNEL_ORDER_CUSTOM {
        if !map_present || channels <= 0 {
            let fault = ChannelLayoutFault::MalformedCustomMap { channels };
            return (Some(LayoutDefect::Fault(fault)), Err(fault));
        }
        let len = entry_opaque.len();
        let mut i: usize = 0;
        while i < len
            invariant
                !opaque,
                order == AV_CHANNEL_ORDER_CUSTOM,
                map_present,
                channels > 0,
                len == entry_opaque@.len(),
                i <= len,
                forall|j: int| 0 <= j < i ==> !entry_opaque@[j],
            decreases len - i,
        {
            if entry_opaque[i] {
                proof {
                    let first = spec_first_set(entry_opaque@);
                    assert(first is Some);
                    let k = first->0;
                    assert(0 <= k < entry_opaque@.len() && entry_opaque@[k] && forall|j: int|
                        0 <= j < k ==> !entry_opaque@[j]);
                    if k < i {
                        assert(!entry_opaque@[k]);
                    }
                    if k > i {
                        assert(!entry_opaque@[i as int]);
                    }
                    assert(k == i);
                }
                return (Some(LayoutDefect::Opaque { channel: Some(i) }), Ok(channels as u32));
            }
            i = i + 1;
        }
        proof {
            assert(!(exists|j: int| 0 <= j < entry_opaque@.len() && entry_opaque@[j]));
        }
    }
    if channels < 0 {
        return (None, Err(ChannelLayoutFault::MalformedLayout { order, channels }));
    }
    (None, Ok(channels as u32))
}

/// **Whether a parked picture can be carried**: its structure — a payload
/// marked as one this layer must not copy, or a size with no data behind
/// it — and its flags, which must lie in the portable set.
pub fn parked_picture_check(size: i32, flags: i32, data_present: bool) -> (r: (
    Option<PacketBufferError>,
    Result<u32, PacketBufferError>,
))
    ensures
        r.0 == (if flags & AV_PKT_FLAG_TRUSTED != 0 {
            Some(PacketBufferError::Trusted)
        } else if !data_present && size > 0 {
            Some(PacketBufferError::OutOfBounds)
        } else {
            None
        }),
        r.1 == (if flags & !PORTABLE_PACKET_FLAGS == 0 {
            Ok::<u32, PacketBufferError>(flags as u32)
        } else {
            Err::<u32, PacketBufferError>(PacketBufferError::UnportableFlags)
        }),
{
    let structure = if flags & AV_PKT_FLAG_TRUSTED != 0 {
        Some(PacketBufferError::Trusted)
    } else if !data_present && size > 0 {
        Some(PacketBufferError::OutOfBounds)
    } else {
        None
    };
    let carried = if flags & !PORTABLE_PACKET_FLAGS == 0 {
        Ok(flags as u32)
    } else {
        Err(PacketBufferError::UnportableFlags)
    };
    (structure, carried)
}

} // verus!
