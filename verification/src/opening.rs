//! What a decoder checks before libavcodec is handed anything.
//!
//! Every road that opens a decoder passes the same door: parameters that
//! exist, a copy of them that fits the budget, and — once opened — a
//! context of the medium that was asked for. Each refusal is decided here
//! from values read off the parameters and the context.
use vstd::prelude::*;
use crate::averror::{AvError, Errno};
use crate::demux_error::ParametersTooLarge;
use crate::error::Error;

verus! {

/// Parameters whose allocation never happened are refused at the door,
/// as the allocation failure they are.
pub fn ensure_parameters_non_null<P, B>(present: bool) -> (r: Result<(), Error<P, B>>)
    ensures
        present ==> r is Ok,
        !present ==> r matches Err(Error::Ffmpeg(AvError::Other { errno: Errno::OutOfMemory })),
{
    if present {
        Ok(())
    } else {
        Err(Error::Ffmpeg(AvError::Other { errno: Errno::OutOfMemory }))
    }
}

/// **The choke point**: copying parameters into a codec context duplicates
/// everything they hold, so the copy is admitted here against the
/// per-stream parameter ceiling. `total` is what they hold, `None` when it
/// cannot be measured — which is charged as unbounded.
pub fn admit_codec_parameters<P, B>(total: Option<usize>, limit: usize) -> (r: Result<(), Error<P, B>>)
    ensures
        ({
            let declared = match total {
                Some(t) => t,
                None => usize::MAX,
            };
            if declared > limit {
                r matches Err(Error::ParametersTooLarge(p)) && p.spec_stream_index() == 0
                    && p.spec_bytes() == declared && p.spec_limit() == limit
            } else {
                r is Ok
            }
        }),
{
    let declared = match total {
        Some(t) => t,
        None => usize::MAX,
    };
    if declared > limit {
        return Err(Error::ParametersTooLarge(ParametersTooLarge::new(0, declared, limit)));
    }
    Ok(())
}

/// An opened context is proved to be of the `expected` medium by its
/// `codec_type` read as the integer it is; any other is refused as
/// invalid data.
pub fn ensure_codec_type<P, B>(codec_type: i32, expected: i32) -> (r: Result<(), Error<P, B>>)
    ensures
        codec_type == expected ==> r is Ok,
        codec_type != expected ==> r matches Err(Error::Ffmpeg(AvError::InvalidData)),
{
    if codec_type != expected {
        return Err(Error::Ffmpeg(AvError::InvalidData));
    }
    Ok(())
}

} // verus!
