//! Admission, pricing and routing rules for an FFmpeg-backed media
//! decode tier: what a container may make a demuxer spend, how a frame is
//! priced before it is allocated, and what a decoder's errors mean at each
//! point of its life.
pub(crate) mod reserve;
pub mod admission;
pub mod averror;
pub mod chapters;
pub mod decoder;
pub mod demux_error;
pub mod error;
pub mod gates;
pub mod metadata;
pub mod pricing;
pub mod opening;
pub mod probe;
pub mod records;
pub mod session;
pub mod side_data;
pub mod text;
pub mod timebase;
pub mod tracks;
