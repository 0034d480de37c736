//! What can end the conversion of a stream. Every value carries the raw
//! numbers that a caller needs to word a message.
use vstd::prelude::*;
use crate::codec::{CodecId, CodecType};

verus! {

/// Where a configuration record turned out to be malformed.
#[derive(Debug, Clone, Copy, PartialEq, Eq, Structural)]
pub enum ParseError {
    /// An AVC record shorter than its header of five bytes and the two
    /// bytes that must follow it.
    AvccHeaderTooShort,
    /// An HEVC record shorter than its header of 22 bytes and the count of
    /// arrays behind it.
    HvccHeaderTooShort,
    /// The length field of an SPS entry runs past the end of the record.
    InvalidSpsLength,
    /// The payload of an SPS entry runs past the end of the record.
    SpsTruncated,
    /// The record ends before the PPS count.
    MissingPps,
    /// The length field of a PPS entry runs past the end of the record.
    InvalidPpsLength,
    /// The payload of a PPS entry runs past the end of the record.
    PpsTruncated,
}

/// The step of the bitstream-filter backend that a return code comes from.
#[derive(Debug, Clone, Copy, PartialEq, Eq, Structural)]
pub enum FilterStage {
    Alloc,
    Init,
    Send,
    Receive,
}

/// A condition that is fatal for the stream being converted.
#[derive(Debug, Clone, PartialEq, Eq)]
pub enum ConvertError {
    /// The stream's codec is neither H.264 nor H.265.
    UnsupportedCodec(CodecId),
    /// The stream carries no codec configuration record.
    MissingExtradata,
    /// The codec configuration record is malformed.
    Parse(ParseError),
    /// No sequence parameter set, or no picture parameter set.
    MissingParameterSets,
    /// An H.265 stream without a video parameter set.
    MissingVps,
    /// An access unit without the presentation timestamp that was needed.
    MissingPts,
    /// An access unit whose presentation timestamp lies before the start of
    /// the stream's time.
    NegativePts { pts: i64 },
    /// An access unit with a payload and no decode timestamp.
    MissingDts,
    /// Presentation and decode order differ: the stream holds B-frames or
    /// reordered frames. `codec` names the profile to re-encode with.
    Reordered { pts: i64, dts: i64, codec: CodecType },
    /// A frame's timestamp does not lie after that of the frame before it.
    NonMonotonicTimestamp { current: u64, last: u64 },
    /// A step of the bitstream-filter backend failed with this return code.
    Filter { stage: FilterStage, code: i32 },
}

} // verus!
