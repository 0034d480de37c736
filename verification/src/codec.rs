//! The two NAL-based codec profiles and their NAL-type taxonomy.
use vstd::prelude::*;
use crate::error::ConvertError;

verus! {

/// The codec identifier that a demuxer reports for a stream. H.265 is known
/// under two labels; every codec without a profile here is `Other`, with its
/// name.
#[derive(Debug, Clone, PartialEq, Eq)]
pub enum CodecId {
    H264,
    H265,
    Hevc,
    Other(String),
}

/// A codec profile: decides how a NAL header is read and which NAL types are
/// carried out of band.
#[derive(Debug, Clone, Copy, PartialEq, Eq, Structural)]
pub enum CodecType {
    H264,
    H265,
}

/// The profile that a codec identifier stands for, if it has one.
pub open spec fn profile_of(id: CodecId) -> Option<CodecType> {
    match id {
        CodecId::H264 => Some(CodecType::H264),
        CodecId::H265 => Some(CodecType::H265),
        CodecId::Hevc => Some(CodecType::H265),
        CodecId::Other(_) => None,
    }
}

/// What resolving a codec identifier gives: its profile, or the identifier
/// itself as unsupported.
pub open spec fn resolved(id: CodecId) -> Result<CodecType, ConvertError> {
    match profile_of(id) {
        Some(codec) => Ok(codec),
        None => Err(ConvertError::UnsupportedCodec(id)),
    }
}

impl CodecType {
    pub const H264_NAL_SEI: u8 = 6;
    pub const H264_NAL_SPS: u8 = 7;
    pub const H264_NAL_PPS: u8 = 8;
    pub const H265_NAL_VPS: u8 = 32;
    pub const H265_NAL_SPS: u8 = 33;
    pub const H265_NAL_PPS: u8 = 34;
    pub const H265_NAL_SEI: u8 = 39;

    /// The NAL types that travel out of band (parameter sets) or that a
    /// frame-per-message recording has no use for (supplemental enhancement),
    /// and that are therefore dropped when they appear in band.
    pub open spec fn out_of_band(self) -> Set<u8> {
        match self {
            CodecType::H264 => set![6u8, 7u8, 8u8],
            CodecType::H265 => set![32u8, 33u8, 34u8, 39u8],
        }
    }

    /// The NAL type held in the first byte of a NAL unit: its low five bits in
    /// H.264, its bits 1 to 6 in H.265.
    pub open spec fn nal_type_of(self, header: u8) -> u8 {
        match self {
            CodecType::H264 => header & 0x1F,
            CodecType::H265 => (header >> 1) & 0x3F,
        }
    }

    /// The format tag of the profile, as a sequence of characters.
    pub open spec fn format_tag(self) -> Seq<char> {
        match self {
            CodecType::H264 => "h264"@,
            CodecType::H265 => "h265"@,
        }
    }

    /// The name of the encoder library to re-encode with, as a sequence of
    /// characters.
    pub open spec fn encoder_name(self) -> Seq<char> {
        match self {
            CodecType::H264 => "libx264"@,
            CodecType::H265 => "libx265"@,
        }
    }

    /// Resolves a codec identifier to its profile. Both labels of H.265 give
    /// the same profile; any other identifier is handed back in the error.
    pub fn from_ffmpeg_id(id: CodecId) -> (r: Result<CodecType, ConvertError>)
        ensures
            r == resolved(id),
    {
        match id {
            CodecId::H264 => Ok(CodecType::H264),
            CodecId::H265 => Ok(CodecType::H265),
            CodecId::Hevc => Ok(CodecType::H265),
            other => Err(ConvertError::UnsupportedCodec(other)),
        }
    }

    /// The format tag under which frames of this profile are recorded.
    pub fn format_str(&self) -> (s: &'static str)
        ensures
            s@ == self.format_tag(),
    {
        match self {
            CodecType::H264 => "h264",
            CodecType::H265 => "h265",
        }
    }

    /// The encoder library to name where a stream must be re-encoded.
    pub fn encoder_lib(&self) -> (s: &'static str)
        ensures
            s@ == self.encoder_name(),
    {
        match self {
            CodecType::H264 => "libx264",
            CodecType::H265 => "libx265",
        }
    }

    /// Reads the NAL type out of the first byte of a NAL unit.
    pub fn nal_type(&self, header: u8) -> (t: u8)
        ensures
            t == self.nal_type_of(header),
    {
        match self {
            CodecType::H264 => header & 0x1F,
            CodecType::H265 => (header >> 1) & 0x3F,
        }
    }

    /// Whether a NAL unit of this type is dropped when it appears in band.
    pub fn should_skip_nal(&self, nal_type: u8) -> (skip: bool)
        ensures
            skip == self.out_of_band().contains(nal_type),
    {
        match self {
            CodecType::H264 => {
                nal_type == Self::H264_NAL_SPS || nal_type == Self::H264_NAL_PPS
                    || nal_type == Self::H264_NAL_SEI
            },
            CodecType::H265 => {
                nal_type == Self::H265_NAL_VPS || nal_type == Self::H265_NAL_SPS
                    || nal_type == Self::H265_NAL_PPS || nal_type == Self::H265_NAL_SEI
            },
        }
    }
}

} // verus!
