//! Length-prefixed (AVCC/HVCC) video bitstreams rewritten as start-code-delimited
//! (Annex-B) frames: the codec's NAL taxonomy, the parameter sets of a
//! configuration record, the conversion of one access unit, and the per-stream
//! state that assembles frames and guards their timestamps.
pub mod bsf;
pub mod bytes;
pub mod codec;
pub mod convert;
pub mod converter;
pub mod error;
pub mod params;

pub use codec::{CodecId, CodecType};
pub use convert::convert_to_annex_b;
pub use converter::{split_seconds, AccessUnit, VideoConverter};
pub use error::{ConvertError, FilterStage, ParseError};
pub use params::ParameterSets;
