//! A supercompressed GPU-texture codec: the compressor turns raw pixel
//! buffers into a compact container of codebook-indexed blocks, and the
//! transcoder converts that container, on demand, into GPU-native block
//! formats or raw pixel data.
//!
//! The crate is organised in layers, leaves first:
//! - [`formats`]: per-format tables (bytes per block, block geometry,
//!   alpha support) and output buffer-size arithmetic;
//! - [`container`]: binary serialization and parsing of the container;
//! - [`codec`]: the mathematical model of block decoding, transcode
//!   outputs, and the compressor's guarantees;
//! - [`image`] and [`params`]: source images and compression parameters;
//! - [`compressor`]: the compressor engine;
//! - [`transcoder`]: the transcoder engine and the low-level slice path.
use vstd::prelude::*;

pub mod formats;
pub mod image;
pub mod params;
pub mod container;
pub mod codec;
pub mod compressor;
pub mod transcoder;

pub use formats::BasisTextureFormat;
pub use formats::BasisTextureType;
pub use formats::TranscoderTextureFormat;
pub use formats::TranscoderBlockFormat;
pub use formats::DecodeFlags;
pub use image::ColorU8;
pub use image::CompressorImageRef;
pub use params::ColorSpace;
pub use params::CompressorParams;
pub use compressor::Compressor;
pub use compressor::CompressorErrorCode;
pub use transcoder::Transcoder;
pub use transcoder::ImageLevelDescription;
pub use transcoder::ImageInfo;
pub use transcoder::ImageLevelInfo;
pub use transcoder::FileInfo;
pub use transcoder::TranscodeParameters;
pub use transcoder::TranscodeError;
pub use transcoder::LowLevelUastcTranscoder;
pub use transcoder::SliceParametersUastc;

verus! {

/// Arbitrary data that is attached to a container and round-tripped
/// verbatim by the codec.
#[derive(Debug, Copy, Clone, PartialEq, Eq, Structural)]
pub struct UserData {
    pub userdata0: u32,
    pub userdata1: u32,
}

impl Default for UserData {
    fn default() -> (r: UserData)
        ensures
            r.userdata0 == 0,
            r.userdata1 == 0,
    {
        UserData { userdata0: 0, userdata1: 0 }
    }
}

/// The default ETC1S quality level used when none is chosen explicitly.
pub const ETC1S_QUALITY_DEFAULT: u32 = 128;

/// The smallest accepted ETC1S quality level.
pub const ETC1S_QUALITY_MIN: u32 = 1;

/// The largest accepted ETC1S quality level.
pub const ETC1S_QUALITY_MAX: u32 = 255;

/// The default UASTC pack level used when none is chosen explicitly.
pub const UASTC_QUALITY_DEFAULT: u32 = 2;

/// The fastest (least exhaustive) UASTC pack level.
pub const UASTC_QUALITY_MIN: u32 = 0;

/// The slowest (most exhaustive) UASTC pack level.
pub const UASTC_QUALITY_MAX: u32 = 4;

/// The largest texture dimension the codec accepts, in pixels.
pub const TEXTURE_DIMENSION_MAX: u32 = 16384;

/// The largest source image dimension the codec accepts, in pixels.
pub const IMAGE_DIMENSION_MAX: u32 = 16384;

} // verus!
