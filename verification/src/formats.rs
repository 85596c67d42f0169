//! Per-format tables and buffer-size arithmetic: bytes per block or pixel,
//! block geometry, alpha support, the compressed/uncompressed split, and
//! the format support matrix.
//!
//! The numeric wire codes of the enums here are part of the container
//! format and are fixed by the `spec_code`/`from_code` functions, not by
//! declaration order.
use vstd::prelude::*;

verus! {

/// The product of two 32-bit values, computed without overflow.
pub(crate) fn mul_u32_wide(a: u32, b: u32) -> (r: u64)
    ensures
        r == a * b,
{
    proof {
        vstd::arithmetic::mul::lemma_mul_upper_bound(
            a as int,
            u32::MAX as int,
            b as int,
            u32::MAX as int,
        );
    }
    (a as u64) * (b as u64)
}

/// The layout of the images stored in a container.
#[derive(Copy, Clone, Debug, PartialEq, Eq, Structural)]
pub enum BasisTextureType {
    /// An arbitrary array of 2D images; each image may have its own
    /// resolution and mip level count.
    TextureType2D,
    /// An array of 2D images that all share one resolution and mip chain.
    TextureType2DArray,
    /// An array of cubemap faces; the image count must be divisible by 6.
    TextureTypeCubemapArray,
    /// An array of 2D video frames.
    TextureTypeVideoFrames,
    /// A 3D volume; the image count is the depth.
    TextureTypeVolume,
}

impl BasisTextureType {
    /// The stable wire code of this texture type.
    pub open spec fn spec_code(self) -> u32 {
        match self {
            BasisTextureType::TextureType2D => 0,
            BasisTextureType::TextureType2DArray => 1,
            BasisTextureType::TextureTypeCubemapArray => 2,
            BasisTextureType::TextureTypeVideoFrames => 3,
            BasisTextureType::TextureTypeVolume => 4,
        }
    }

    /// The texture type for a wire code, when the code is one.
    pub open spec fn spec_from_code(code: u32) -> Option<BasisTextureType> {
        if code == 0 {
            Some(BasisTextureType::TextureType2D)
        } else if code == 1 {
            Some(BasisTextureType::TextureType2DArray)
        } else if code == 2 {
            Some(BasisTextureType::TextureTypeCubemapArray)
        } else if code == 3 {
            Some(BasisTextureType::TextureTypeVideoFrames)
        } else if code == 4 {
            Some(BasisTextureType::TextureTypeVolume)
        } else {
            None
        }
    }

    /// The stable wire code of this texture type.
    pub fn code(self) -> (r: u32)
        ensures
            r == self.spec_code(),
    {
        match self {
            BasisTextureType::TextureType2D => 0,
            BasisTextureType::TextureType2DArray => 1,
            BasisTextureType::TextureTypeCubemapArray => 2,
            BasisTextureType::TextureTypeVideoFrames => 3,
            BasisTextureType::TextureTypeVolume => 4,
        }
    }

    /// The texture type for a wire code, when the code is one.
    pub fn from_code(code: u32) -> (r: Option<BasisTextureType>)
        ensures
            r == BasisTextureType::spec_from_code(code),
    {
        if code == 0 {
            Some(BasisTextureType::TextureType2D)
        } else if code == 1 {
            Some(BasisTextureType::TextureType2DArray)
        } else if code == 2 {
            Some(BasisTextureType::TextureTypeCubemapArray)
        } else if code == 3 {
            Some(BasisTextureType::TextureTypeVideoFrames)
        } else if code == 4 {
            Some(BasisTextureType::TextureTypeVolume)
        } else {
            None
        }
    }

    /// The texture type's name.
    pub open spec fn spec_texture_type_name(self) -> Seq<char> {
        match self {
            BasisTextureType::TextureType2D => "2D"@,
            BasisTextureType::TextureType2DArray => "2D array"@,
            BasisTextureType::TextureTypeCubemapArray => "cubemap array"@,
            BasisTextureType::TextureTypeVideoFrames => "video frames"@,
            BasisTextureType::TextureTypeVolume => "volume"@,
        }
    }

    /// Returns the texture type's name in ASCII.
    pub fn texture_type_name(self) -> (r: &'static str)
        ensures
            r@ == self.spec_texture_type_name(),
    {
        match self {
            BasisTextureType::TextureType2D => "2D",
            BasisTextureType::TextureType2DArray => "2D array",
            BasisTextureType::TextureTypeCubemapArray => "cubemap array",
            BasisTextureType::TextureTypeVideoFrames => "video frames",
            BasisTextureType::TextureTypeVolume => "volume",
        }
    }
}

/// The sub-format a container stores its blocks in.
#[derive(Copy, Clone, Debug, PartialEq, Eq, Structural)]
pub enum BasisTextureFormat {
    /// A restricted subset of ETC1 with a shared endpoint/selector
    /// codebook: smaller files, lower quality.
    ETC1S,
    /// A fixed-rate 4x4 block sub-format: larger files, higher quality,
    /// with an optional RDO post-process.
    UASTC4x4,
}

impl BasisTextureFormat {
    /// The stable wire code of this sub-format.
    pub open spec fn spec_code(self) -> u32 {
        match self {
            BasisTextureFormat::ETC1S => 0,
            BasisTextureFormat::UASTC4x4 => 1,
        }
    }

    /// The sub-format for a wire code, when the code is one.
    pub open spec fn spec_from_code(code: u32) -> Option<BasisTextureFormat> {
        if code == 0 {
            Some(BasisTextureFormat::ETC1S)
        } else if code == 1 {
            Some(BasisTextureFormat::UASTC4x4)
        } else {
            None
        }
    }

    /// The stable wire code of this sub-format.
    pub fn code(self) -> (r: u32)
        ensures
            r == self.spec_code(),
    {
        match self {
            BasisTextureFormat::ETC1S => 0,
            BasisTextureFormat::UASTC4x4 => 1,
        }
    }

    /// The sub-format for a wire code, when the code is one.
    pub fn from_code(code: u32) -> (r: Option<BasisTextureFormat>)
        ensures
            r == BasisTextureFormat::spec_from_code(code),
    {
        if code == 0 {
            Some(BasisTextureFormat::ETC1S)
        } else if code == 1 {
            Some(BasisTextureFormat::UASTC4x4)
        } else {
            None
        }
    }

    /// Whether a container in this sub-format can be transcoded to the
    /// given target format; see [`TranscoderTextureFormat::spec_supported`].
    pub open spec fn spec_can_transcode_to_format(
        self,
        transcoder_texture_format: TranscoderTextureFormat,
    ) -> bool {
        transcoder_texture_format.spec_supported()
    }

    /// Returns true if the given target format is enabled in this build,
    /// so that containers of this sub-format can be transcoded to it.
    pub fn can_transcode_to_format(
        self,
        transcoder_texture_format: TranscoderTextureFormat,
    ) -> (r: bool)
        ensures
            r == self.spec_can_transcode_to_format(transcoder_texture_format),
    {
        transcoder_texture_format.supported()
    }
}

/// The texture format to transcode container data into.
///
/// The PVRTC1, PVRTC2, ATC and ETC2 EAC R11/RG11 targets are not enabled
/// in this build: the support check rejects them before any allocation.
#[allow(non_camel_case_types)]
#[derive(Copy, Clone, Debug, PartialEq, Eq, Structural)]
pub enum TranscoderTextureFormat {
    /// Opaque only.
    ETC1_RGB,
    /// Opaque plus alpha: an ETC2 EAC A8 block followed by an ETC1 block.
    ETC2_RGBA,
    /// Opaque only.
    BC1_RGB,
    /// Opaque plus alpha: a BC4 block followed by a BC1 block.
    BC3_RGBA,
    /// Red channel only.
    BC4_R,
    /// Two BC4 blocks: X from the color data, Y from the alpha data.
    BC5_RG,
    /// Color with optional alpha.
    BC7_RGBA,
    /// Opaque only; not enabled in this build.
    PVRTC1_4_RGB,
    /// Opaque plus alpha; not enabled in this build.
    PVRTC1_4_RGBA,
    /// Color plus alpha, 4x4 blocks.
    ASTC_4x4_RGBA,
    /// Opaque only; not enabled in this build.
    ATC_RGB,
    /// Opaque plus alpha; not enabled in this build.
    ATC_RGBA,
    /// Opaque only, with an 8x4 pixel block size.
    FXT1_RGB,
    /// Opaque only; not enabled in this build.
    PVRTC2_4_RGB,
    /// Opaque plus alpha; not enabled in this build.
    PVRTC2_4_RGBA,
    /// Red channel only; not enabled in this build.
    ETC2_EAC_R11,
    /// Red/green channels; not enabled in this build.
    ETC2_EAC_RG11,
    /// 32 bits per pixel RGBA in raster order, R first byte, A last byte.
    RGBA32,
    /// 16 bits per pixel RGB in raster order, R in the top five bits.
    RGB565,
    /// 16 bits per pixel RGB in raster order, B in the top five bits.
    BGR565,
    /// 16 bits per pixel RGBA in raster order, four bits per channel.
    RGBA4444,
}

impl TranscoderTextureFormat {
    /// Bytes per block for compressed formats, bytes per pixel for
    /// uncompressed formats.
    pub open spec fn spec_bytes_per_block_or_pixel(self) -> u32 {
        match self {
            TranscoderTextureFormat::ETC1_RGB => 8,
            TranscoderTextureFormat::ETC2_RGBA => 16,
            TranscoderTextureFormat::BC1_RGB => 8,
            TranscoderTextureFormat::BC3_RGBA => 16,
            TranscoderTextureFormat::BC4_R => 8,
            TranscoderTextureFormat::BC5_RG => 16,
            TranscoderTextureFormat::BC7_RGBA => 16,
            TranscoderTextureFormat::PVRTC1_4_RGB => 8,
            TranscoderTextureFormat::PVRTC1_4_RGBA => 8,
            TranscoderTextureFormat::ASTC_4x4_RGBA => 16,
            TranscoderTextureFormat::ATC_RGB => 8,
            TranscoderTextureFormat::ATC_RGBA => 16,
            TranscoderTextureFormat::FXT1_RGB => 8,
            TranscoderTextureFormat::PVRTC2_4_RGB => 8,
            TranscoderTextureFormat::PVRTC2_4_RGBA => 8,
            TranscoderTextureFormat::ETC2_EAC_R11 => 8,
            TranscoderTextureFormat::ETC2_EAC_RG11 => 16,
            TranscoderTextureFormat::RGBA32 => 4,
            TranscoderTextureFormat::RGB565 => 2,
            TranscoderTextureFormat::BGR565 => 2,
            TranscoderTextureFormat::RGBA4444 => 2,
        }
    }

    /// For compressed texture formats, the number of bytes per block; for
    /// uncompressed formats, the number of bytes per pixel.
    pub fn bytes_per_block_or_pixel(self) -> (r: u32)
        ensures
            r == self.spec_bytes_per_block_or_pixel(),
    {
        match self {
            TranscoderTextureFormat::ETC1_RGB => 8,
            TranscoderTextureFormat::ETC2_RGBA => 16,
            TranscoderTextureFormat::BC1_RGB => 8,
            TranscoderTextureFormat::BC3_RGBA => 16,
            TranscoderTextureFormat::BC4_R => 8,
            TranscoderTextureFormat::BC5_RG => 16,
            TranscoderTextureFormat::BC7_RGBA => 16,
            TranscoderTextureFormat::PVRTC1_4_RGB => 8,
            TranscoderTextureFormat::PVRTC1_4_RGBA => 8,
            TranscoderTextureFormat::ASTC_4x4_RGBA => 16,
            TranscoderTextureFormat::ATC_RGB => 8,
            TranscoderTextureFormat::ATC_RGBA => 16,
            TranscoderTextureFormat::FXT1_RGB => 8,
            TranscoderTextureFormat::PVRTC2_4_RGB => 8,
            TranscoderTextureFormat::PVRTC2_4_RGBA => 8,
            TranscoderTextureFormat::ETC2_EAC_R11 => 8,
            TranscoderTextureFormat::ETC2_EAC_RG11 => 16,
            TranscoderTextureFormat::RGBA32 => 4,
            TranscoderTextureFormat::RGB565 => 2,
            TranscoderTextureFormat::BGR565 => 2,
            TranscoderTextureFormat::RGBA4444 => 2,
        }
    }

    /// The format's name.
    pub open spec fn spec_format_name(self) -> Seq<char> {
        match self {
            TranscoderTextureFormat::ETC1_RGB => "ETC1_RGB"@,
            TranscoderTextureFormat::ETC2_RGBA => "ETC2_RGBA"@,
            TranscoderTextureFormat::BC1_RGB => "BC1_RGB"@,
            TranscoderTextureFormat::BC3_RGBA => "BC3_RGBA"@,
            TranscoderTextureFormat::BC4_R => "BC4_R"@,
            TranscoderTextureFormat::BC5_RG => "BC5_RG"@,
            TranscoderTextureFormat::BC7_RGBA => "BC7_RGBA"@,
            TranscoderTextureFormat::PVRTC1_4_RGB => "PVRTC1_4_RGB"@,
            TranscoderTextureFormat::PVRTC1_4_RGBA => "PVRTC1_4_RGBA"@,
            TranscoderTextureFormat::ASTC_4x4_RGBA => "ASTC_4x4_RGBA"@,
            TranscoderTextureFormat::ATC_RGB => "ATC_RGB"@,
            TranscoderTextureFormat::ATC_RGBA => "ATC_RGBA"@,
            TranscoderTextureFormat::FXT1_RGB => "FXT1_RGB"@,
            TranscoderTextureFormat::PVRTC2_4_RGB => "PVRTC2_4_RGB"@,
            TranscoderTextureFormat::PVRTC2_4_RGBA => "PVRTC2_4_RGBA"@,
            TranscoderTextureFormat::ETC2_EAC_R11 => "ETC2_EAC_R11"@,
            TranscoderTextureFormat::ETC2_EAC_RG11 => "ETC2_EAC_RG11"@,
            TranscoderTextureFormat::RGBA32 => "RGBA32"@,
            TranscoderTextureFormat::RGB565 => "RGB565"@,
            TranscoderTextureFormat::BGR565 => "BGR565"@,
            TranscoderTextureFormat::RGBA4444 => "RGBA4444"@,
        }
    }

    /// Returns the format's name in ASCII.
    pub fn format_name(self) -> (r: &'static str)
        ensures
            r@ == self.spec_format_name(),
    {
        match self {
            TranscoderTextureFormat::ETC1_RGB => "ETC1_RGB",
            TranscoderTextureFormat::ETC2_RGBA => "ETC2_RGBA",
            TranscoderTextureFormat::BC1_RGB => "BC1_RGB",
            TranscoderTextureFormat::BC3_RGBA => "BC3_RGBA",
            TranscoderTextureFormat::BC4_R => "BC4_R",
            TranscoderTextureFormat::BC5_RG => "BC5_RG",
            TranscoderTextureFormat::BC7_RGBA => "BC7_RGBA",
            TranscoderTextureFormat::PVRTC1_4_RGB => "PVRTC1_4_RGB",
            TranscoderTextureFormat::PVRTC1_4_RGBA => "PVRTC1_4_RGBA",
            TranscoderTextureFormat::ASTC_4x4_RGBA => "ASTC_4x4_RGBA",
            TranscoderTextureFormat::ATC_RGB => "ATC_RGB",
            TranscoderTextureFormat::ATC_RGBA => "ATC_RGBA",
            TranscoderTextureFormat::FXT1_RGB => "FXT1_RGB",
            TranscoderTextureFormat::PVRTC2_4_RGB => "PVRTC2_4_RGB",
            TranscoderTextureFormat::PVRTC2_4_RGBA => "PVRTC2_4_RGBA",
            TranscoderTextureFormat::ETC2_EAC_R11 => "ETC2_EAC_R11",
            TranscoderTextureFormat::ETC2_EAC_RG11 => "ETC2_EAC_RG11",
            TranscoderTextureFormat::RGBA32 => "RGBA32",
            TranscoderTextureFormat::RGB565 => "RGB565",
            TranscoderTextureFormat::BGR565 => "BGR565",
            TranscoderTextureFormat::RGBA4444 => "RGBA4444",
        }
    }

    /// Whether the format carries an alpha channel; a property of the
    /// format itself, independent of the input data.
    pub open spec fn spec_has_alpha(self) -> bool {
        match self {
            TranscoderTextureFormat::ETC2_RGBA => true,
            TranscoderTextureFormat::BC3_RGBA => true,
            TranscoderTextureFormat::BC7_RGBA => true,
            TranscoderTextureFormat::PVRTC1_4_RGBA => true,
            TranscoderTextureFormat::ASTC_4x4_RGBA => true,
            TranscoderTextureFormat::ATC_RGBA => true,
            TranscoderTextureFormat::PVRTC2_4_RGBA => true,
            TranscoderTextureFormat::RGBA32 => true,
            TranscoderTextureFormat::RGBA4444 => true,
            _ => false,
        }
    }

    /// Returns true if the format supports an alpha channel.
    pub fn has_alpha(self) -> (r: bool)
        ensures
            r == self.spec_has_alpha(),
    {
        match self {
            TranscoderTextureFormat::ETC2_RGBA => true,
            TranscoderTextureFormat::BC3_RGBA => true,
            TranscoderTextureFormat::BC7_RGBA => true,
            TranscoderTextureFormat::PVRTC1_4_RGBA => true,
            TranscoderTextureFormat::ASTC_4x4_RGBA => true,
            TranscoderTextureFormat::ATC_RGBA => true,
            TranscoderTextureFormat::PVRTC2_4_RGBA => true,
            TranscoderTextureFormat::RGBA32 => true,
            TranscoderTextureFormat::RGBA4444 => true,
            _ => false,
        }
    }

    /// Whether the format is block-compressed rather than raw pixels.
    pub open spec fn spec_is_compressed(self) -> bool {
        match self {
            TranscoderTextureFormat::RGBA32 => false,
            TranscoderTextureFormat::RGB565 => false,
            TranscoderTextureFormat::BGR565 => false,
            TranscoderTextureFormat::RGBA4444 => false,
            _ => true,
        }
    }

    /// Returns true if the format is a block-compressed format.
    pub fn is_compressed(self) -> (r: bool)
        ensures
            r == self.spec_is_compressed(),
    {
        match self {
            TranscoderTextureFormat::RGBA32 => false,
            TranscoderTextureFormat::RGB565 => false,
            TranscoderTextureFormat::BGR565 => false,
            TranscoderTextureFormat::RGBA4444 => false,
            _ => true,
        }
    }

    /// Returns the number of bytes per pixel for uncompressed formats, or
    /// 0 for block texture formats.
    pub fn uncompressed_bytes_per_pixel(self) -> (r: u32)
        ensures
            !self.spec_is_compressed() ==> r == self.spec_bytes_per_block_or_pixel(),
            self.spec_is_compressed() ==> r == 0,
    {
        match self {
            TranscoderTextureFormat::RGBA32 => 4,
            TranscoderTextureFormat::RGB565 => 2,
            TranscoderTextureFormat::BGR565 => 2,
            TranscoderTextureFormat::RGBA4444 => 2,
            _ => 0,
        }
    }

    /// The pixel width of one block: 8 for FXT1, otherwise 4.
    pub open spec fn spec_block_width(self) -> u32 {
        if self == TranscoderTextureFormat::FXT1_RGB {
            8
        } else {
            4
        }
    }

    /// Returns the block width of the format, which is 8 for FXT1 and 4
    /// otherwise.
    pub fn block_width(self) -> (r: u32)
        ensures
            r == self.spec_block_width(),
    {
        if self == TranscoderTextureFormat::FXT1_RGB {
            8
        } else {
            4
        }
    }

    /// Returns the block height of the format, which is always 4.
    pub fn block_height(self) -> (r: u32)
        ensures
            r == 4,
    {
        4
    }

    /// Whether the format is enabled in this build.
    pub open spec fn spec_supported(self) -> bool {
        match self {
            TranscoderTextureFormat::PVRTC1_4_RGB => false,
            TranscoderTextureFormat::PVRTC1_4_RGBA => false,
            TranscoderTextureFormat::ATC_RGB => false,
            TranscoderTextureFormat::ATC_RGBA => false,
            TranscoderTextureFormat::PVRTC2_4_RGB => false,
            TranscoderTextureFormat::PVRTC2_4_RGBA => false,
            TranscoderTextureFormat::ETC2_EAC_R11 => false,
            TranscoderTextureFormat::ETC2_EAC_RG11 => false,
            _ => true,
        }
    }

    /// Returns true if the format is enabled in this build.
    pub fn supported(self) -> (r: bool)
        ensures
            r == self.spec_supported(),
    {
        match self {
            TranscoderTextureFormat::PVRTC1_4_RGB => false,
            TranscoderTextureFormat::PVRTC1_4_RGBA => false,
            TranscoderTextureFormat::ATC_RGB => false,
            TranscoderTextureFormat::ATC_RGBA => false,
            TranscoderTextureFormat::PVRTC2_4_RGB => false,
            TranscoderTextureFormat::PVRTC2_4_RGBA => false,
            TranscoderTextureFormat::ETC2_EAC_R11 => false,
            TranscoderTextureFormat::ETC2_EAC_RG11 => false,
            _ => true,
        }
    }

    /// Returns true if containers of the given sub-format can be
    /// transcoded to this format.
    pub fn can_transcode_from_format(
        self,
        basis_texture_format: BasisTextureFormat,
    ) -> (r: bool)
        ensures
            r == basis_texture_format.spec_can_transcode_to_format(self),
    {
        basis_texture_format.can_transcode_to_format(self)
    }

    /// The block format a transcode to this target writes.
    pub open spec fn spec_block_format(self) -> TranscoderBlockFormat {
        match self {
            TranscoderTextureFormat::ETC1_RGB => TranscoderBlockFormat::ETC1,
            TranscoderTextureFormat::ETC2_RGBA => TranscoderBlockFormat::ETC2_RGBA,
            TranscoderTextureFormat::BC1_RGB => TranscoderBlockFormat::BC1,
            TranscoderTextureFormat::BC3_RGBA => TranscoderBlockFormat::BC3,
            TranscoderTextureFormat::BC4_R => TranscoderBlockFormat::BC4,
            TranscoderTextureFormat::BC5_RG => TranscoderBlockFormat::BC5,
            TranscoderTextureFormat::BC7_RGBA => TranscoderBlockFormat::BC7,
            TranscoderTextureFormat::PVRTC1_4_RGB => TranscoderBlockFormat::PVRTC1_4_RGB,
            TranscoderTextureFormat::PVRTC1_4_RGBA => TranscoderBlockFormat::PVRTC1_4_RGBA,
            TranscoderTextureFormat::ASTC_4x4_RGBA => TranscoderBlockFormat::ASTC_4x4,
            TranscoderTextureFormat::ATC_RGB => TranscoderBlockFormat::ATC_RGB,
            TranscoderTextureFormat::ATC_RGBA => TranscoderBlockFormat::ATC_RGBA_INTERPOLATED_ALPHA,
            TranscoderTextureFormat::FXT1_RGB => TranscoderBlockFormat::FXT1_RGB,
            TranscoderTextureFormat::PVRTC2_4_RGB => TranscoderBlockFormat::PVRTC2_4_RGB,
            TranscoderTextureFormat::PVRTC2_4_RGBA => TranscoderBlockFormat::PVRTC2_4_RGBA,
            TranscoderTextureFormat::ETC2_EAC_R11 => TranscoderBlockFormat::ETC2_EAC_R11,
            TranscoderTextureFormat::ETC2_EAC_RG11 => TranscoderBlockFormat::ETC2_EAC_RG11,
            TranscoderTextureFormat::RGBA32 => TranscoderBlockFormat::RGBA32,
            TranscoderTextureFormat::RGB565 => TranscoderBlockFormat::RGB565,
            TranscoderTextureFormat::BGR565 => TranscoderBlockFormat::BGR565,
            TranscoderTextureFormat::RGBA4444 => TranscoderBlockFormat::RGBA4444,
        }
    }

    /// The block format a transcode to this target writes.
    pub fn block_format(self) -> (r: TranscoderBlockFormat)
        ensures
            r == self.spec_block_format(),
    {
        match self {
            TranscoderTextureFormat::ETC1_RGB => TranscoderBlockFormat::ETC1,
            TranscoderTextureFormat::ETC2_RGBA => TranscoderBlockFormat::ETC2_RGBA,
            TranscoderTextureFormat::BC1_RGB => TranscoderBlockFormat::BC1,
            TranscoderTextureFormat::BC3_RGBA => TranscoderBlockFormat::BC3,
            TranscoderTextureFormat::BC4_R => TranscoderBlockFormat::BC4,
            TranscoderTextureFormat::BC5_RG => TranscoderBlockFormat::BC5,
            TranscoderTextureFormat::BC7_RGBA => TranscoderBlockFormat::BC7,
            TranscoderTextureFormat::PVRTC1_4_RGB => TranscoderBlockFormat::PVRTC1_4_RGB,
            TranscoderTextureFormat::PVRTC1_4_RGBA => TranscoderBlockFormat::PVRTC1_4_RGBA,
            TranscoderTextureFormat::ASTC_4x4_RGBA => TranscoderBlockFormat::ASTC_4x4,
            TranscoderTextureFormat::ATC_RGB => TranscoderBlockFormat::ATC_RGB,
            TranscoderTextureFormat::ATC_RGBA => TranscoderBlockFormat::ATC_RGBA_INTERPOLATED_ALPHA,
            TranscoderTextureFormat::FXT1_RGB => TranscoderBlockFormat::FXT1_RGB,
            TranscoderTextureFormat::PVRTC2_4_RGB => TranscoderBlockFormat::PVRTC2_4_RGB,
            TranscoderTextureFormat::PVRTC2_4_RGBA => TranscoderBlockFormat::PVRTC2_4_RGBA,
            TranscoderTextureFormat::ETC2_EAC_R11 => TranscoderBlockFormat::ETC2_EAC_R11,
            TranscoderTextureFormat::ETC2_EAC_RG11 => TranscoderBlockFormat::ETC2_EAC_RG11,
            TranscoderTextureFormat::RGBA32 => TranscoderBlockFormat::RGBA32,
            TranscoderTextureFormat::RGB565 => TranscoderBlockFormat::RGB565,
            TranscoderTextureFormat::BGR565 => TranscoderBlockFormat::BGR565,
            TranscoderTextureFormat::RGBA4444 => TranscoderBlockFormat::RGBA4444,
        }
    }

    /// The minimum output buffer size in blocks (compressed formats) or
    /// pixels (uncompressed formats).
    ///
    /// For uncompressed formats this is rows times pitch, where a zero or
    /// absent override falls back to the original dimension. For FXT1 it
    /// is derived from the dimensions and the 8x4 block size. For every
    /// other compressed format it is the slice's stored block count,
    /// which already accounts for padding to block boundaries.
    pub open spec fn spec_min_output_units(
        self,
        original_width: u32,
        original_height: u32,
        total_slice_blocks: u32,
        output_row_pitch: Option<u32>,
        output_rows: Option<u32>,
    ) -> int {
        if !self.spec_is_compressed() {
            let pitch: int = match output_row_pitch {
                Some(p) => if p == 0 { original_width as int } else { p as int },
                None => original_width as int,
            };
            let rows: int = match output_rows {
                Some(r) => if r == 0 { original_height as int } else { r as int },
                None => original_height as int,
            };
            rows * pitch
        } else if self == TranscoderTextureFormat::FXT1_RGB {
            ((original_width + 7) / 8) * ((original_height + 3) / 4)
        } else {
            total_slice_blocks as int
        }
    }

    /// Calculate the minimum output buffer required to store transcoded
    /// data, in blocks for compressed formats and pixels for uncompressed
    /// formats.
    pub fn calculate_minimum_output_buffer_blocks_or_pixels(
        self,
        original_width: u32,
        original_height: u32,
        total_slice_blocks: u32,
        output_row_pitch_in_blocks_or_pixels: Option<u32>,
        output_rows_in_pixels: Option<u32>,
    ) -> (r: u32)
        requires
            self.spec_min_output_units(
                original_width,
                original_height,
                total_slice_blocks,
                output_row_pitch_in_blocks_or_pixels,
                output_rows_in_pixels,
            ) <= u32::MAX,
        ensures
            r == self.spec_min_output_units(
                original_width,
                original_height,
                total_slice_blocks,
                output_row_pitch_in_blocks_or_pixels,
                output_rows_in_pixels,
            ),
    {
        if !self.is_compressed() {
            let pitch: u32 = match output_row_pitch_in_blocks_or_pixels {
                Some(p) => if p == 0 { original_width } else { p },
                None => original_width,
            };
            let rows: u32 = match output_rows_in_pixels {
                Some(r) => if r == 0 { original_height } else { r },
                None => original_height,
            };
            mul_u32_wide(rows, pitch) as u32
        } else if self == TranscoderTextureFormat::FXT1_RGB {
            let num_blocks_fxt1_x: u32 = (((original_width as u64) + 7) / 8) as u32;
            let num_blocks_fxt1_y: u32 = (((original_height as u64) + 3) / 4) as u32;
            num_blocks_fxt1_x * num_blocks_fxt1_y
        } else {
            total_slice_blocks
        }
    }

    /// Calculate the minimum output buffer required to store transcoded
    /// data, in bytes.
    pub fn calculate_minimum_output_buffer_bytes(
        self,
        original_width: u32,
        original_height: u32,
        total_slice_blocks: u32,
        output_row_pitch_in_blocks_or_pixels: Option<u32>,
        output_rows_in_pixels: Option<u32>,
    ) -> (r: u32)
        requires
            self.spec_min_output_units(
                original_width,
                original_height,
                total_slice_blocks,
                output_row_pitch_in_blocks_or_pixels,
                output_rows_in_pixels,
            ) * self.spec_bytes_per_block_or_pixel() <= u32::MAX,
        ensures
            r == self.spec_min_output_units(
                original_width,
                original_height,
                total_slice_blocks,
                output_row_pitch_in_blocks_or_pixels,
                output_rows_in_pixels,
            ) * self.spec_bytes_per_block_or_pixel(),
    {
        let ghost units_ghost = self.spec_min_output_units(
            original_width,
            original_height,
            total_slice_blocks,
            output_row_pitch_in_blocks_or_pixels,
            output_rows_in_pixels,
        );
        let bpb = self.bytes_per_block_or_pixel();
        proof {
            assert(units_ghost * bpb <= u32::MAX);
            assert(bpb >= 1);
            vstd::arithmetic::mul::lemma_mul_inequality(units_ghost, u32::MAX as int, bpb as int);
        }
        let units = self.calculate_minimum_output_buffer_blocks_or_pixels(
            original_width,
            original_height,
            total_slice_blocks,
            output_row_pitch_in_blocks_or_pixels,
            output_rows_in_pixels,
        );
        units * bpb
    }

    /// Verify that a caller-supplied buffer size, in blocks or pixels, is
    /// large enough for the transcoded data.
    pub fn validate_output_buffer_size(
        self,
        output_blocks_buf_size_in_blocks_or_pixels: u32,
        original_width: u32,
        original_height: u32,
        total_slice_blocks: u32,
        output_row_pitch_in_blocks_or_pixels: Option<u32>,
        output_rows_in_pixels: Option<u32>,
    ) -> (r: bool)
        ensures
            r == (output_blocks_buf_size_in_blocks_or_pixels >= self.spec_min_output_units(
                original_width,
                original_height,
                total_slice_blocks,
                output_row_pitch_in_blocks_or_pixels,
                output_rows_in_pixels,
            )),
    {
        if !self.is_compressed() {
            let pitch: u32 = match output_row_pitch_in_blocks_or_pixels {
                Some(p) => if p == 0 { original_width } else { p },
                None => original_width,
            };
            let rows: u32 = match output_rows_in_pixels {
                Some(r) => if r == 0 { original_height } else { r },
                None => original_height,
            };
            (output_blocks_buf_size_in_blocks_or_pixels as u64) >= mul_u32_wide(rows, pitch)
        } else if self == TranscoderTextureFormat::FXT1_RGB {
            let num_blocks_fxt1_x: u32 = (((original_width as u64) + 7) / 8) as u32;
            let num_blocks_fxt1_y: u32 = (((original_height as u64) + 3) / 4) as u32;
            (output_blocks_buf_size_in_blocks_or_pixels as u64) >= mul_u32_wide(
                num_blocks_fxt1_x,
                num_blocks_fxt1_y,
            )
        } else {
            output_blocks_buf_size_in_blocks_or_pixels >= total_slice_blocks
        }
    }
}

/// The block format to transcode universal texture data into: the
/// low-level, per-block counterpart of [`TranscoderTextureFormat`].
#[allow(non_camel_case_types)]
#[derive(Copy, Clone, Debug, PartialEq, Eq, Structural)]
pub enum TranscoderBlockFormat {
    /// ETC1S RGB.
    ETC1,
    /// Full ETC2 EAC RGBA8 block.
    ETC2_RGBA,
    /// DXT1 RGB.
    BC1,
    /// BC4 block followed by a four color BC1 block.
    BC3,
    /// DXT5A, alpha block only.
    BC4,
    /// Two BC4 blocks.
    BC5,
    /// Opaque-only PVRTC1 4 bits per pixel.
    PVRTC1_4_RGB,
    /// PVRTC1 4 bits per pixel RGBA.
    PVRTC1_4_RGBA,
    /// Full BC7 block, any mode.
    BC7,
    /// RGB BC7 mode 5 color.
    BC7_M5_COLOR,
    /// Alpha portion of BC7 mode 5.
    BC7_M5_ALPHA,
    /// Alpha block of ETC2 EAC.
    ETC2_EAC_A8,
    /// ASTC 4x4, color-only or color plus alpha.
    ASTC_4x4,
    ATC_RGB,
    ATC_RGBA_INTERPOLATED_ALPHA,
    /// Opaque-only, with an 8x4 pixel block size.
    FXT1_RGB,
    PVRTC2_4_RGB,
    PVRTC2_4_RGBA,
    ETC2_EAC_R11,
    ETC2_EAC_RG11,
    /// 16-bit endpoint and selector indices written directly to output.
    Indices,
    /// RGB components written to 32 bits per pixel output.
    RGB32,
    /// RGBA components written to 32 bits per pixel output.
    RGBA32,
    /// Alpha component written to 32 bits per pixel output.
    A32,
    RGB565,
    BGR565,
    RGBA4444_COLOR,
    RGBA4444_ALPHA,
    RGBA4444_COLOR_OPAQUE,
    RGBA4444,
}

impl TranscoderBlockFormat {
    /// Bytes per block for compressed block formats, bytes per pixel
    /// for uncompressed ones.
    pub open spec fn spec_bytes_per_block_or_pixel(self) -> u32 {
        match self {
            TranscoderBlockFormat::ETC1 => 8,
            TranscoderBlockFormat::ETC2_RGBA => 16,
            TranscoderBlockFormat::BC1 => 8,
            TranscoderBlockFormat::BC3 => 16,
            TranscoderBlockFormat::BC4 => 8,
            TranscoderBlockFormat::BC5 => 16,
            TranscoderBlockFormat::PVRTC1_4_RGB => 8,
            TranscoderBlockFormat::PVRTC1_4_RGBA => 8,
            TranscoderBlockFormat::BC7 => 16,
            TranscoderBlockFormat::BC7_M5_COLOR => 16,
            TranscoderBlockFormat::BC7_M5_ALPHA => 16,
            TranscoderBlockFormat::ETC2_EAC_A8 => 8,
            TranscoderBlockFormat::ASTC_4x4 => 16,
            TranscoderBlockFormat::ATC_RGB => 8,
            TranscoderBlockFormat::ATC_RGBA_INTERPOLATED_ALPHA => 16,
            TranscoderBlockFormat::FXT1_RGB => 8,
            TranscoderBlockFormat::PVRTC2_4_RGB => 8,
            TranscoderBlockFormat::PVRTC2_4_RGBA => 8,
            TranscoderBlockFormat::ETC2_EAC_R11 => 8,
            TranscoderBlockFormat::ETC2_EAC_RG11 => 16,
            TranscoderBlockFormat::Indices => 2,
            TranscoderBlockFormat::RGB32 => 4,
            TranscoderBlockFormat::RGBA32 => 4,
            TranscoderBlockFormat::A32 => 4,
            TranscoderBlockFormat::RGB565 => 2,
            TranscoderBlockFormat::BGR565 => 2,
            TranscoderBlockFormat::RGBA4444_COLOR => 2,
            TranscoderBlockFormat::RGBA4444_ALPHA => 2,
            TranscoderBlockFormat::RGBA4444_COLOR_OPAQUE => 2,
            TranscoderBlockFormat::RGBA4444 => 2,
        }
    }

    /// For compressed block formats, the number of bytes per block; for
    /// uncompressed ones, the number of bytes per pixel.
    pub fn bytes_per_block_or_pixel(self) -> (r: u32)
        ensures
            r == self.spec_bytes_per_block_or_pixel(),
    {
        match self {
            TranscoderBlockFormat::ETC1 => 8,
            TranscoderBlockFormat::ETC2_RGBA => 16,
            TranscoderBlockFormat::BC1 => 8,
            TranscoderBlockFormat::BC3 => 16,
            TranscoderBlockFormat::BC4 => 8,
            TranscoderBlockFormat::BC5 => 16,
            TranscoderBlockFormat::PVRTC1_4_RGB => 8,
            TranscoderBlockFormat::PVRTC1_4_RGBA => 8,
            TranscoderBlockFormat::BC7 => 16,
            TranscoderBlockFormat::BC7_M5_COLOR => 16,
            TranscoderBlockFormat::BC7_M5_ALPHA => 16,
            TranscoderBlockFormat::ETC2_EAC_A8 => 8,
            TranscoderBlockFormat::ASTC_4x4 => 16,
            TranscoderBlockFormat::ATC_RGB => 8,
            TranscoderBlockFormat::ATC_RGBA_INTERPOLATED_ALPHA => 16,
            TranscoderBlockFormat::FXT1_RGB => 8,
            TranscoderBlockFormat::PVRTC2_4_RGB => 8,
            TranscoderBlockFormat::PVRTC2_4_RGBA => 8,
            TranscoderBlockFormat::ETC2_EAC_R11 => 8,
            TranscoderBlockFormat::ETC2_EAC_RG11 => 16,
            TranscoderBlockFormat::Indices => 2,
            TranscoderBlockFormat::RGB32 => 4,
            TranscoderBlockFormat::RGBA32 => 4,
            TranscoderBlockFormat::A32 => 4,
            TranscoderBlockFormat::RGB565 => 2,
            TranscoderBlockFormat::BGR565 => 2,
            TranscoderBlockFormat::RGBA4444_COLOR => 2,
            TranscoderBlockFormat::RGBA4444_ALPHA => 2,
            TranscoderBlockFormat::RGBA4444_COLOR_OPAQUE => 2,
            TranscoderBlockFormat::RGBA4444 => 2,
        }
    }

    /// The block format's name.
    pub open spec fn spec_format_name(self) -> Seq<char> {
        match self {
            TranscoderBlockFormat::ETC1 => "ETC1"@,
            TranscoderBlockFormat::ETC2_RGBA => "ETC2_RGBA"@,
            TranscoderBlockFormat::BC1 => "BC1"@,
            TranscoderBlockFormat::BC3 => "BC3"@,
            TranscoderBlockFormat::BC4 => "BC4"@,
            TranscoderBlockFormat::BC5 => "BC5"@,
            TranscoderBlockFormat::PVRTC1_4_RGB => "PVRTC1_4_RGB"@,
            TranscoderBlockFormat::PVRTC1_4_RGBA => "PVRTC1_4_RGBA"@,
            TranscoderBlockFormat::BC7 => "BC7"@,
            TranscoderBlockFormat::BC7_M5_COLOR => "BC7_M5_COLOR"@,
            TranscoderBlockFormat::BC7_M5_ALPHA => "BC7_M5_ALPHA"@,
            TranscoderBlockFormat::ETC2_EAC_A8 => "ETC2_EAC_A8"@,
            TranscoderBlockFormat::ASTC_4x4 => "ASTC_4x4"@,
            TranscoderBlockFormat::ATC_RGB => "ATC_RGB"@,
            TranscoderBlockFormat::ATC_RGBA_INTERPOLATED_ALPHA => "ATC_RGBA_INTERPOLATED_ALPHA"@,
            TranscoderBlockFormat::FXT1_RGB => "FXT1_RGB"@,
            TranscoderBlockFormat::PVRTC2_4_RGB => "PVRTC2_4_RGB"@,
            TranscoderBlockFormat::PVRTC2_4_RGBA => "PVRTC2_4_RGBA"@,
            TranscoderBlockFormat::ETC2_EAC_R11 => "ETC2_EAC_R11"@,
            TranscoderBlockFormat::ETC2_EAC_RG11 => "ETC2_EAC_RG11"@,
            TranscoderBlockFormat::Indices => "Indices"@,
            TranscoderBlockFormat::RGB32 => "RGB32"@,
            TranscoderBlockFormat::RGBA32 => "RGBA32"@,
            TranscoderBlockFormat::A32 => "A32"@,
            TranscoderBlockFormat::RGB565 => "RGB565"@,
            TranscoderBlockFormat::BGR565 => "BGR565"@,
            TranscoderBlockFormat::RGBA4444_COLOR => "RGBA4444_COLOR"@,
            TranscoderBlockFormat::RGBA4444_ALPHA => "RGBA4444_ALPHA"@,
            TranscoderBlockFormat::RGBA4444_COLOR_OPAQUE => "RGBA4444_COLOR_OPAQUE"@,
            TranscoderBlockFormat::RGBA4444 => "RGBA4444"@,
        }
    }

    /// Returns the block format's name in ASCII.
    pub fn format_name(self) -> (r: &'static str)
        ensures
            r@ == self.spec_format_name(),
    {
        match self {
            TranscoderBlockFormat::ETC1 => "ETC1",
            TranscoderBlockFormat::ETC2_RGBA => "ETC2_RGBA",
            TranscoderBlockFormat::BC1 => "BC1",
            TranscoderBlockFormat::BC3 => "BC3",
            TranscoderBlockFormat::BC4 => "BC4",
            TranscoderBlockFormat::BC5 => "BC5",
            TranscoderBlockFormat::PVRTC1_4_RGB => "PVRTC1_4_RGB",
            TranscoderBlockFormat::PVRTC1_4_RGBA => "PVRTC1_4_RGBA",
            TranscoderBlockFormat::BC7 => "BC7",
            TranscoderBlockFormat::BC7_M5_COLOR => "BC7_M5_COLOR",
            TranscoderBlockFormat::BC7_M5_ALPHA => "BC7_M5_ALPHA",
            TranscoderBlockFormat::ETC2_EAC_A8 => "ETC2_EAC_A8",
            TranscoderBlockFormat::ASTC_4x4 => "ASTC_4x4",
            TranscoderBlockFormat::ATC_RGB => "ATC_RGB",
            TranscoderBlockFormat::ATC_RGBA_INTERPOLATED_ALPHA => "ATC_RGBA_INTERPOLATED_ALPHA",
            TranscoderBlockFormat::FXT1_RGB => "FXT1_RGB",
            TranscoderBlockFormat::PVRTC2_4_RGB => "PVRTC2_4_RGB",
            TranscoderBlockFormat::PVRTC2_4_RGBA => "PVRTC2_4_RGBA",
            TranscoderBlockFormat::ETC2_EAC_R11 => "ETC2_EAC_R11",
            TranscoderBlockFormat::ETC2_EAC_RG11 => "ETC2_EAC_RG11",
            TranscoderBlockFormat::Indices => "Indices",
            TranscoderBlockFormat::RGB32 => "RGB32",
            TranscoderBlockFormat::RGBA32 => "RGBA32",
            TranscoderBlockFormat::A32 => "A32",
            TranscoderBlockFormat::RGB565 => "RGB565",
            TranscoderBlockFormat::BGR565 => "BGR565",
            TranscoderBlockFormat::RGBA4444_COLOR => "RGBA4444_COLOR",
            TranscoderBlockFormat::RGBA4444_ALPHA => "RGBA4444_ALPHA",
            TranscoderBlockFormat::RGBA4444_COLOR_OPAQUE => "RGBA4444_COLOR_OPAQUE",
            TranscoderBlockFormat::RGBA4444 => "RGBA4444",
        }
    }

    /// Whether the block format writes per-block units rather than raw
    /// raster pixels; the two-byte index stream is per block.
    pub open spec fn spec_is_compressed(self) -> bool {
        match self {
            TranscoderBlockFormat::RGB32 => false,
            TranscoderBlockFormat::RGBA32 => false,
            TranscoderBlockFormat::A32 => false,
            TranscoderBlockFormat::RGB565 => false,
            TranscoderBlockFormat::BGR565 => false,
            TranscoderBlockFormat::RGBA4444_COLOR => false,
            TranscoderBlockFormat::RGBA4444_ALPHA => false,
            TranscoderBlockFormat::RGBA4444_COLOR_OPAQUE => false,
            TranscoderBlockFormat::RGBA4444 => false,
            _ => true,
        }
    }

    /// Returns true if the block format is a compressed format.
    pub fn is_compressed(self) -> (r: bool)
        ensures
            r == self.spec_is_compressed(),
    {
        match self {
            TranscoderBlockFormat::RGB32 => false,
            TranscoderBlockFormat::RGBA32 => false,
            TranscoderBlockFormat::A32 => false,
            TranscoderBlockFormat::RGB565 => false,
            TranscoderBlockFormat::BGR565 => false,
            TranscoderBlockFormat::RGBA4444_COLOR => false,
            TranscoderBlockFormat::RGBA4444_ALPHA => false,
            TranscoderBlockFormat::RGBA4444_COLOR_OPAQUE => false,
            TranscoderBlockFormat::RGBA4444 => false,
            _ => true,
        }
    }

    /// The pixel width of one block: 8 for FXT1, otherwise 4.
    pub open spec fn spec_block_width(self) -> u32 {
        if self == TranscoderBlockFormat::FXT1_RGB {
            8
        } else {
            4
        }
    }

    /// Returns the block width of the format, which is 8 for FXT1 and 4
    /// otherwise.
    pub fn block_width(self) -> (r: u32)
        ensures
            r == self.spec_block_width(),
    {
        if self == TranscoderBlockFormat::FXT1_RGB {
            8
        } else {
            4
        }
    }

    /// Returns the block height of the format, which is always 4.
    pub fn block_height(self) -> (r: u32)
        ensures
            r == 4,
    {
        4
    }

    /// Whether this build has a block writer for the format: the
    /// ETC1/ETC2, BC and ASTC families and FXT1. The PVRTC, ATC and
    /// EAC R11/RG11 families, the BC7 mode-5 halves, and the raw index
    /// stream are not enabled in this build.
    pub open spec fn spec_supported(self) -> bool {
        match self {
            TranscoderBlockFormat::ETC1 => true,
            TranscoderBlockFormat::ETC2_RGBA => true,
            TranscoderBlockFormat::BC1 => true,
            TranscoderBlockFormat::BC3 => true,
            TranscoderBlockFormat::BC4 => true,
            TranscoderBlockFormat::BC5 => true,
            TranscoderBlockFormat::BC7 => true,
            TranscoderBlockFormat::ETC2_EAC_A8 => true,
            TranscoderBlockFormat::ASTC_4x4 => true,
            TranscoderBlockFormat::FXT1_RGB => true,
            _ => false,
        }
    }

    /// Returns true if this build has a block writer for the format.
    pub fn supported(self) -> (r: bool)
        ensures
            r == self.spec_supported(),
    {
        match self {
            TranscoderBlockFormat::ETC1 => true,
            TranscoderBlockFormat::ETC2_RGBA => true,
            TranscoderBlockFormat::BC1 => true,
            TranscoderBlockFormat::BC3 => true,
            TranscoderBlockFormat::BC4 => true,
            TranscoderBlockFormat::BC5 => true,
            TranscoderBlockFormat::BC7 => true,
            TranscoderBlockFormat::ETC2_EAC_A8 => true,
            TranscoderBlockFormat::ASTC_4x4 => true,
            TranscoderBlockFormat::FXT1_RGB => true,
            _ => false,
        }
    }

    /// The minimum output buffer size in blocks (compressed block
    /// formats) or pixels (uncompressed ones), by the same rules as
    /// [`TranscoderTextureFormat::spec_min_output_units`].
    pub open spec fn spec_min_output_units(
        self,
        original_width: u32,
        original_height: u32,
        total_slice_blocks: u32,
        output_row_pitch: Option<u32>,
        output_rows: Option<u32>,
    ) -> int {
        if !self.spec_is_compressed() {
            let pitch: int = match output_row_pitch {
                Some(p) => if p == 0 { original_width as int } else { p as int },
                None => original_width as int,
            };
            let rows: int = match output_rows {
                Some(r) => if r == 0 { original_height as int } else { r as int },
                None => original_height as int,
            };
            rows * pitch
        } else if self == TranscoderBlockFormat::FXT1_RGB {
            ((original_width + 7) / 8) * ((original_height + 3) / 4)
        } else {
            total_slice_blocks as int
        }
    }

    /// Calculate the minimum output buffer required to store transcoded
    /// data, in blocks for compressed block formats and pixels for
    /// uncompressed ones.
    pub fn calculate_minimum_output_buffer_blocks_or_pixels(
        self,
        original_width: u32,
        original_height: u32,
        total_slice_blocks: u32,
        output_row_pitch_in_blocks_or_pixels: Option<u32>,
        output_rows_in_pixels: Option<u32>,
    ) -> (r: u32)
        requires
            self.spec_min_output_units(
                original_width,
                original_height,
                total_slice_blocks,
                output_row_pitch_in_blocks_or_pixels,
                output_rows_in_pixels,
            ) <= u32::MAX,
        ensures
            r == self.spec_min_output_units(
                original_width,
                original_height,
                total_slice_blocks,
                output_row_pitch_in_blocks_or_pixels,
                output_rows_in_pixels,
            ),
    {
        if !self.is_compressed() {
            let pitch: u32 = match output_row_pitch_in_blocks_or_pixels {
                Some(p) => if p == 0 { original_width } else { p },
                None => original_width,
            };
            let rows: u32 = match output_rows_in_pixels {
                Some(r) => if r == 0 { original_height } else { r },
                None => original_height,
            };
            mul_u32_wide(rows, pitch) as u32
        } else if self == TranscoderBlockFormat::FXT1_RGB {
            let num_blocks_fxt1_x: u32 = (((original_width as u64) + 7) / 8) as u32;
            let num_blocks_fxt1_y: u32 = (((original_height as u64) + 3) / 4) as u32;
            num_blocks_fxt1_x * num_blocks_fxt1_y
        } else {
            total_slice_blocks
        }
    }

    /// Calculate the minimum output buffer required to store transcoded
    /// data, in bytes.
    pub fn calculate_minimum_output_buffer_bytes(
        self,
        original_width: u32,
        original_height: u32,
        total_slice_blocks: u32,
        output_row_pitch_in_blocks_or_pixels: Option<u32>,
        output_rows_in_pixels: Option<u32>,
    ) -> (r: u32)
        requires
            self.spec_min_output_units(
                original_width,
                original_height,
                total_slice_blocks,
                output_row_pitch_in_blocks_or_pixels,
                output_rows_in_pixels,
            ) * self.spec_bytes_per_block_or_pixel() <= u32::MAX,
        ensures
            r == self.spec_min_output_units(
                original_width,
                original_height,
                total_slice_blocks,
                output_row_pitch_in_blocks_or_pixels,
                output_rows_in_pixels,
            ) * self.spec_bytes_per_block_or_pixel(),
    {
        let ghost units_ghost = self.spec_min_output_units(
            original_width,
            original_height,
            total_slice_blocks,
            output_row_pitch_in_blocks_or_pixels,
            output_rows_in_pixels,
        );
        let bpb = self.bytes_per_block_or_pixel();
        proof {
            assert(bpb >= 1);
            vstd::arithmetic::mul::lemma_mul_inequality(units_ghost, u32::MAX as int, bpb as int);
        }
        let units = self.calculate_minimum_output_buffer_blocks_or_pixels(
            original_width,
            original_height,
            total_slice_blocks,
            output_row_pitch_in_blocks_or_pixels,
            output_rows_in_pixels,
        );
        units * bpb
    }
}

/// Decode flag: decode a non-power-of-two level to the next larger power
/// of two. Accepted and recorded; the block writers here do not change
/// their layout for it.
pub const DECODE_FLAGS_PVRTC_DECODE_TO_NEXT_POW_2: u32 = 2;

/// Decode flag: when decoding to an opaque format, decode the alpha slice
/// instead of the color slice if the container has one.
pub const DECODE_FLAGS_TRANSCODE_ALPHA_DATA_TO_OPAQUE_FORMATS: u32 = 4;

/// Decode flag: forbid three-color blocks in BC1 output. The BC1-style
/// blocks written here always order their endpoints as a four-color
/// block, so the flag is accepted and already honored.
pub const DECODE_FLAGS_BC1_FORBID_THREE_COLOR_BLOCKS: u32 = 8;

/// Decode flag: the output buffer holds alpha endpoint/selector indices.
pub const DECODE_FLAGS_OUTPUT_HAS_ALPHA_INDICES: u32 = 16;

/// Decode flag: prefer higher quality over speed where a writer has the
/// choice.
pub const DECODE_FLAGS_HIGH_QUALITY: u32 = 32;

/// A set of flags that affect transcoding, stored as a bit set.
#[derive(Copy, Clone, Debug, PartialEq, Eq, Structural)]
pub struct DecodeFlags {
    pub bits: u32,
}

impl DecodeFlags {
    /// The empty flag set.
    pub fn empty() -> (r: DecodeFlags)
        ensures
            r.bits == 0,
    {
        DecodeFlags { bits: 0 }
    }

    /// The flag set with exactly the given bits.
    pub fn from_bits(bits: u32) -> (r: DecodeFlags)
        ensures
            r.bits == bits,
    {
        DecodeFlags { bits }
    }

    /// The raw bits of the flag set.
    pub fn bits(self) -> (r: u32)
        ensures
            r == self.bits,
    {
        self.bits
    }

    /// Whether every bit of `flag` is set.
    pub open spec fn spec_contains(self, flag: u32) -> bool {
        self.bits & flag == flag
    }

    /// Returns true if every bit of `flag` is set in this set.
    pub fn contains(self, flag: u32) -> (r: bool)
        ensures
            r == self.spec_contains(flag),
    {
        self.bits & flag == flag
    }
}

impl Default for DecodeFlags {
    fn default() -> (r: DecodeFlags)
        ensures
            r.bits == 0,
    {
        DecodeFlags { bits: 0 }
    }
}

/// Buffer-size determinism: for a compressed target other than FXT1,
/// the minimum output buffer is the slice's stored block count, and no
/// row-pitch or row-count override changes it.
pub proof fn lemma_min_buffer_compressed_deterministic(
    fmt: TranscoderTextureFormat,
    original_width: u32,
    original_height: u32,
    total_slice_blocks: u32,
    pitch_a: Option<u32>,
    rows_a: Option<u32>,
    pitch_b: Option<u32>,
    rows_b: Option<u32>,
)
    requires
        fmt.spec_is_compressed(),
        fmt != TranscoderTextureFormat::FXT1_RGB,
    ensures
        fmt.spec_min_output_units(
            original_width,
            original_height,
            total_slice_blocks,
            pitch_a,
            rows_a,
        ) == total_slice_blocks as int,
        fmt.spec_min_output_units(
            original_width,
            original_height,
            total_slice_blocks,
            pitch_a,
            rows_a,
        ) == fmt.spec_min_output_units(
            original_width,
            original_height,
            total_slice_blocks,
            pitch_b,
            rows_b,
        ),
        fmt.spec_min_output_units(
            original_width,
            original_height,
            total_slice_blocks,
            pitch_a,
            rows_a,
        ) * fmt.spec_bytes_per_block_or_pixel() == total_slice_blocks
            * fmt.spec_bytes_per_block_or_pixel(),
{
}

/// The FXT1 exception: its minimum output buffer is derived from the
/// original dimensions and the 8x4 block size, not from the stored
/// slice block count.
pub proof fn lemma_min_buffer_fxt1(
    original_width: u32,
    original_height: u32,
    total_slice_blocks: u32,
    pitch_ov: Option<u32>,
    rows_ov: Option<u32>,
)
    ensures
        TranscoderTextureFormat::FXT1_RGB.spec_min_output_units(
            original_width,
            original_height,
            total_slice_blocks,
            pitch_ov,
            rows_ov,
        ) == ((original_width + 7) / 8) * ((original_height + 3) / 4),
{
}

/// The format support matrix is a fact of the build alone: a target is
/// reachable from a sub-format exactly when it is enabled in this
/// build, so reachability does not depend on which sub-format asks.
pub proof fn lemma_support_matrix_symmetric(
    basis_format: BasisTextureFormat,
    fmt: TranscoderTextureFormat,
)
    ensures
        basis_format.spec_can_transcode_to_format(fmt) == fmt.spec_supported(),
        BasisTextureFormat::ETC1S.spec_can_transcode_to_format(fmt)
            == BasisTextureFormat::UASTC4x4.spec_can_transcode_to_format(fmt),
{
}

} // verus!
