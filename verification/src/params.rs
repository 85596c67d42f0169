//! Compression parameters: the encode-time options and the list of
//! source images consumed by [`crate::Compressor`].
use vstd::prelude::*;
use crate::formats::BasisTextureFormat;
use crate::image::CompressorImageRef;
use crate::UserData;

verus! {

/// The color space the image to be compressed is encoded in.
#[derive(Copy, Clone, Debug, PartialEq, Eq, Structural)]
pub enum ColorSpace {
    /// Used for normal maps or other "data" images.
    Linear,
    /// Used for color maps and other "visual" images.
    Srgb,
}

/// The largest number of source images one compression accepts.
pub const SOURCE_IMAGE_COUNT_MAX: u32 = 65536;

/// Parameters that configure a [`crate::Compressor`]: the target
/// sub-format, the quality dials, mipmap generation, color-space
/// handling, user data, and the list of source images.
///
/// A fresh value carries safe defaults; in particular both quality
/// levels are set, since compressing with an unset quality level is not
/// meaningful.
pub struct CompressorParams {
    /// The sub-format to compress to.
    pub basis_format: BasisTextureFormat,
    /// ETC1S quality level; a larger value grows the shared codebook and
    /// lowers distortion.
    pub etc1s_quality_level: u32,
    /// UASTC pack level; a larger value spends more encode time on the
    /// per-block search.
    pub uastc_quality_level: u32,
    /// Whether perceptual (sRGB) metrics are used.
    pub perceptual: bool,
    /// Whether mipmap filtering happens in sRGB space.
    pub mip_srgb: bool,
    /// Disable the backend's selector rate-distortion optimization.
    pub no_selector_rdo: bool,
    /// Disable the backend's endpoint rate-distortion optimization.
    pub no_endpoint_rdo: bool,
    /// UASTC RDO quality scalar in thousandths, or `None` when the RDO
    /// post-process is disabled.
    pub rdo_uastc_quality_scalar_milli: Option<u32>,
    /// Whether a mip chain is generated for each source image.
    pub generate_mipmaps: bool,
    /// The smallest dimension mipmap that will be generated.
    pub mip_smallest_dimension: u32,
    /// Arbitrary data carried verbatim in the container.
    pub userdata: UserData,
    /// Whether the encoder reports status; this library never prints, so
    /// the flag is carried for callers to read back.
    pub print_status_to_stdout: bool,
    /// The images to compress, in order.
    pub source_images: Vec<CompressorImageRef>,
}

impl CompressorParams {
    /// The structural invariant of a parameter set.
    pub open spec fn wf(self) -> bool {
        &&& crate::ETC1S_QUALITY_MIN <= self.etc1s_quality_level <= crate::ETC1S_QUALITY_MAX
        &&& self.uastc_quality_level <= crate::UASTC_QUALITY_MAX
        &&& self.source_images@.len() <= SOURCE_IMAGE_COUNT_MAX
        &&& forall|i: int|
            0 <= i < self.source_images@.len() ==> #[trigger] self.source_images@[i].wf()
    }

    /// Whether the parameters hold exactly the default values and an
    /// empty source image list.
    pub open spec fn is_default(self) -> bool {
        &&& self.basis_format == BasisTextureFormat::ETC1S
        &&& self.etc1s_quality_level == crate::ETC1S_QUALITY_DEFAULT
        &&& self.uastc_quality_level == crate::UASTC_QUALITY_DEFAULT
        &&& self.perceptual
        &&& self.mip_srgb
        &&& !self.no_selector_rdo
        &&& !self.no_endpoint_rdo
        &&& self.rdo_uastc_quality_scalar_milli is None
        &&& !self.generate_mipmaps
        &&& self.mip_smallest_dimension == 1
        &&& self.userdata == (UserData { userdata0: 0, userdata1: 0 })
        &&& !self.print_status_to_stdout
        &&& self.source_images@.len() == 0
    }

    /// Create a parameter set with default options.
    pub fn new() -> (r: CompressorParams)
        ensures
            r.wf(),
            r.is_default(),
    {
        let mut params = CompressorParams {
            basis_format: BasisTextureFormat::ETC1S,
            etc1s_quality_level: crate::ETC1S_QUALITY_DEFAULT,
            uastc_quality_level: crate::UASTC_QUALITY_DEFAULT,
            perceptual: true,
            mip_srgb: true,
            no_selector_rdo: false,
            no_endpoint_rdo: false,
            rdo_uastc_quality_scalar_milli: None,
            generate_mipmaps: false,
            mip_smallest_dimension: 1,
            userdata: UserData { userdata0: 0, userdata1: 0 },
            print_status_to_stdout: false,
            source_images: Vec::new(),
        };
        params.set_default_options();
        params
    }

    /// Resets the parameters to their default state and clears the
    /// source image list.
    pub fn reset(&mut self)
        ensures
            final(self).wf(),
            final(self).is_default(),
    {
        *self = CompressorParams::new();
    }

    /// The default options applied when creating a parameter set or
    /// resetting one: both quality levels set to their defaults, and
    /// status output off.
    fn set_default_options(&mut self)
        ensures
            *final(self) == (CompressorParams {
                etc1s_quality_level: crate::ETC1S_QUALITY_DEFAULT,
                uastc_quality_level: crate::UASTC_QUALITY_DEFAULT,
                print_status_to_stdout: false,
                ..*old(self)
            }),
    {
        self.set_etc1s_quality_level(crate::ETC1S_QUALITY_DEFAULT);
        self.set_uastc_quality_level(crate::UASTC_QUALITY_DEFAULT);
        self.set_print_status_to_stdout(false);
    }

    /// Get a mutable reference to the source image at the given index;
    /// the image list is grown with empty images as needed so that the
    /// index exists.
    pub fn source_image_mut(&mut self, image_index: u32) -> (r: &mut CompressorImageRef)
        requires
            image_index < SOURCE_IMAGE_COUNT_MAX,
        ensures
            old(self).source_images@.len() > image_index
                ==> *r == old(self).source_images@[image_index as int],
            old(self).source_images@.len() <= image_index ==> (*r).is_empty(),
            final(self).source_images@.len() == vstd::math::max(
                old(self).source_images@.len() as int,
                image_index + 1,
            ),
            final(self).source_images@[image_index as int] == *final(r),
            forall|i: int|
                0 <= i < old(self).source_images@.len() && i != image_index
                    ==> final(self).source_images@[i] == old(self).source_images@[i],
            forall|i: int|
                old(self).source_images@.len() <= i < final(self).source_images@.len() && i
                    != image_index ==> final(self).source_images@[i].is_empty(),
            final(self).basis_format == old(self).basis_format,
            final(self).etc1s_quality_level == old(self).etc1s_quality_level,
            final(self).uastc_quality_level == old(self).uastc_quality_level,
            final(self).perceptual == old(self).perceptual,
            final(self).mip_srgb == old(self).mip_srgb,
            final(self).no_selector_rdo == old(self).no_selector_rdo,
            final(self).no_endpoint_rdo == old(self).no_endpoint_rdo,
            final(self).rdo_uastc_quality_scalar_milli
                == old(self).rdo_uastc_quality_scalar_milli,
            final(self).generate_mipmaps == old(self).generate_mipmaps,
            final(self).mip_smallest_dimension == old(self).mip_smallest_dimension,
            final(self).userdata == old(self).userdata,
            final(self).print_status_to_stdout == old(self).print_status_to_stdout,
            old(self).wf() && (*final(r)).wf() ==> final(self).wf(),
    {
        let needed = image_index as usize + 1;
        while self.source_images.len() < needed
            invariant
                needed == image_index + 1,
                image_index < SOURCE_IMAGE_COUNT_MAX,
                self.source_images@.len() <= vstd::math::max(
                    old(self).source_images@.len() as int,
                    image_index + 1,
                ),
                old(self).source_images@.len() <= self.source_images@.len() || self.source_images@
                    =~= old(self).source_images@,
                self.source_images@.len() >= old(self).source_images@.len() ==> (forall|i: int|
                    0 <= i < old(self).source_images@.len()
                        ==> self.source_images@[i] == old(self).source_images@[i]),
                forall|i: int|
                    old(self).source_images@.len() <= i < self.source_images@.len()
                        ==> self.source_images@[i].is_empty(),
                self.basis_format == old(self).basis_format,
                self.etc1s_quality_level == old(self).etc1s_quality_level,
                self.uastc_quality_level == old(self).uastc_quality_level,
                self.perceptual == old(self).perceptual,
                self.mip_srgb == old(self).mip_srgb,
                self.no_selector_rdo == old(self).no_selector_rdo,
                self.no_endpoint_rdo == old(self).no_endpoint_rdo,
                self.rdo_uastc_quality_scalar_milli == old(self).rdo_uastc_quality_scalar_milli,
                self.generate_mipmaps == old(self).generate_mipmaps,
                self.mip_smallest_dimension == old(self).mip_smallest_dimension,
                self.userdata == old(self).userdata,
                self.print_status_to_stdout == old(self).print_status_to_stdout,
            decreases needed - self.source_images.len(),
        {
            self.source_images.push(CompressorImageRef::new());
        }
        let idx = image_index as usize;
        &mut self.source_images[idx]
    }

    /// Resizes the source image list; entries beyond the new length are
    /// dropped and new entries are empty images.
    pub fn resize_source_image_list(&mut self, size: u32)
        requires
            size <= SOURCE_IMAGE_COUNT_MAX,
        ensures
            final(self).source_images@.len() == size,
            forall|i: int|
                0 <= i < size && i < old(self).source_images@.len()
                    ==> final(self).source_images@[i] == old(self).source_images@[i],
            forall|i: int|
                old(self).source_images@.len() <= i < size
                    ==> final(self).source_images@[i].is_empty(),
            *final(self) == (CompressorParams {
                source_images: final(self).source_images,
                ..*old(self)
            }),
            old(self).wf() ==> final(self).wf(),
    {
        let target = size as usize;
        self.source_images.truncate(target);
        while self.source_images.len() < target
            invariant
                self.source_images@.len() <= target,
                target == size,
                self.source_images@.len() >= old(self).source_images@.len()
                    || self.source_images@.len() == target,
                forall|i: int|
                    0 <= i < self.source_images@.len() && i < old(self).source_images@.len()
                        ==> self.source_images@[i] == old(self).source_images@[i],
                forall|i: int|
                    old(self).source_images@.len() <= i < self.source_images@.len() ==> self
                        .source_images@[i].is_empty(),
                *self == (CompressorParams { source_images: self.source_images, ..*old(self) }),
            decreases target - self.source_images.len(),
        {
            self.source_images.push(CompressorImageRef::new());
        }
    }

    /// Resets the image list to be zero-length.
    pub fn clear_source_image_list(&mut self)
        ensures
            final(self).source_images@.len() == 0,
            *final(self) == (CompressorParams {
                source_images: final(self).source_images,
                ..*old(self)
            }),
            old(self).wf() ==> final(self).wf(),
    {
        self.source_images = Vec::new();
    }

    /// Record whether the encoder should report status to stdout; this
    /// library never prints, and carries the flag for callers.
    pub fn set_print_status_to_stdout(&mut self, print_status_to_stdout: bool)
        ensures
            *final(self) == (CompressorParams { print_status_to_stdout, ..*old(self) }),
    {
        self.print_status_to_stdout = print_status_to_stdout;
    }

    /// Set the ETC1S quality level. The value must lie between
    /// [`crate::ETC1S_QUALITY_MIN`] and [`crate::ETC1S_QUALITY_MAX`].
    pub fn set_etc1s_quality_level(&mut self, quality_level: u32)
        requires
            crate::ETC1S_QUALITY_MIN <= quality_level <= crate::ETC1S_QUALITY_MAX,
        ensures
            *final(self) == (CompressorParams {
                etc1s_quality_level: quality_level,
                ..*old(self)
            }),
    {
        self.etc1s_quality_level = quality_level;
    }

    /// Set the UASTC pack level. The value must lie between
    /// [`crate::UASTC_QUALITY_MIN`] and [`crate::UASTC_QUALITY_MAX`].
    pub fn set_uastc_quality_level(&mut self, quality_level: u32)
        requires
            crate::UASTC_QUALITY_MIN <= quality_level <= crate::UASTC_QUALITY_MAX,
        ensures
            *final(self) == (CompressorParams {
                uastc_quality_level: quality_level,
                ..*old(self)
            }),
    {
        self.uastc_quality_level = quality_level;
    }

    /// Set the sub-format the images will be compressed to.
    pub fn set_basis_format(&mut self, basis_format: BasisTextureFormat)
        ensures
            *final(self) == (CompressorParams { basis_format, ..*old(self) }),
    {
        self.basis_format = basis_format;
    }

    /// Set the color space the images to be compressed are encoded in; a
    /// linear color space selects linear metrics instead of perceptual
    /// (sRGB) ones.
    pub fn set_color_space(&mut self, color_space: ColorSpace)
        ensures
            *final(self) == (CompressorParams {
                perceptual: color_space == ColorSpace::Srgb,
                ..*old(self)
            }),
    {
        let perceptual = match color_space {
            ColorSpace::Linear => false,
            ColorSpace::Srgb => true,
        };
        self.perceptual = perceptual;
    }

    /// Override the mipmap-filtering color space: sRGB filters through a
    /// linear conversion, linear filters in place.
    pub fn set_mip_color_space(&mut self, color_space: ColorSpace)
        ensures
            *final(self) == (CompressorParams {
                mip_srgb: color_space == ColorSpace::Srgb,
                ..*old(self)
            }),
    {
        let mip_srgb = match color_space {
            ColorSpace::Linear => false,
            ColorSpace::Srgb => true,
        };
        self.mip_srgb = mip_srgb;
    }

    /// Disable the backend's selector rate-distortion optimizations.
    pub fn set_no_selector_rdo(&mut self, no_selector_rdo: bool)
        ensures
            *final(self) == (CompressorParams { no_selector_rdo, ..*old(self) }),
    {
        self.no_selector_rdo = no_selector_rdo;
    }

    /// Disable the backend's endpoint rate-distortion optimizations.
    pub fn set_no_endpoint_rdo(&mut self, no_endpoint_rdo: bool)
        ensures
            *final(self) == (CompressorParams { no_endpoint_rdo, ..*old(self) }),
    {
        self.no_endpoint_rdo = no_endpoint_rdo;
    }

    /// Enable the UASTC RDO post-process with the given quality scalar
    /// in thousandths, or disable it with `None`. Lower values mean
    /// higher quality and larger files after general-purpose compression.
    pub fn set_rdo_uastc(&mut self, rdo_uastc_quality_scalar_milli: Option<u32>)
        ensures
            *final(self) == (CompressorParams {
                rdo_uastc_quality_scalar_milli,
                ..*old(self)
            }),
    {
        self.rdo_uastc_quality_scalar_milli = rdo_uastc_quality_scalar_milli;
    }

    /// Generate mipmaps for each source image.
    pub fn set_generate_mipmaps(&mut self, generate_mipmaps: bool)
        ensures
            *final(self) == (CompressorParams { generate_mipmaps, ..*old(self) }),
    {
        self.generate_mipmaps = generate_mipmaps;
    }

    /// Sets the smallest dimension mipmap that will be generated.
    pub fn set_mipmap_smallest_dimension(&mut self, smallest_dimension: u32)
        ensures
            *final(self) == (CompressorParams {
                mip_smallest_dimension: smallest_dimension,
                ..*old(self)
            }),
    {
        self.mip_smallest_dimension = smallest_dimension;
    }

    /// Set arbitrary user data to be carried verbatim in the container.
    pub fn set_userdata(&mut self, userdata: UserData)
        ensures
            *final(self) == (CompressorParams { userdata, ..*old(self) }),
    {
        self.userdata = userdata;
    }

    /// Convenience tuning for normal maps: linear metrics, linear mipmap
    /// filtering, and no selector or endpoint RDO.
    pub fn tune_for_normal_maps(&mut self)
        ensures
            *final(self) == (CompressorParams {
                perceptual: false,
                mip_srgb: false,
                no_selector_rdo: true,
                no_endpoint_rdo: true,
                ..*old(self)
            }),
    {
        self.perceptual = false;
        self.mip_srgb = false;
        self.no_selector_rdo = true;
        self.no_endpoint_rdo = true;
    }
}

impl Default for CompressorParams {
    fn default() -> (r: CompressorParams)
        ensures
            r.wf(),
            r.is_default(),
    {
        CompressorParams::new()
    }
}

} // verus!
