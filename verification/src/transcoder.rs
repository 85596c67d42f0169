//! The transcoder engine: parses containers, answers introspection
//! queries, and converts stored slices into GPU-native block formats or
//! raw pixel data.
use vstd::prelude::*;
use crate::UserData;
use crate::container::BasisContainer;
use crate::container::SliceDesc;
use crate::container::EndpointPair;
use crate::container::parse_container;
use crate::container::bytes_to_words;
use crate::container::word_checksum_range;
use crate::container::unpack_color;
use crate::container::spec_parse;
use crate::container::spec_bytes_to_words;
use crate::container::spec_checksums_ok;
use crate::container::spec_find_slice;
use crate::container::spec_level_count;
use crate::container::find_slice;
use crate::container::level_count;
use crate::formats::BasisTextureFormat;
use crate::formats::BasisTextureType;
use crate::formats::TranscoderTextureFormat;
use crate::formats::DecodeFlags;
use crate::formats::mul_u32_wide;
use crate::image::ColorU8;

verus! {

/// Lightweight description of a mip level of a single image within a
/// container.
#[derive(Debug, Copy, Clone, PartialEq, Eq, Structural)]
pub struct ImageLevelDescription {
    pub original_width: u32,
    pub original_height: u32,
    pub block_count: u32,
}

impl Default for ImageLevelDescription {
    fn default() -> (r: ImageLevelDescription)
        ensures
            r.original_width == 0,
            r.original_height == 0,
            r.block_count == 0,
    {
        ImageLevelDescription { original_width: 0, original_height: 0, block_count: 0 }
    }
}

/// Information about one image of a container.
#[derive(Debug, Copy, Clone, PartialEq, Eq, Structural)]
pub struct ImageInfo {
    pub m_image_index: u32,
    pub m_total_levels: u32,
    pub m_orig_width: u32,
    pub m_orig_height: u32,
    pub m_num_blocks_x: u32,
    pub m_num_blocks_y: u32,
    pub m_total_blocks: u32,
    pub m_alpha_flag: bool,
}

/// Information about one mip level of one image of a container.
#[derive(Debug, Copy, Clone, PartialEq, Eq, Structural)]
pub struct ImageLevelInfo {
    pub m_image_index: u32,
    pub m_level_index: u32,
    pub m_orig_width: u32,
    pub m_orig_height: u32,
    pub m_num_blocks_x: u32,
    pub m_num_blocks_y: u32,
    pub m_total_blocks: u32,
    pub m_alpha_flag: bool,
}

/// A description of a whole container file.
#[derive(Debug, Clone)]
pub struct FileInfo {
    pub m_version: u32,
    pub m_total_images: u32,
    pub m_total_slices: u32,
    pub m_tex_format: BasisTextureFormat,
    pub m_etc1s: bool,
    pub m_has_alpha_slices: bool,
    pub m_userdata0: u32,
    pub m_userdata1: u32,
    pub m_tex_type: BasisTextureType,
    /// The mip level count of each image, in image order.
    pub m_image_mipmap_levels: Vec<u32>,
}

/// Extra parameters for transcoding an image.
#[derive(Debug, Clone)]
pub struct TranscodeParameters {
    /// The image to transcode.
    pub image_index: u32,
    /// The mip level of the image to transcode.
    pub level_index: u32,
    /// Optional flags that affect transcoding.
    pub decode_flags: Option<DecodeFlags>,
    /// Optional override for the output row pitch.
    pub output_row_pitch_in_blocks_or_pixels: Option<u32>,
    /// Optional override for the number of output rows.
    pub output_rows_in_pixels: Option<u32>,
}

impl Default for TranscodeParameters {
    fn default() -> (r: TranscodeParameters)
        ensures
            r.image_index == 0,
            r.level_index == 0,
            r.decode_flags is None,
            r.output_row_pitch_in_blocks_or_pixels is None,
            r.output_rows_in_pixels is None,
    {
        TranscodeParameters {
            image_index: 0,
            level_index: 0,
            decode_flags: None,
            output_row_pitch_in_blocks_or_pixels: None,
            output_rows_in_pixels: None,
        }
    }
}

/// The decode flag bits a transcode call carries.
pub open spec fn spec_flag_bits(f: Option<DecodeFlags>) -> u32 {
    match f {
        Some(x) => x.bits,
        None => 0,
    }
}

/// Error result from trying to transcode an image.
#[derive(Debug, Copy, Clone, PartialEq, Eq, Structural)]
pub enum TranscodeError {
    /// The requested target format is not enabled in this build.
    TranscodeFormatNotSupported,
    /// The container is unreadable or stores no such image level.
    ImageLevelNotFound,
    /// The transcode itself failed: the transcoder was not prepared,
    /// the output size cannot be represented, or the slice data is
    /// malformed.
    TranscodeFailed,
}

/// A transcoder that converts container data to compressed GPU formats
/// or raw color data. One instance carries only its prepared flag; each
/// call parses the container bytes it is given.
pub struct Transcoder {
    /// Whether [`Transcoder::prepare_transcoding`] has succeeded and
    /// [`Transcoder::end_transcoding`] has not run since.
    pub prepared: bool,
}

impl Default for Transcoder {
    fn default() -> (r: Transcoder)
        ensures
            !r.prepared,
    {
        Transcoder { prepared: false }
    }
}

impl Transcoder {
    /// Create a transcoder; it must be prepared before transcoding.
    pub fn new() -> (r: Transcoder)
        ensures
            !r.prepared,
    {
        Transcoder { prepared: false }
    }

    /// Validates the container: structural validity and the header
    /// checksum always, and the whole-payload checksum as well when
    /// `full_validation` is set.
    pub fn validate_file_checksums(&self, data: &[u8], full_validation: bool) -> (r: bool)
        ensures
            r == (spec_parse(data@) is Some && spec_checksums_ok(
                spec_bytes_to_words(data@),
                full_validation,
            )),
    {
        if data.len() % 4 != 0 {
            return false;
        }
        let parsed = parse_container(data);
        if parsed.is_none() {
            return false;
        }
        let words = bytes_to_words(data);
        let n = words.len();
        let hsum = word_checksum_range(&words, 0, 12);
        if words[12] != hsum {
            return false;
        }
        if full_validation {
            let fsum = word_checksum_range(&words, 13, n - 1);
            proof {
                assert(words@.subrange(13, words@.len() - 1) == words@.subrange(
                    13int,
                    n as int - 1,
                ));
            }
            if words[n - 1] != fsum {
                return false;
            }
        }
        true
    }

    /// Quick structural validation, without checksum checks.
    pub fn validate_header(&self, data: &[u8]) -> (r: bool)
        ensures
            r == (spec_parse(data@) is Some),
    {
        parse_container(data).is_some()
    }

    /// The texture type of the container; unreadable data reads as the
    /// plain 2D type.
    pub fn basis_texture_type(&self, data: &[u8]) -> (r: BasisTextureType)
        ensures
            r == match spec_parse(data@) {
                Some(c) => c.tex_type,
                None => BasisTextureType::TextureType2D,
            },
    {
        match parse_container(data) {
            Some(c) => c.tex_type,
            None => BasisTextureType::TextureType2D,
        }
    }

    /// The sub-format of the container; unreadable data reads as ETC1S.
    pub fn basis_texture_format(&self, data: &[u8]) -> (r: BasisTextureFormat)
        ensures
            r == match spec_parse(data@) {
                Some(c) => c.tex_format,
                None => BasisTextureFormat::ETC1S,
            },
    {
        match parse_container(data) {
            Some(c) => c.tex_format,
            None => BasisTextureFormat::ETC1S,
        }
    }

    /// The user data stored in the container, when it is readable.
    pub fn user_data(&self, data: &[u8]) -> (r: Result<UserData, ()>)
        ensures
            match spec_parse(data@) {
                Some(c) => r == Result::<UserData, ()>::Ok(
                    UserData { userdata0: c.userdata0, userdata1: c.userdata1 },
                ),
                None => r is Err,
            },
    {
        match parse_container(data) {
            Some(c) => Ok(UserData { userdata0: c.userdata0, userdata1: c.userdata1 }),
            None => Err(()),
        }
    }

    /// Number of images in the container; 0 when it is unreadable.
    pub fn image_count(&self, data: &[u8]) -> (r: u32)
        ensures
            r == match spec_parse(data@) {
                Some(c) => c.total_images,
                None => 0u32,
            },
    {
        match parse_container(data) {
            Some(c) => c.total_images,
            None => 0,
        }
    }

    /// Number of mipmap levels of the given image; 0 when the container
    /// is unreadable or stores no such image.
    pub fn image_level_count(&self, data: &[u8], image_index: u32) -> (r: u32)
        ensures
            r == match spec_parse(data@) {
                Some(c) => spec_level_count(c.slices, image_index),
                None => 0int,
            },
    {
        match parse_container(data) {
            Some(c) => level_count(&c.slices, image_index),
            None => 0,
        }
    }

    /// Basic information about one mip level of one image: its original
    /// dimensions and stored block count. The original width and height
    /// need not be multiples of 4. On any parseable container a level
    /// index is found exactly below the image's level count; see
    /// [`crate::container::lemma_level_lookup_bounded`].
    pub fn image_level_description(
        &self,
        data: &[u8],
        image_index: u32,
        level_index: u32,
    ) -> (r: Option<ImageLevelDescription>)
        ensures
            r == match spec_parse(data@) {
                Some(c) => match spec_find_slice(c.slices, image_index, level_index, false) {
                    Some(si) => Some(
                        ImageLevelDescription {
                            original_width: c.slices[si].orig_width,
                            original_height: c.slices[si].orig_height,
                            block_count: (c.slices[si].num_blocks_x
                                * c.slices[si].num_blocks_y) as u32,
                        },
                    ),
                    None => None::<ImageLevelDescription>,
                },
                None => None::<ImageLevelDescription>,
            },
    {
        match parse_container(data) {
            Some(c) => match find_slice(&c.slices, image_index, level_index, false) {
                Some(si) => {
                    let sl = c.slices[si];
                    proof {
                        vstd::arithmetic::mul::lemma_mul_upper_bound(
                            sl.num_blocks_x as int,
                            4096,
                            sl.num_blocks_y as int,
                            4096,
                        );
                    }
                    Some(
                        ImageLevelDescription {
                            original_width: sl.orig_width,
                            original_height: sl.orig_height,
                            block_count: mul_u32_wide(sl.num_blocks_x, sl.num_blocks_y) as u32,
                        },
                    )
                },
                None => None,
            },
            None => None,
        }
    }

    /// Information about the given image, from its level-0 slice.
    pub fn image_info(&self, data: &[u8], image_index: u32) -> (r: Option<ImageInfo>)
        ensures
            r == match spec_parse(data@) {
                Some(c) => match spec_find_slice(c.slices, image_index, 0u32, false) {
                    Some(si) => Some(
                        ImageInfo {
                            m_image_index: image_index,
                            m_total_levels: spec_level_count(c.slices, image_index) as u32,
                            m_orig_width: c.slices[si].orig_width,
                            m_orig_height: c.slices[si].orig_height,
                            m_num_blocks_x: c.slices[si].num_blocks_x,
                            m_num_blocks_y: c.slices[si].num_blocks_y,
                            m_total_blocks: (c.slices[si].num_blocks_x
                                * c.slices[si].num_blocks_y) as u32,
                            m_alpha_flag: spec_find_slice(
                                c.slices,
                                image_index,
                                0u32,
                                true,
                            ) is Some,
                        },
                    ),
                    None => None::<ImageInfo>,
                },
                None => None::<ImageInfo>,
            },
    {
        match parse_container(data) {
            Some(c) => match find_slice(&c.slices, image_index, 0, false) {
                Some(si) => {
                    let sl = c.slices[si];
                    proof {
                        vstd::arithmetic::mul::lemma_mul_upper_bound(
                            sl.num_blocks_x as int,
                            4096,
                            sl.num_blocks_y as int,
                            4096,
                        );
                    }
                    let levels = level_count(&c.slices, image_index);
                    let has_alpha_slice = find_slice(&c.slices, image_index, 0, true).is_some();
                    Some(
                        ImageInfo {
                            m_image_index: image_index,
                            m_total_levels: levels,
                            m_orig_width: sl.orig_width,
                            m_orig_height: sl.orig_height,
                            m_num_blocks_x: sl.num_blocks_x,
                            m_num_blocks_y: sl.num_blocks_y,
                            m_total_blocks: mul_u32_wide(sl.num_blocks_x, sl.num_blocks_y) as u32,
                            m_alpha_flag: has_alpha_slice,
                        },
                    )
                },
                None => None,
            },
            None => None,
        }
    }

    /// Information about the given mip level of the given image.
    pub fn image_level_info(
        &self,
        data: &[u8],
        image_index: u32,
        level_index: u32,
    ) -> (r: Option<ImageLevelInfo>)
        ensures
            r == match spec_parse(data@) {
                Some(c) => match spec_find_slice(c.slices, image_index, level_index, false) {
                    Some(si) => Some(
                        ImageLevelInfo {
                            m_image_index: image_index,
                            m_level_index: level_index,
                            m_orig_width: c.slices[si].orig_width,
                            m_orig_height: c.slices[si].orig_height,
                            m_num_blocks_x: c.slices[si].num_blocks_x,
                            m_num_blocks_y: c.slices[si].num_blocks_y,
                            m_total_blocks: (c.slices[si].num_blocks_x
                                * c.slices[si].num_blocks_y) as u32,
                            m_alpha_flag: spec_find_slice(
                                c.slices,
                                image_index,
                                level_index,
                                true,
                            ) is Some,
                        },
                    ),
                    None => None::<ImageLevelInfo>,
                },
                None => None::<ImageLevelInfo>,
            },
    {
        match parse_container(data) {
            Some(c) => match find_slice(&c.slices, image_index, level_index, false) {
                Some(si) => {
                    let sl = c.slices[si];
                    proof {
                        vstd::arithmetic::mul::lemma_mul_upper_bound(
                            sl.num_blocks_x as int,
                            4096,
                            sl.num_blocks_y as int,
                            4096,
                        );
                    }
                    let has_alpha_slice = find_slice(
                        &c.slices,
                        image_index,
                        level_index,
                        true,
                    ).is_some();
                    Some(
                        ImageLevelInfo {
                            m_image_index: image_index,
                            m_level_index: level_index,
                            m_orig_width: sl.orig_width,
                            m_orig_height: sl.orig_height,
                            m_num_blocks_x: sl.num_blocks_x,
                            m_num_blocks_y: sl.num_blocks_y,
                            m_total_blocks: mul_u32_wide(sl.num_blocks_x, sl.num_blocks_y) as u32,
                            m_alpha_flag: has_alpha_slice,
                        },
                    )
                },
                None => None,
            },
            None => None,
        }
    }

    /// A description of the whole file and per-image level counts.
    pub fn file_info(&self, data: &[u8]) -> (r: Option<FileInfo>)
        ensures
            match spec_parse(data@) {
                Some(c) => r matches Some(fi) && fi.m_version == crate::container::CONTAINER_VERSION
                    && fi.m_total_images == c.total_images && fi.m_total_slices == c.slices.len()
                    && fi.m_tex_format == c.tex_format && fi.m_etc1s == (c.tex_format
                    == BasisTextureFormat::ETC1S) && fi.m_has_alpha_slices == c.has_alpha
                    && fi.m_userdata0 == c.userdata0 && fi.m_userdata1 == c.userdata1
                    && fi.m_tex_type == c.tex_type && fi.m_image_mipmap_levels@.len()
                    == c.total_images && (forall|i: int|
                    0 <= i < c.total_images ==> fi.m_image_mipmap_levels@[i] == spec_level_count(
                        c.slices,
                        i as u32,
                    )),
                None => r is None,
            },
    {
        match parse_container(data) {
            Some(c) => {
                let mut levels: Vec<u32> = Vec::new();
                let mut i: u32 = 0;
                while i < c.total_images
                    invariant
                        i <= c.total_images,
                        c@.wf(),
                        levels@.len() == i,
                        forall|j: int|
                            0 <= j < i ==> levels@[j] == spec_level_count(c@.slices, j as u32),
                    decreases c.total_images - i,
                {
                    levels.push(level_count(&c.slices, i));
                    i = i + 1;
                }
                Some(
                    FileInfo {
                        m_version: crate::container::CONTAINER_VERSION,
                        m_total_images: c.total_images,
                        m_total_slices: c.slices.len() as u32,
                        m_tex_format: c.tex_format,
                        m_etc1s: c.tex_format == BasisTextureFormat::ETC1S,
                        m_has_alpha_slices: c.has_alpha,
                        m_userdata0: c.userdata0,
                        m_userdata1: c.userdata1,
                        m_tex_type: c.tex_type,
                        m_image_mipmap_levels: levels,
                    },
                )
            },
            None => None,
        }
    }

    /// The required one-time setup before any transcode call: validates
    /// the container and marks the transcoder prepared. Calling it again
    /// is safe and re-validates the given data.
    pub fn prepare_transcoding(&mut self, data: &[u8]) -> (r: Result<(), ()>)
        ensures
            final(self).prepared == (spec_parse(data@) is Some),
            (r is Ok) == (spec_parse(data@) is Some),
    {
        match parse_container(data) {
            Some(_) => {
                self.prepared = true;
                Ok(())
            },
            None => {
                self.prepared = false;
                Err(())
            },
        }
    }

    /// Releases the prepared state; safe to call even when nothing was
    /// prepared.
    pub fn end_transcoding(&mut self)
        ensures
            !final(self).prepared,
    {
        self.prepared = false;
    }

    /// Returns true if [`Transcoder::prepare_transcoding`] has been
    /// called successfully.
    pub fn is_prepared_to_transcode(&self) -> (r: bool)
        ensures
            r == self.prepared,
    {
        self.prepared
    }
}

/// Whether a slice can be decoded against a container: consistent
/// geometry, a payload range inside the payload, and, for ETC1S, only
/// in-range codebook references.
pub open spec fn spec_slice_usable(c: crate::container::ContainerModel, sl: SliceDesc) -> bool {
    &&& 1 <= sl.orig_width <= crate::TEXTURE_DIMENSION_MAX
    &&& 1 <= sl.orig_height <= crate::TEXTURE_DIMENSION_MAX
    &&& sl.num_blocks_x == (sl.orig_width + 3) / 4
    &&& sl.num_blocks_y == (sl.orig_height + 3) / 4
    &&& sl.payload_offset + sl.payload_len <= c.payload.len()
    &&& sl.payload_len == crate::codec::spec_slice_blocks(sl) * crate::container::spec_unit_words(
        c.tex_format,
    )
    &&& c.tex_format == BasisTextureFormat::ETC1S ==> crate::codec::spec_etc1s_refs_ok(c, sl)
}

/// The interpolation of two endpoint channels at a selector level.
fn interp_channel(lo: u8, hi: u8, s: u32) -> (r: u8)
    requires
        s <= 3,
    ensures
        r == crate::codec::spec_interp(lo, hi, s as int),
{
    proof {
        vstd::arithmetic::mul::lemma_mul_upper_bound(lo as int, 255, (3 - s) as int, 3);
        vstd::arithmetic::mul::lemma_mul_upper_bound(hi as int, 255, s as int, 3);
        vstd::arithmetic::mul::lemma_mul_nonnegative(lo as int, (3 - s) as int);
        vstd::arithmetic::mul::lemma_mul_nonnegative(hi as int, s as int);
    }
    (((lo as u32) * (3 - s) + (hi as u32) * s) / 3) as u8
}

/// The endpoints of block `bi` of a slice.
fn block_endpoints_at(c: &BasisContainer, sl: &SliceDesc, bi: u32) -> (e: EndpointPair)
    requires
        spec_slice_usable(c@, *sl),
        bi < crate::codec::spec_slice_blocks(*sl),
    ensures
        e == crate::codec::spec_block_endpoints(c@, *sl, bi as int),
{
    proof {
        vstd::arithmetic::mul::lemma_mul_upper_bound(
            sl.num_blocks_x as int,
            4096,
            sl.num_blocks_y as int,
            4096,
        );
    }
    let plen = c.payload.len();
    if c.tex_format == BasisTextureFormat::ETC1S {
        let idx = sl.payload_offset as usize + bi as usize;
        let w = c.payload[idx];
        proof {
            assert(w == crate::codec::spec_etc1s_block_word(c@, *sl, bi as int));
            assert(w & 0xffff <= 0xffff) by (bit_vector);
        }
        let e_idx = (w & 0xffff) as usize;
        c.endpoints[e_idx]
    } else {
        let base = sl.payload_offset as usize + 4 * (bi as usize);
        let lo = unpack_color(c.payload[base]);
        let hi = unpack_color(c.payload[base + 1]);
        EndpointPair { lo, hi }
    }
}

/// The selector word of block `bi` of a slice.
fn block_sel_at(c: &BasisContainer, sl: &SliceDesc, bi: u32) -> (w: u32)
    requires
        spec_slice_usable(c@, *sl),
        bi < crate::codec::spec_slice_blocks(*sl),
    ensures
        w == crate::codec::spec_block_sel(c@, *sl, bi as int),
{
    proof {
        vstd::arithmetic::mul::lemma_mul_upper_bound(
            sl.num_blocks_x as int,
            4096,
            sl.num_blocks_y as int,
            4096,
        );
    }
    let plen = c.payload.len();
    if c.tex_format == BasisTextureFormat::ETC1S {
        let idx = sl.payload_offset as usize + bi as usize;
        let w = c.payload[idx];
        proof {
            assert(w == crate::codec::spec_etc1s_block_word(c@, *sl, bi as int));
            assert(w >> 16 <= 0xffff) by (bit_vector);
        }
        let s_idx = (w >> 16) as usize;
        c.selectors[s_idx]
    } else {
        let base = sl.payload_offset as usize + 4 * (bi as usize);
        c.payload[base + 2]
    }
}

/// The decoded pixel of a slice at `(x, y)`.
fn slice_pixel_at(c: &BasisContainer, sl: &SliceDesc, x: u32, y: u32) -> (p: ColorU8)
    requires
        spec_slice_usable(c@, *sl),
        x < sl.orig_width,
        y < sl.orig_height,
    ensures
        p == crate::codec::spec_slice_pixel(c@, *sl, x as int, y as int),
{
    let bx = x / 4;
    let by = y / 4;
    proof {
        crate::image::lemma_row_major_index(
            bx as int,
            by as int,
            sl.num_blocks_x as int,
            sl.num_blocks_y as int,
        );
        vstd::arithmetic::mul::lemma_mul_upper_bound(
            by as int,
            4096,
            sl.num_blocks_x as int,
            4096,
        );
    }
    let bi = by * sl.num_blocks_x + bx;
    let e = block_endpoints_at(c, sl, bi);
    let w = block_sel_at(c, sl, bi);
    let px = (y % 4) * 4 + (x % 4);
    let sh = 2 * px;
    let s = (w >> sh) & 3;
    proof {
        assert((w >> sh) & 3 <= 3) by (bit_vector);
    }
    ColorU8 {
        r: interp_channel(e.lo.r, e.hi.r, s),
        g: interp_channel(e.lo.g, e.hi.g, s),
        b: interp_channel(e.lo.b, e.hi.b, s),
        a: interp_channel(e.lo.a, e.hi.a, s),
    }
}

/// The conditions under which a paired alpha slice can be read next to
/// a color slice: usable, and on the same block grid.
pub open spec fn spec_alpha_usable(
    c: crate::container::ContainerModel,
    sl: SliceDesc,
    alpha_sl: Option<SliceDesc>,
) -> bool {
    alpha_sl matches Some(asl) ==> spec_slice_usable(c, asl) && asl.num_blocks_x
        == sl.num_blocks_x && asl.num_blocks_y == sl.num_blocks_y && asl.orig_width
        >= sl.orig_width && asl.orig_height >= sl.orig_height
}

/// The RGBA value written for one output position.
fn output_pixel_at(
    c: &BasisContainer,
    sl: &SliceDesc,
    alpha_sl: Option<SliceDesc>,
    x: u32,
    y: u32,
) -> (p: ColorU8)
    requires
        spec_slice_usable(c@, *sl),
        spec_alpha_usable(c@, *sl, alpha_sl),
        x < sl.orig_width,
        y < sl.orig_height,
    ensures
        p == crate::codec::spec_output_pixel(c@, *sl, alpha_sl, x as int, y as int),
{
    let col = slice_pixel_at(c, sl, x, y);
    let a = match alpha_sl {
        Some(asl) => slice_pixel_at(c, &asl, x, y).r,
        None => if c.tex_format == BasisTextureFormat::ETC1S || sl.is_opaque {
            255
        } else {
            col.a
        },
    };
    ColorU8 { r: col.r, g: col.g, b: col.b, a }
}

/// The 16-bit packed value of a pixel for the packed targets.
fn packed16_value(fmt: TranscoderTextureFormat, p: ColorU8) -> (v: u32)
    ensures
        v == crate::codec::spec_packed16(fmt, p),
{
    if fmt == TranscoderTextureFormat::RGB565 {
        (((p.r >> 3) as u32) << 11) | (((p.g >> 2) as u32) << 5) | ((p.b >> 3) as u32)
    } else if fmt == TranscoderTextureFormat::BGR565 {
        (((p.b >> 3) as u32) << 11) | (((p.g >> 2) as u32) << 5) | ((p.r >> 3) as u32)
    } else {
        (((p.r >> 4) as u32) << 12) | (((p.g >> 4) as u32) << 8) | (((p.b >> 4) as u32) << 4) | (
        (p.a >> 4) as u32)
    }
}

/// A color packed to RGB565.
fn rgb565_of(c: ColorU8) -> (r: u32)
    ensures
        r == crate::codec::spec_rgb565(c),
{
    (((c.r >> 3) as u32) << 11) | (((c.g >> 2) as u32) << 5) | ((c.b >> 3) as u32)
}

/// A color packed to RGB555.
fn rgb555_of(c: ColorU8) -> (r: u64)
    ensures
        r == crate::codec::spec_rgb555(c),
{
    (((c.r >> 3) as u64) << 10) | (((c.g >> 3) as u64) << 5) | ((c.b >> 3) as u64)
}

/// The midpoint of two channel values.
fn mid_of(a: u8, b: u8) -> (r: u8)
    ensures
        r == crate::codec::spec_mid(a, b),
{
    (((a as u32) + (b as u32)) / 2) as u8
}

/// The BC1 index for a selector level.
fn bc1_index_of(e: EndpointPair, l: u32) -> (r: u32)
    requires
        l <= 3,
    ensures
        r == crate::codec::spec_bc1_index(e, l as int),
{
    let hi = rgb565_of(e.hi);
    let lo = rgb565_of(e.lo);
    if hi == lo {
        0
    } else if hi > lo {
        if l == 0 {
            1
        } else if l == 1 {
            3
        } else if l == 2 {
            2
        } else {
            0
        }
    } else {
        if l == 0 {
            0
        } else if l == 1 {
            2
        } else if l == 2 {
            3
        } else {
            1
        }
    }
}

/// BC1's selector field.
fn bc1_sel_word(e: EndpointPair, sel: u32) -> (w: u32)
    ensures
        w == crate::codec::spec_bc1_sel_bits(e, sel, 15),
{
    let mut acc: u32 = 0;
    let mut p: u32 = 0;
    while p < 16
        invariant
            p <= 16,
            acc == crate::codec::spec_bc1_sel_bits(e, sel, p as int - 1),
        decreases 16 - p,
    {
        let l = (sel >> (2 * p)) & 3;
        proof {
            assert((sel >> (2 * p)) & 3 <= 3) by (bit_vector);
        }
        acc = acc | (bc1_index_of(e, l) << (2 * p));
        p = p + 1;
    }
    acc
}

/// The BC4 3-bit index for a selector level.
fn bc4_index_of(l: u32) -> (r: u64)
    requires
        l <= 3,
    ensures
        r == crate::codec::spec_bc4_index(l as int),
{
    if l == 0 {
        1
    } else if l == 1 {
        5
    } else if l == 2 {
        3
    } else {
        0
    }
}

/// BC4's index field.
fn bc4_sel_word(sel: u32) -> (w: u64)
    ensures
        w == crate::codec::spec_bc4_sel_bits(sel, 15),
{
    let mut acc: u64 = 0;
    let mut p: u32 = 0;
    while p < 16
        invariant
            p <= 16,
            acc == crate::codec::spec_bc4_sel_bits(sel, p as int - 1),
        decreases 16 - p,
    {
        let l = (sel >> (2 * p)) & 3;
        proof {
            assert((sel >> (2 * p)) & 3 <= 3) by (bit_vector);
        }
        acc = acc | (bc4_index_of(l) << ((3 * p) as u64));
        p = p + 1;
    }
    acc
}

/// The ETC1 pixel index for a selector level.
fn etc1_index_of(l: u32) -> (r: u32)
    requires
        l <= 3,
    ensures
        r == crate::codec::spec_etc1_idx(l as int),
{
    if l == 0 {
        3
    } else if l == 1 {
        2
    } else if l == 2 {
        0
    } else {
        1
    }
}

/// The most-significant index plane of an ETC1 block.
fn etc1_msb_word(sel: u32) -> (w: u32)
    ensures
        w == crate::codec::spec_etc1_msb_bits(sel, 15),
{
    let mut acc: u32 = 0;
    let mut p: u32 = 0;
    while p < 16
        invariant
            p <= 16,
            acc == crate::codec::spec_etc1_msb_bits(sel, p as int - 1),
        decreases 16 - p,
    {
        let t = (p % 4) * 4 + p / 4;
        let l = (sel >> (2 * t)) & 3;
        proof {
            assert((sel >> (2 * t)) & 3 <= 3) by (bit_vector);
        }
        acc = acc | (((etc1_index_of(l) >> 1) & 1) << p);
        p = p + 1;
    }
    acc
}

/// The least-significant index plane of an ETC1 block.
fn etc1_lsb_word(sel: u32) -> (w: u32)
    ensures
        w == crate::codec::spec_etc1_lsb_bits(sel, 15),
{
    let mut acc: u32 = 0;
    let mut p: u32 = 0;
    while p < 16
        invariant
            p <= 16,
            acc == crate::codec::spec_etc1_lsb_bits(sel, p as int - 1),
        decreases 16 - p,
    {
        let t = (p % 4) * 4 + p / 4;
        let l = (sel >> (2 * t)) & 3;
        proof {
            assert((sel >> (2 * t)) & 3 <= 3) by (bit_vector);
        }
        acc = acc | ((etc1_index_of(l) & 1) << p);
        p = p + 1;
    }
    acc
}

/// The EAC A8 3-bit index for a selector level.
fn eac_index_of(l: u32) -> (r: u64)
    requires
        l <= 3,
    ensures
        r == crate::codec::spec_eac_index(l as int),
{
    if l == 0 {
        3
    } else if l == 1 {
        1
    } else if l == 2 {
        4
    } else {
        7
    }
}

/// EAC A8's index field.
fn eac_sel_word(sel: u32) -> (w: u64)
    ensures
        w == crate::codec::spec_eac_sel_bits(sel, 15),
{
    let mut acc: u64 = 0;
    let mut p: u32 = 0;
    while p < 16
        invariant
            p <= 16,
            acc == crate::codec::spec_eac_sel_bits(sel, p as int - 1),
        decreases 16 - p,
    {
        let t = (p % 4) * 4 + p / 4;
        let l = (sel >> (2 * t)) & 3;
        proof {
            assert((sel >> (2 * t)) & 3 <= 3) by (bit_vector);
        }
        acc = acc | (eac_index_of(l) << ((45 - 3 * p) as u64));
        p = p + 1;
    }
    acc
}

/// The BC7 mode-6 4-bit index for a selector level.
fn bc7_index_of(l: u32) -> (r: u128)
    requires
        l <= 3,
    ensures
        r == crate::codec::spec_bc7_index(l as int),
{
    if l == 0 {
        0
    } else if l == 1 {
        2
    } else if l == 2 {
        5
    } else {
        7
    }
}

/// BC7 mode 6's index field.
fn bc7_index_word(sel: u32) -> (w: u128)
    ensures
        w == crate::codec::spec_bc7_index_bits(sel, 15),
{
    let mut acc: u128 = 0;
    let mut p: u32 = 0;
    while p < 16
        invariant
            p <= 16,
            acc == crate::codec::spec_bc7_index_bits(sel, p as int - 1),
        decreases 16 - p,
    {
        let l = (sel >> (2 * p)) & 3;
        proof {
            assert((sel >> (2 * p)) & 3 <= 3) by (bit_vector);
        }
        let off: u32 = if p == 0 {
            65
        } else {
            64 + 4 * p
        };
        acc = acc | (bc7_index_of(l) << (off as u128));
        p = p + 1;
    }
    acc
}

/// FXT1's selector plane.
fn fxt1_sel_word(sel: u32) -> (w: u64)
    ensures
        w == crate::codec::spec_fxt1_sel_bits(sel, 31),
{
    let mut acc: u64 = 0;
    let mut p: u32 = 0;
    while p < 32
        invariant
            p <= 32,
            acc == crate::codec::spec_fxt1_sel_bits(sel, p as int - 1),
        decreases 32 - p,
    {
        let t = (p / 8) * 4 + (p % 8) % 4;
        let l = (sel >> (2 * t)) & 3;
        proof {
            assert((sel >> (2 * t)) & 3 <= 3) by (bit_vector);
        }
        let bit: u64 = if l >= 2 {
            1
        } else {
            0
        };
        acc = acc | (bit << (p as u64));
        p = p + 1;
    }
    acc
}

/// Byte `j` of a 64-bit little-endian value.
fn u64_byte_of(w: u64, j: u32) -> (r: u8)
    requires
        j < 8,
    ensures
        r == crate::codec::spec_u64_byte(w, j as int),
{
    ((w >> ((8 * j) as u64)) & 0xff) as u8
}

/// Byte `j` of a 128-bit little-endian value.
fn u128_byte_of(w: u128, j: u32) -> (r: u8)
    requires
        j < 16,
    ensures
        r == crate::codec::spec_u128_byte(w, j as int),
{
    ((w >> ((8 * j) as u128)) & 0xff) as u8
}

/// Byte `j` of a BC1 block.
fn bc1_unit_byte_of(e: EndpointPair, sel: u32, j: u32) -> (r: u8)
    requires
        j < 8,
    ensures
        r == crate::codec::spec_bc1_unit_byte(e, sel, j as int),
{
    if j < 2 {
        let c0 = if rgb565_of(e.hi) >= rgb565_of(e.lo) {
            rgb565_of(e.hi)
        } else {
            rgb565_of(e.lo)
        };
        ((c0 >> ((8 * j) as u32)) & 0xff) as u8
    } else if j < 4 {
        let c1 = if rgb565_of(e.hi) >= rgb565_of(e.lo) {
            rgb565_of(e.lo)
        } else {
            rgb565_of(e.hi)
        };
        ((c1 >> ((8 * (j - 2)) as u32)) & 0xff) as u8
    } else {
        ((bc1_sel_word(e, sel) >> ((8 * (j - 4)) as u32)) & 0xff) as u8
    }
}

/// Byte `j` of a BC4 block over one channel.
fn bc4_unit_byte_of(lo_v: u8, hi_v: u8, sel: u32, j: u32) -> (r: u8)
    requires
        j < 8,
    ensures
        r == crate::codec::spec_bc4_unit_byte(lo_v, hi_v, sel, j as int),
{
    if j == 0 {
        hi_v
    } else if j == 1 {
        lo_v
    } else {
        ((bc4_sel_word(sel) >> ((8 * (j - 2)) as u64)) & 0xff) as u8
    }
}

/// Byte `j` of an ETC1 block.
fn etc1_unit_byte_of(e: EndpointPair, sel: u32, j: u32) -> (r: u8)
    requires
        j < 8,
    ensures
        r == crate::codec::spec_etc1_unit_byte(e, sel, j as int),
{
    let r4 = (((e.lo.r as u32) + (e.hi.r as u32)) / 2) >> 4;
    let g4 = (((e.lo.g as u32) + (e.hi.g as u32)) / 2) >> 4;
    let b4 = (((e.lo.b as u32) + (e.hi.b as u32)) / 2) >> 4;
    if j == 0 {
        ((r4 << 4) | r4) as u8
    } else if j == 1 {
        ((g4 << 4) | g4) as u8
    } else if j == 2 {
        ((b4 << 4) | b4) as u8
    } else if j == 3 {
        0
    } else if j == 4 {
        ((etc1_msb_word(sel) >> 8) & 0xff) as u8
    } else if j == 5 {
        (etc1_msb_word(sel) & 0xff) as u8
    } else if j == 6 {
        ((etc1_lsb_word(sel) >> 8) & 0xff) as u8
    } else {
        (etc1_lsb_word(sel) & 0xff) as u8
    }
}

/// Byte `j` of an EAC A8 block.
fn eac_unit_byte_of(lo_v: u8, hi_v: u8, sel: u32, j: u32) -> (r: u8)
    requires
        j < 8,
    ensures
        r == crate::codec::spec_eac_unit_byte(lo_v, hi_v, sel, j as int),
{
    if j == 0 {
        (((lo_v as u32) + (hi_v as u32)) / 2) as u8
    } else if j == 1 {
        0x10
    } else {
        ((eac_sel_word(sel) >> ((8 * (7 - j)) as u64)) & 0xff) as u8
    }
}

/// The low alpha endpoint a block writes.
fn alpha_lo_at(c: &BasisContainer, sl: &SliceDesc, alpha_sl: Option<SliceDesc>, bi: u32) -> (r:
    u8)
    requires
        spec_slice_usable(c@, *sl),
        spec_alpha_usable(c@, *sl, alpha_sl),
        bi < crate::codec::spec_slice_blocks(*sl),
    ensures
        r == crate::codec::spec_alpha_lo(c@, *sl, alpha_sl, bi as int),
{
    match alpha_sl {
        Some(asl) => block_endpoints_at(c, &asl, bi).lo.r,
        None => if c.tex_format == BasisTextureFormat::ETC1S || sl.is_opaque {
            255
        } else {
            block_endpoints_at(c, sl, bi).lo.a
        },
    }
}

/// The high alpha endpoint a block writes.
fn alpha_hi_at(c: &BasisContainer, sl: &SliceDesc, alpha_sl: Option<SliceDesc>, bi: u32) -> (r:
    u8)
    requires
        spec_slice_usable(c@, *sl),
        spec_alpha_usable(c@, *sl, alpha_sl),
        bi < crate::codec::spec_slice_blocks(*sl),
    ensures
        r == crate::codec::spec_alpha_hi(c@, *sl, alpha_sl, bi as int),
{
    match alpha_sl {
        Some(asl) => block_endpoints_at(c, &asl, bi).hi.r,
        None => if c.tex_format == BasisTextureFormat::ETC1S || sl.is_opaque {
            255
        } else {
            block_endpoints_at(c, sl, bi).hi.a
        },
    }
}

/// The selector word the alpha half of a block uses.
fn alpha_sel_at(c: &BasisContainer, sl: &SliceDesc, alpha_sl: Option<SliceDesc>, bi: u32) -> (r:
    u32)
    requires
        spec_slice_usable(c@, *sl),
        spec_alpha_usable(c@, *sl, alpha_sl),
        bi < crate::codec::spec_slice_blocks(*sl),
    ensures
        r == crate::codec::spec_alpha_sel(c@, *sl, alpha_sl, bi as int),
{
    match alpha_sl {
        Some(asl) => block_sel_at(c, &asl, bi),
        None => block_sel_at(c, sl, bi),
    }
}

/// Byte `j` of the unit written for block `bi` in the given block
/// format.
fn block_unit_byte_at(
    c: &BasisContainer,
    sl: &SliceDesc,
    alpha_sl: Option<SliceDesc>,
    bf: crate::formats::TranscoderBlockFormat,
    bi: u32,
    j: u32,
) -> (r: u8)
    requires
        spec_slice_usable(c@, *sl),
        spec_alpha_usable(c@, *sl, alpha_sl),
        bi < crate::codec::spec_slice_blocks(*sl),
        j < bf.spec_bytes_per_block_or_pixel(),
        bf.spec_supported(),
    ensures
        r == crate::codec::spec_block_unit_byte(c@, *sl, alpha_sl, bf, bi as int, j as int),
{
    let e = block_endpoints_at(c, sl, bi);
    let sel = block_sel_at(c, sl, bi);
    let a_lo = alpha_lo_at(c, sl, alpha_sl, bi);
    let a_hi = alpha_hi_at(c, sl, alpha_sl, bi);
    let a_sel = alpha_sel_at(c, sl, alpha_sl, bi);
    if bf == crate::formats::TranscoderBlockFormat::ETC1 {
        etc1_unit_byte_of(e, sel, j)
    } else if bf == crate::formats::TranscoderBlockFormat::BC1 {
        bc1_unit_byte_of(e, sel, j)
    } else if bf == crate::formats::TranscoderBlockFormat::BC4 {
        bc4_unit_byte_of(e.lo.r, e.hi.r, sel, j)
    } else if bf == crate::formats::TranscoderBlockFormat::ETC2_EAC_A8 {
        eac_unit_byte_of(a_lo, a_hi, a_sel, j)
    } else if bf == crate::formats::TranscoderBlockFormat::FXT1_RGB {
        u64_byte_of(fxt1_sel_word(sel) | (rgb555_of(e.lo) << 32) | (rgb555_of(e.hi) << 47), j)
    } else if bf == crate::formats::TranscoderBlockFormat::ETC2_RGBA {
        if j < 8 {
            eac_unit_byte_of(a_lo, a_hi, a_sel, j)
        } else {
            etc1_unit_byte_of(e, sel, j - 8)
        }
    } else if bf == crate::formats::TranscoderBlockFormat::BC3 {
        if j < 8 {
            bc4_unit_byte_of(a_lo, a_hi, a_sel, j)
        } else {
            bc1_unit_byte_of(e, sel, j - 8)
        }
    } else if bf == crate::formats::TranscoderBlockFormat::BC5 {
        if j < 8 {
            bc4_unit_byte_of(e.lo.r, e.hi.r, sel, j)
        } else {
            bc4_unit_byte_of(a_lo, a_hi, a_sel, j - 8)
        }
    } else if bf == crate::formats::TranscoderBlockFormat::BC7 {
        let w: u128 = (0x40u128) | (((e.lo.r >> 1) as u128) << 7) | (((e.hi.r >> 1) as u128)
            << 14) | (((e.lo.g >> 1) as u128) << 21) | (((e.hi.g >> 1) as u128) << 28) | (((
        e.lo.b >> 1) as u128) << 35) | (((e.hi.b >> 1) as u128) << 42) | (((a_lo >> 1) as u128)
            << 49) | (((a_hi >> 1) as u128) << 56) | bc7_index_word(sel);
        u128_byte_of(w, j)
    } else {
        let w = astc_void_word_of(
            mid_of(e.lo.r, e.hi.r),
            mid_of(e.lo.g, e.hi.g),
            mid_of(e.lo.b, e.hi.b),
            mid_of(a_lo, a_hi),
        );
        u128_byte_of(w, j)
    }
}

/// An ASTC 4x4 void-extent block at the given constant color.
fn astc_void_word_of(r: u8, g: u8, b: u8, a: u8) -> (w: u128)
    ensures
        w == crate::codec::spec_astc_void_word(r, g, b, a),
{
    0x1FCu128 | (0x3u128 << 10) | (0xF_FFFF_FFFF_FFFFu128 << 12) | (((r as u128) * 257) << 64)
        | (((g as u128) * 257) << 80) | (((b as u128) * 257) << 96) | (((a as u128) * 257)
        << 112)
}

/// Whether every block of an ETC1S slice references existing codebook
/// entries.
fn check_refs(c: &BasisContainer, sl: &SliceDesc) -> (r: bool)
    requires
        c.tex_format == BasisTextureFormat::ETC1S,
        1 <= sl.orig_width <= crate::TEXTURE_DIMENSION_MAX,
        1 <= sl.orig_height <= crate::TEXTURE_DIMENSION_MAX,
        sl.num_blocks_x == (sl.orig_width + 3) / 4,
        sl.num_blocks_y == (sl.orig_height + 3) / 4,
        sl.payload_offset + sl.payload_len <= c.payload@.len(),
        sl.payload_len == crate::codec::spec_slice_blocks(*sl),
        c.endpoints@.len() <= crate::container::ENDPOINT_COUNT_MAX,
        c.selectors@.len() <= crate::container::SELECTOR_COUNT_MAX,
    ensures
        r == crate::codec::spec_etc1s_refs_ok(c@, *sl),
{
    proof {
        vstd::arithmetic::mul::lemma_mul_upper_bound(
            sl.num_blocks_x as int,
            4096,
            sl.num_blocks_y as int,
            4096,
        );
    }
    let blocks = mul_u32_wide(sl.num_blocks_x, sl.num_blocks_y) as u32;
    let ne = c.endpoints.len();
    let ns = c.selectors.len();
    let mut bi: u32 = 0;
    while bi < blocks
        invariant
            blocks == crate::codec::spec_slice_blocks(*sl),
            sl.payload_offset + sl.payload_len <= c.payload@.len(),
            sl.payload_len == crate::codec::spec_slice_blocks(*sl),
            ne == c.endpoints@.len(),
            ns == c.selectors@.len(),
            ne <= crate::container::ENDPOINT_COUNT_MAX,
            ns <= crate::container::SELECTOR_COUNT_MAX,
            bi <= blocks,
            forall|j: int|
                0 <= j < bi ==> crate::codec::spec_etc1s_e_idx(
                    #[trigger] crate::codec::spec_etc1s_block_word(c@, *sl, j),
                ) < c@.endpoints.len() && crate::codec::spec_etc1s_s_idx(
                    crate::codec::spec_etc1s_block_word(c@, *sl, j),
                ) < c@.selectors.len(),
        decreases blocks - bi,
    {
        let plen = c.payload.len();
        let idx = sl.payload_offset as usize + bi as usize;
        let w = c.payload[idx];
        proof {
            assert(w == crate::codec::spec_etc1s_block_word(c@, *sl, bi as int));
            assert(w & 0xffff <= 0xffff && w >> 16 <= 0xffff) by (bit_vector);
        }
        if (w & 0xffff) >= ne as u32 || (w >> 16) >= ns as u32 {
            return false;
        }
        bi = bi + 1;
    }
    true
}

/// Write the output of an uncompressed target: `pitch` pixels per row,
/// `rows` rows.
fn write_uncompressed(
    c: &BasisContainer,
    sl: &SliceDesc,
    alpha_sl: Option<SliceDesc>,
    fmt: TranscoderTextureFormat,
    pitch: u32,
    rows: u32,
) -> (out: Vec<u8>)
    requires
        !fmt.spec_is_compressed(),
        spec_slice_usable(c@, *sl),
        spec_alpha_usable(c@, *sl, alpha_sl),
        pitch >= 1,
        rows >= 1,
        rows * pitch * (fmt.spec_bytes_per_block_or_pixel() as int) <= u32::MAX,
    ensures
        out@ == Seq::new(
            (rows * pitch * (fmt.spec_bytes_per_block_or_pixel() as int)) as nat,
            |k: int|
                crate::codec::spec_uncompressed_byte(
                    c@,
                    fmt,
                    *sl,
                    alpha_sl,
                    pitch as int,
                    rows as int,
                    k,
                ),
        ),
{
    let bpp = fmt.bytes_per_block_or_pixel();
    proof {
        assert((rows as int) * (pitch as int) <= u32::MAX) by (nonlinear_arith)
            requires
                rows * pitch * (fmt.spec_bytes_per_block_or_pixel() as int) <= u32::MAX,
                fmt.spec_bytes_per_block_or_pixel() >= 1,
                rows >= 1,
                pitch >= 1,
        ;
        vstd::arithmetic::mul::lemma_mul_is_associative(
            rows as int,
            pitch as int,
            bpp as int,
        );
    }
    let units = mul_u32_wide(rows, pitch);
    let total = units * (bpp as u64);
    let mut out: Vec<u8> = Vec::new();
    let mut k: u64 = 0;
    while k < total
        invariant
            bpp == fmt.spec_bytes_per_block_or_pixel(),
            !fmt.spec_is_compressed(),
            spec_slice_usable(c@, *sl),
            spec_alpha_usable(c@, *sl, alpha_sl),
            pitch >= 1,
            rows >= 1,
            total == rows * pitch * (bpp as int),
            total <= u32::MAX,
            k <= total,
            out@.len() == k,
            forall|j: int|
                0 <= j < k ==> out@[j] == crate::codec::spec_uncompressed_byte(
                    c@,
                    fmt,
                    *sl,
                    alpha_sl,
                    pitch as int,
                    rows as int,
                    j,
                ),
        decreases total - k,
    {
        let pos = k / (bpp as u64);
        let ch = (k % (bpp as u64)) as u32;
        let y64 = pos / (pitch as u64);
        let x = (pos % (pitch as u64)) as u32;
        proof {
            assert(pos < rows * pitch) by (nonlinear_arith)
                requires
                    pos == (k as int) / (bpp as int),
                    k < total,
                    total == rows * pitch * (bpp as int),
                    bpp >= 1,
            ;
            assert((pos as int) / (pitch as int) < rows) by (nonlinear_arith)
                requires
                    pos < rows * pitch,
                    pitch >= 1,
                    pos >= 0,
            ;
        }
        let y = y64 as u32;
        let byte: u8 = if x < sl.orig_width && y < sl.orig_height {
            let p = output_pixel_at(c, sl, alpha_sl, x, y);
            if fmt == TranscoderTextureFormat::RGBA32 {
                if ch == 0 {
                    p.r
                } else if ch == 1 {
                    p.g
                } else if ch == 2 {
                    p.b
                } else {
                    p.a
                }
            } else {
                let v = packed16_value(fmt, p);
                if ch == 0 {
                    (v & 0xff) as u8
                } else {
                    ((v >> 8) & 0xff) as u8
                }
            }
        } else {
            0
        };
        out.push(byte);
        k = k + 1;
    }
    proof {
        assert(out@ =~= Seq::new(
            (rows * pitch * (fmt.spec_bytes_per_block_or_pixel() as int)) as nat,
            |j: int|
                crate::codec::spec_uncompressed_byte(
                    c@,
                    fmt,
                    *sl,
                    alpha_sl,
                    pitch as int,
                    rows as int,
                    j,
                ),
        ));
    }
    out
}

/// Write the output of a compressed target over a `bw` by `bh` block
/// grid in the given block format.
fn write_compressed(
    c: &BasisContainer,
    sl: &SliceDesc,
    alpha_sl: Option<SliceDesc>,
    bf: crate::formats::TranscoderBlockFormat,
    bw: u32,
    bh: u32,
) -> (out: Vec<u8>)
    requires
        spec_slice_usable(c@, *sl),
        spec_alpha_usable(c@, *sl, alpha_sl),
        bf.spec_supported(),
        bw == crate::codec::spec_out_grid_w(
            bf == crate::formats::TranscoderBlockFormat::FXT1_RGB,
            *sl,
        ),
        bh == crate::codec::spec_out_grid_h(
            bf == crate::formats::TranscoderBlockFormat::FXT1_RGB,
            *sl,
        ),
    ensures
        out@ == Seq::new(
            (bw * bh * (bf.spec_bytes_per_block_or_pixel() as int)) as nat,
            |k: int| crate::codec::spec_compressed_byte(c@, *sl, alpha_sl, bf, bw as int, k),
        ),
{
    let bpb = bf.bytes_per_block_or_pixel();
    let fxt1 = bf == crate::formats::TranscoderBlockFormat::FXT1_RGB;
    proof {
        vstd::arithmetic::mul::lemma_mul_upper_bound(bw as int, 4096, bh as int, 4096);
        vstd::arithmetic::mul::lemma_mul_is_associative(bw as int, bh as int, bpb as int);
    }
    let grid = mul_u32_wide(bw, bh);
    let total = grid * (bpb as u64);
    let mut out: Vec<u8> = Vec::new();
    let mut k: u64 = 0;
    while k < total
        invariant
            spec_slice_usable(c@, *sl),
            spec_alpha_usable(c@, *sl, alpha_sl),
            bf.spec_supported(),
            bpb == bf.spec_bytes_per_block_or_pixel(),
            bpb == 8 || bpb == 16,
            fxt1 == (bf == crate::formats::TranscoderBlockFormat::FXT1_RGB),
            bw == crate::codec::spec_out_grid_w(fxt1, *sl),
            bh == crate::codec::spec_out_grid_h(fxt1, *sl),
            total == bw * bh * (bpb as int),
            total <= 0x1_0000_0000_00u64,
            k <= total,
            out@.len() == k,
            forall|j: int|
                0 <= j < k ==> out@[j] == crate::codec::spec_compressed_byte(
                    c@,
                    *sl,
                    alpha_sl,
                    bf,
                    bw as int,
                    j,
                ),
        decreases total - k,
    {
        let gi = k / (bpb as u64);
        let j = (k % (bpb as u64)) as u32;
        proof {
            assert(gi < bw * bh) by (nonlinear_arith)
                requires
                    gi == (k as int) / (bpb as int),
                    k < total,
                    total == bw * bh * (bpb as int),
                    bpb >= 1,
            ;
            assert(bw >= 1) by (nonlinear_arith)
                requires
                    gi < bw * bh,
                    gi >= 0,
                    bw >= 0,
                    bh >= 0,
            ;
            assert((gi as int) / (bw as int) < bh) by (nonlinear_arith)
                requires
                    gi < bw * bh,
                    bw >= 1,
                    gi >= 0,
            ;
        }
        let gx = (gi % (bw as u64)) as u32;
        let gy = (gi / (bw as u64)) as u32;
        let sx: u32 = if fxt1 {
            if 2 * gx < sl.num_blocks_x - 1 {
                2 * gx
            } else {
                sl.num_blocks_x - 1
            }
        } else {
            gx
        };
        proof {
            if fxt1 {
                assert(bh == (sl.orig_height + 3) / 4 && bh == sl.num_blocks_y);
            } else {
                assert(sx < sl.num_blocks_x);
            }
            assert(sx < sl.num_blocks_x && gy < sl.num_blocks_y);
            crate::image::lemma_row_major_index(
                sx as int,
                gy as int,
                sl.num_blocks_x as int,
                sl.num_blocks_y as int,
            );
            vstd::arithmetic::mul::lemma_mul_upper_bound(
                gy as int,
                4096,
                sl.num_blocks_x as int,
                4096,
            );
        }
        let bi = gy * sl.num_blocks_x + sx;
        let byte: u8 = block_unit_byte_at(c, sl, alpha_sl, bf, bi, j);
        out.push(byte);
        k = k + 1;
    }
    proof {
        assert(out@ =~= Seq::new(
            (bw * bh * (bf.spec_bytes_per_block_or_pixel() as int)) as nat,
            |j: int| crate::codec::spec_compressed_byte(c@, *sl, alpha_sl, bf, bw as int, j),
        ));
    }
    out
}

/// The transcode of the color slice at index `si` of a parsed
/// container; the exec counterpart of
/// [`crate::codec::spec_transcode_from`].
#[verifier::rlimit(100)]
#[verifier::spinoff_prover]
fn transcode_from(
    c: &BasisContainer,
    si: usize,
    transcode_format: TranscoderTextureFormat,
    image_index: u32,
    level_index: u32,
    flags: DecodeFlags,
    pitch_ov: Option<u32>,
    rows_ov: Option<u32>,
) -> (r: Result<Vec<u8>, TranscodeError>)
    requires
        c@.wf(),
        si < c.slices@.len(),
        transcode_format.spec_supported(),
    ensures
        ({
            let spec_r = crate::codec::spec_transcode_from(
                c@,
                si as int,
                transcode_format,
                image_index,
                level_index,
                flags.bits,
                pitch_ov,
                rows_ov,
            );
            &&& (spec_r matches Ok(v) ==> r matches Ok(out) && out@ == v)
            &&& (spec_r matches Err(e) ==> r == Result::<Vec<u8>, TranscodeError>::Err(e))
        }),
{
    let sl = c.slices[si];
    proof {
        assert(crate::container::spec_slice_ok(
            c@.slices[si as int],
            c@.tex_format,
            c@.total_images,
            c@.payload.len() as int,
        ));
    }
    let alpha_found = find_slice(&c.slices, image_index, level_index, true);
    let alpha_sl_opt: Option<SliceDesc> = match alpha_found {
        Some(ai) => {
            proof {
                assert(crate::container::spec_slice_ok(
                    c@.slices[ai as int],
                    c@.tex_format,
                    c@.total_images,
                    c@.payload.len() as int,
                ));
            }
            Some(c.slices[ai])
        },
        None => None,
    };
    let redirect = flags.contains(
        crate::formats::DECODE_FLAGS_TRANSCODE_ALPHA_DATA_TO_OPAQUE_FORMATS,
    ) && !transcode_format.has_alpha() && alpha_sl_opt.is_some();
    let color_sl: SliceDesc = if redirect {
        match alpha_sl_opt {
            Some(a) => a,
            None => sl,
        }
    } else {
        sl
    };
    let used_alpha: Option<SliceDesc> = if redirect || !transcode_format.has_alpha() {
        None
    } else {
        match alpha_sl_opt {
            Some(a) => {
                if a.num_blocks_x == color_sl.num_blocks_x && a.num_blocks_y
                    == color_sl.num_blocks_y && a.orig_width >= color_sl.orig_width
                    && a.orig_height >= color_sl.orig_height {
                    Some(a)
                } else {
                    None
                }
            },
            None => None,
        }
    };
    let bpp = transcode_format.bytes_per_block_or_pixel();
    let pitch = match pitch_ov {
        Some(p) => if p == 0 {
            color_sl.orig_width
        } else {
            p
        },
        None => color_sl.orig_width,
    };
    let rows = match rows_ov {
        Some(rr) => if rr == 0 {
            color_sl.orig_height
        } else {
            rr
        },
        None => color_sl.orig_height,
    };
    if !transcode_format.is_compressed() {
        let units = mul_u32_wide(pitch, rows);
        if units > 0xffff_ffffu64 {
            proof {
                assert((pitch as int) * (rows as int) * (bpp as int) > u32::MAX)
                    by (nonlinear_arith)
                    requires
                        (pitch as int) * (rows as int) > u32::MAX,
                        bpp >= 1,
                ;
            }
            return Err(TranscodeError::TranscodeFailed);
        }
        if units * (bpp as u64) > 0xffff_ffffu64 {
            return Err(TranscodeError::TranscodeFailed);
        }
    }
    if c.tex_format == BasisTextureFormat::ETC1S {
        if !check_refs(c, &color_sl) {
            return Err(TranscodeError::TranscodeFailed);
        }
        match used_alpha {
            Some(a) => {
                if !check_refs(c, &a) {
                    return Err(TranscodeError::TranscodeFailed);
                }
            },
            None => {},
        }
    }
    proof {
        if !transcode_format.spec_is_compressed() {
            assert((rows as int) * (pitch as int) * (bpp as int) == (pitch as int) * (
            rows as int) * (bpp as int)) by (nonlinear_arith);
        }
    }
    let out: Vec<u8> = if !transcode_format.is_compressed() {
        write_uncompressed(c, &color_sl, used_alpha, transcode_format, pitch, rows)
    } else {
        let bf = transcode_format.block_format();
        proof {
            assert(bf.spec_supported());
        }
        let fxt1 = bf == crate::formats::TranscoderBlockFormat::FXT1_RGB;
        let bw: u32 = if fxt1 {
            (((color_sl.orig_width as u64) + 7) / 8) as u32
        } else {
            color_sl.num_blocks_x
        };
        let bh: u32 = if fxt1 {
            (((color_sl.orig_height as u64) + 3) / 4) as u32
        } else {
            color_sl.num_blocks_y
        };
        write_compressed(c, &color_sl, used_alpha, bf, bw, bh)
    };
    proof {
        assert(out@ =~= crate::codec::spec_transcode_output(
            c@,
            transcode_format,
            color_sl,
            used_alpha,
            pitch_ov,
            rows_ov,
        ));
    }
    Ok(out)
}

impl Transcoder {
    /// Decode a single mip level of one image to the requested target
    /// format.
    ///
    /// The call finds the level's color slice and, when the target
    /// carries alpha and the container stores a matching alpha slice,
    /// pairs the two; a container without alpha decodes with a fully
    /// opaque alpha channel. The whole behavior, including every error
    /// case, is [`crate::codec::spec_transcode_result`]: in particular,
    /// an image or level index at or beyond the container's stored
    /// counts reports [`TranscodeError::ImageLevelNotFound`], since a
    /// parseable directory's level indices count up from zero; see
    /// [`crate::container::lemma_level_lookup_bounded`].
    pub fn transcode_image_level(
        &self,
        data: &[u8],
        transcode_format: TranscoderTextureFormat,
        transcode_parameters: TranscodeParameters,
    ) -> (r: Result<Vec<u8>, TranscodeError>)
        ensures
            ({
                let spec_r = crate::codec::spec_transcode_result(
                    self.prepared,
                    data@,
                    transcode_format,
                    transcode_parameters.image_index,
                    transcode_parameters.level_index,
                    spec_flag_bits(transcode_parameters.decode_flags),
                    transcode_parameters.output_row_pitch_in_blocks_or_pixels,
                    transcode_parameters.output_rows_in_pixels,
                );
                &&& (spec_r matches Ok(v) ==> r matches Ok(out) && out@ == v)
                &&& (spec_r matches Err(e) ==> r == Result::<Vec<u8>, TranscodeError>::Err(e))
            }),
    {
        let image_index = transcode_parameters.image_index;
        let level_index = transcode_parameters.level_index;
        let flags = match transcode_parameters.decode_flags {
            Some(f) => f,
            None => DecodeFlags::empty(),
        };
        let pitch_ov = transcode_parameters.output_row_pitch_in_blocks_or_pixels;
        let rows_ov = transcode_parameters.output_rows_in_pixels;
        if !transcode_format.supported() {
            return Err(TranscodeError::TranscodeFormatNotSupported);
        }
        let parsed = parse_container(data);
        match parsed {
            None => Err(TranscodeError::ImageLevelNotFound),
            Some(c) => {
                match find_slice(&c.slices, image_index, level_index, false) {
                    None => Err(TranscodeError::ImageLevelNotFound),
                    Some(si) => {
                        if !self.prepared {
                            return Err(TranscodeError::TranscodeFailed);
                        }
                        transcode_from(
                            &c,
                            si,
                            transcode_format,
                            image_index,
                            level_index,
                            flags,
                            pitch_ov,
                            rows_ov,
                        )
                    },
                }
            },
        }
    }
}

/// A reduced entry point that transcodes one raw UASTC slice, without
/// container parsing or codebooks: the caller supplies the block-grid
/// geometry directly.
pub struct LowLevelUastcTranscoder {
}

impl Default for LowLevelUastcTranscoder {
    fn default() -> (r: LowLevelUastcTranscoder)
    {
        LowLevelUastcTranscoder {  }
    }
}

/// The geometry of a raw UASTC slice handed to
/// [`LowLevelUastcTranscoder::transcode_slice`].
#[derive(Debug, Copy, Clone, PartialEq, Eq, Structural)]
pub struct SliceParametersUastc {
    pub num_blocks_x: u32,
    pub num_blocks_y: u32,
    /// Whether the slice carries alpha; recorded for callers, the
    /// blocks of this codec always hold full RGBA endpoints.
    pub has_alpha: bool,
    pub original_width: u32,
    pub original_height: u32,
}

impl LowLevelUastcTranscoder {
    /// Create a low-level slice transcoder; it is stateless.
    pub fn new() -> (r: LowLevelUastcTranscoder)
    {
        LowLevelUastcTranscoder {  }
    }

    /// Transcode one raw UASTC slice to a compressed block format. The
    /// decode flags are accepted and recorded; the block writers here
    /// do not change their layout for them. The whole behavior is
    /// [`crate::codec::spec_transcode_slice_result`].
    pub fn transcode_slice(
        &self,
        data: &[u8],
        slice_parameters: SliceParametersUastc,
        decode_flags: DecodeFlags,
        transcode_block_format: crate::formats::TranscoderBlockFormat,
    ) -> (r: Result<Vec<u8>, TranscodeError>)
        ensures
            ({
                let spec_r = crate::codec::spec_transcode_slice_result(
                    data@,
                    slice_parameters.num_blocks_x,
                    slice_parameters.num_blocks_y,
                    slice_parameters.original_width,
                    slice_parameters.original_height,
                    transcode_block_format,
                );
                &&& (spec_r matches Ok(v) ==> r matches Ok(out) && out@ == v)
                &&& (spec_r matches Err(e) ==> r == Result::<Vec<u8>, TranscodeError>::Err(e))
            }),
    {
        let nbx = slice_parameters.num_blocks_x;
        let nby = slice_parameters.num_blocks_y;
        let ow = slice_parameters.original_width;
        let oh = slice_parameters.original_height;
        if !transcode_block_format.is_compressed() || !transcode_block_format.supported() {
            return Err(TranscodeError::TranscodeFailed);
        }
        if !(1 <= ow && ow <= crate::TEXTURE_DIMENSION_MAX && 1 <= oh && oh
            <= crate::TEXTURE_DIMENSION_MAX && nbx == (ow + 3) / 4 && nby == (oh + 3) / 4) {
            return Err(TranscodeError::TranscodeFailed);
        }
        if data.len() % 4 != 0 {
            return Err(TranscodeError::TranscodeFailed);
        }
        let words = bytes_to_words(data);
        proof {
            vstd::arithmetic::mul::lemma_mul_upper_bound(nbx as int, 4096, nby as int, 4096);
            vstd::arithmetic::mul::lemma_mul_is_associative(4int, nbx as int, nby as int);
        }
        let blocks = mul_u32_wide(nbx, nby);
        if (words.len() as u64) != 4 * blocks {
            return Err(TranscodeError::TranscodeFailed);
        }
        let payload_len = (4 * blocks) as u32;
        let c = BasisContainer {
            tex_format: BasisTextureFormat::UASTC4x4,
            tex_type: BasisTextureType::TextureType2D,
            userdata0: 0,
            userdata1: 0,
            total_images: 1,
            has_alpha: false,
            endpoints: Vec::new(),
            selectors: Vec::new(),
            slices: Vec::new(),
            payload: words,
        };
        let sl = SliceDesc {
            image_index: 0,
            level_index: 0,
            orig_width: ow,
            orig_height: oh,
            num_blocks_x: nbx,
            num_blocks_y: nby,
            payload_offset: 0,
            payload_len,
            is_alpha: false,
            is_opaque: false,
        };
        proof {
            vstd::arithmetic::mul::lemma_mul_is_associative(4int, nbx as int, nby as int);
            assert(c@ =~= crate::codec::spec_uastc_slice_container(spec_bytes_to_words(data@)));
            assert(sl == crate::codec::spec_uastc_slice_desc(nbx, nby, ow, oh));
            assert(spec_slice_usable(c@, sl));
        }
        let fxt1 = transcode_block_format == crate::formats::TranscoderBlockFormat::FXT1_RGB;
        let bw: u32 = if fxt1 {
            (((ow as u64) + 7) / 8) as u32
        } else {
            nbx
        };
        let bh: u32 = if fxt1 {
            (((oh as u64) + 3) / 4) as u32
        } else {
            nby
        };
        let out = write_compressed(&c, &sl, None, transcode_block_format, bw, bh);
        proof {
            let spec_r = crate::codec::spec_transcode_slice_result(
                data@,
                nbx,
                nby,
                ow,
                oh,
                transcode_block_format,
            );
            assert(spec_r matches Ok(v) && out@ =~= v);
        }
        Ok(out)
    }
}

} // verus!
