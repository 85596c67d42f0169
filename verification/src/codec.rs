//! The mathematical model of the codec: how stored blocks decode to
//! pixels, what each transcode target's output bytes are, and what the
//! compressor guarantees about the containers it emits.
//!
//! Both sub-formats share one block shape: a pair of RGBA endpoints and
//! a word of sixteen 2-bit selectors; a pixel is the interpolation of
//! the endpoints at its selector level. An ETC1S block stores one
//! payload word holding an endpoint index (low half) and a selector
//! index (high half) into the shared codebooks; a UASTC block stores
//! four payload words: both packed endpoints, the selector word, and a
//! reserved word.
use vstd::prelude::*;
use crate::container::ContainerModel;
use crate::container::SliceDesc;
use crate::container::EndpointPair;
use crate::container::spec_unpack_color;
use crate::container::spec_find_slice;
use crate::container::spec_level_count;
use crate::container::spec_bytes_to_words;
use crate::formats::BasisTextureFormat;
use crate::formats::TranscoderTextureFormat;
use crate::formats::DECODE_FLAGS_TRANSCODE_ALPHA_DATA_TO_OPAQUE_FORMATS;
use crate::image::ColorU8;
use crate::params::CompressorParams;
use crate::transcoder::TranscodeError;

verus! {

/// The interpolation of two endpoint channels at a 2-bit selector
/// level: level 0 is `lo`, level 3 is `hi`.
pub open spec fn spec_interp(lo: u8, hi: u8, s: int) -> u8 {
    (((lo as int) * (3 - s) + (hi as int) * s) / 3) as u8
}

/// The 2-bit selector level of pixel `px` (0 to 15) in a selector word.
pub open spec fn spec_sel_level(sel_word: u32, px: int) -> int {
    ((sel_word >> ((2 * px) as u32)) & 3) as int
}

/// The pixel a block yields at in-block coordinates `(tx, ty)`.
pub open spec fn spec_decode_pixel(e: EndpointPair, sel_word: u32, tx: int, ty: int) -> ColorU8 {
    let s = spec_sel_level(sel_word, ty * 4 + tx);
    ColorU8 {
        r: spec_interp(e.lo.r, e.hi.r, s),
        g: spec_interp(e.lo.g, e.hi.g, s),
        b: spec_interp(e.lo.b, e.hi.b, s),
        a: spec_interp(e.lo.a, e.hi.a, s),
    }
}

/// The number of blocks a slice stores.
pub open spec fn spec_slice_blocks(sl: SliceDesc) -> int {
    sl.num_blocks_x * sl.num_blocks_y
}

/// The stored payload word of ETC1S block `bi` of a slice.
pub open spec fn spec_etc1s_block_word(c: ContainerModel, sl: SliceDesc, bi: int) -> u32 {
    c.payload[sl.payload_offset + bi]
}

/// The endpoint codebook index an ETC1S block word holds.
pub open spec fn spec_etc1s_e_idx(w: u32) -> int {
    (w & 0xffff) as int
}

/// The selector codebook index an ETC1S block word holds.
pub open spec fn spec_etc1s_s_idx(w: u32) -> int {
    (w >> 16) as int
}

/// Whether every block of an ETC1S slice references existing codebook
/// entries; a slice that fails this is malformed and rejected at
/// transcode time.
pub open spec fn spec_etc1s_refs_ok(c: ContainerModel, sl: SliceDesc) -> bool {
    forall|bi: int|
        0 <= bi < spec_slice_blocks(sl) ==> spec_etc1s_e_idx(
            #[trigger] spec_etc1s_block_word(c, sl, bi),
        ) < c.endpoints.len() && spec_etc1s_s_idx(spec_etc1s_block_word(c, sl, bi))
            < c.selectors.len()
}

/// The endpoints of UASTC block `bi` of a slice: its first two payload
/// words, unpacked.
pub open spec fn spec_uastc_endpoints(c: ContainerModel, sl: SliceDesc, bi: int) -> EndpointPair {
    EndpointPair {
        lo: spec_unpack_color(c.payload[sl.payload_offset + 4 * bi]),
        hi: spec_unpack_color(c.payload[sl.payload_offset + 4 * bi + 1]),
    }
}

/// The selector word of UASTC block `bi` of a slice: its third payload
/// word.
pub open spec fn spec_uastc_sel(c: ContainerModel, sl: SliceDesc, bi: int) -> u32 {
    c.payload[sl.payload_offset + 4 * bi + 2]
}

/// The endpoints of block `bi` of a slice, through the codebook for
/// ETC1S and directly from the payload for UASTC.
pub open spec fn spec_block_endpoints(c: ContainerModel, sl: SliceDesc, bi: int) -> EndpointPair {
    if c.tex_format == BasisTextureFormat::ETC1S {
        c.endpoints[spec_etc1s_e_idx(spec_etc1s_block_word(c, sl, bi))]
    } else {
        spec_uastc_endpoints(c, sl, bi)
    }
}

/// The selector word of block `bi` of a slice.
pub open spec fn spec_block_sel(c: ContainerModel, sl: SliceDesc, bi: int) -> u32 {
    if c.tex_format == BasisTextureFormat::ETC1S {
        c.selectors[spec_etc1s_s_idx(spec_etc1s_block_word(c, sl, bi))]
    } else {
        spec_uastc_sel(c, sl, bi)
    }
}

/// The decoded pixel of a slice at `(x, y)`, with `x` below the
/// original width and `y` below the original height.
pub open spec fn spec_slice_pixel(c: ContainerModel, sl: SliceDesc, x: int, y: int) -> ColorU8 {
    let bi = (y / 4) * sl.num_blocks_x + (x / 4);
    spec_decode_pixel(spec_block_endpoints(c, sl, bi), spec_block_sel(c, sl, bi), x % 4, y % 4)
}

/// The RGBA value written for one output position of an uncompressed
/// target: the decoded color, with the alpha channel taken from the
/// alpha slice when one is given, forced opaque for ETC1S without one,
/// and taken from the block itself for UASTC.
pub open spec fn spec_output_pixel(
    c: ContainerModel,
    sl: SliceDesc,
    alpha_sl: Option<SliceDesc>,
    x: int,
    y: int,
) -> ColorU8 {
    let col = spec_slice_pixel(c, sl, x, y);
    let a = match alpha_sl {
        Some(asl) => spec_slice_pixel(c, asl, x, y).r,
        None => if c.tex_format == BasisTextureFormat::ETC1S || sl.is_opaque {
            255
        } else {
            col.a
        },
    };
    ColorU8 { r: col.r, g: col.g, b: col.b, a }
}

/// The 16-bit packed value of a pixel for the three packed
/// uncompressed targets.
pub open spec fn spec_packed16(fmt: TranscoderTextureFormat, p: ColorU8) -> u32 {
    if fmt == TranscoderTextureFormat::RGB565 {
        (((p.r >> 3) as u32) << 11) | (((p.g >> 2) as u32) << 5) | ((p.b >> 3) as u32)
    } else if fmt == TranscoderTextureFormat::BGR565 {
        (((p.b >> 3) as u32) << 11) | (((p.g >> 2) as u32) << 5) | ((p.r >> 3) as u32)
    } else {
        (((p.r >> 4) as u32) << 12) | (((p.g >> 4) as u32) << 8) | (((p.b >> 4) as u32) << 4) | (
        (p.a >> 4) as u32)
    }
}

/// Byte `k` of the output of an uncompressed target with `pitch`
/// pixels per row and `rows` rows: positions outside the original
/// dimensions stay zero.
pub open spec fn spec_uncompressed_byte(
    c: ContainerModel,
    fmt: TranscoderTextureFormat,
    sl: SliceDesc,
    alpha_sl: Option<SliceDesc>,
    pitch: int,
    rows: int,
    k: int,
) -> u8 {
    let bpp = fmt.spec_bytes_per_block_or_pixel() as int;
    let pos = k / bpp;
    let ch = k % bpp;
    let y = pos / pitch;
    let x = pos % pitch;
    if x < sl.orig_width && y < sl.orig_height {
        let p = spec_output_pixel(c, sl, alpha_sl, x, y);
        if fmt == TranscoderTextureFormat::RGBA32 {
            if ch == 0 {
                p.r
            } else if ch == 1 {
                p.g
            } else if ch == 2 {
                p.b
            } else {
                p.a
            }
        } else {
            let v = spec_packed16(fmt, p);
            if ch == 0 {
                (v & 0xff) as u8
            } else {
                ((v >> 8) & 0xff) as u8
            }
        }
    } else {
        0
    }
}

/// The per-pixel selector level translated to the column-major pixel
/// order the ETC-family blocks store: bit position `p` covers pixel
/// `(x, y) = (p / 4, p % 4)`.
pub open spec fn spec_sel_level_cm(sel: u32, p: int) -> int {
    spec_sel_level(sel, (p % 4) * 4 + p / 4)
}

/// A color packed to RGB565.
pub open spec fn spec_rgb565(c: ColorU8) -> u32 {
    (((c.r >> 3) as u32) << 11) | (((c.g >> 2) as u32) << 5) | ((c.b >> 3) as u32)
}

/// A color packed to RGB555.
pub open spec fn spec_rgb555(c: ColorU8) -> u64 {
    (((c.r >> 3) as u64) << 10) | (((c.g >> 3) as u64) << 5) | ((c.b >> 3) as u64)
}

/// The midpoint of two channel values.
pub open spec fn spec_mid(a: u8, b: u8) -> u8 {
    (((a + b) / 2) as u8)
}

/// The low alpha endpoint a block writes: the alpha slice's low
/// endpoint when one is paired, fully opaque for ETC1S or opaque
/// slices, and the block's own low alpha otherwise.
pub open spec fn spec_alpha_lo(
    c: ContainerModel,
    sl: SliceDesc,
    alpha_sl: Option<SliceDesc>,
    bi: int,
) -> u8 {
    match alpha_sl {
        Some(asl) => spec_block_endpoints(c, asl, bi).lo.r,
        None => if c.tex_format == BasisTextureFormat::ETC1S || sl.is_opaque {
            255
        } else {
            spec_block_endpoints(c, sl, bi).lo.a
        },
    }
}

/// The high alpha endpoint a block writes; see [`spec_alpha_lo`].
pub open spec fn spec_alpha_hi(
    c: ContainerModel,
    sl: SliceDesc,
    alpha_sl: Option<SliceDesc>,
    bi: int,
) -> u8 {
    match alpha_sl {
        Some(asl) => spec_block_endpoints(c, asl, bi).hi.r,
        None => if c.tex_format == BasisTextureFormat::ETC1S || sl.is_opaque {
            255
        } else {
            spec_block_endpoints(c, sl, bi).hi.a
        },
    }
}

/// The selector word the alpha half of a block uses: the alpha
/// slice's when one is paired, the color block's otherwise.
pub open spec fn spec_alpha_sel(
    c: ContainerModel,
    sl: SliceDesc,
    alpha_sl: Option<SliceDesc>,
    bi: int,
) -> u32 {
    match alpha_sl {
        Some(asl) => spec_block_sel(c, asl, bi),
        None => spec_block_sel(c, sl, bi),
    }
}

/// The BC1 index for a selector level: the four-color mode orders its
/// palette `color0, color1, 2/3 color0 + 1/3 color1, 1/3 color0 + 2/3
/// color1`, with `color0` the larger packed endpoint.
pub open spec fn spec_bc1_index(e: EndpointPair, l: int) -> u32 {
    if spec_rgb565(e.hi) == spec_rgb565(e.lo) {
        0
    } else if spec_rgb565(e.hi) > spec_rgb565(e.lo) {
        if l == 0 {
            1
        } else if l == 1 {
            3
        } else if l == 2 {
            2
        } else {
            0
        }
    } else {
        if l == 0 {
            0
        } else if l == 1 {
            2
        } else if l == 2 {
            3
        } else {
            1
        }
    }
}

/// The larger packed endpoint, written as BC1's `color0` so the block
/// always decodes in four-color mode.
pub open spec fn spec_bc1_color0(e: EndpointPair) -> u32 {
    if spec_rgb565(e.hi) >= spec_rgb565(e.lo) {
        spec_rgb565(e.hi)
    } else {
        spec_rgb565(e.lo)
    }
}

/// The smaller packed endpoint, written as BC1's `color1`.
pub open spec fn spec_bc1_color1(e: EndpointPair) -> u32 {
    if spec_rgb565(e.hi) >= spec_rgb565(e.lo) {
        spec_rgb565(e.lo)
    } else {
        spec_rgb565(e.hi)
    }
}

/// BC1's 32-bit selector field over the first `p + 1` pixels: two bits
/// per pixel in raster order.
pub open spec fn spec_bc1_sel_bits(e: EndpointPair, sel: u32, p: int) -> u32
    decreases p + 1,
{
    if p < 0 {
        0
    } else {
        spec_bc1_sel_bits(e, sel, p - 1) | (spec_bc1_index(e, spec_sel_level(sel, p)) << ((2
            * p) as u32))
    }
}

/// Byte `j` of a BC1 block: `color0` and `color1` as little-endian
/// RGB565 words, then four bytes of 2-bit indices, one row per byte.
pub open spec fn spec_bc1_unit_byte(e: EndpointPair, sel: u32, j: int) -> u8 {
    if j < 2 {
        ((spec_bc1_color0(e) >> ((8 * j) as u32)) & 0xff) as u8
    } else if j < 4 {
        ((spec_bc1_color1(e) >> ((8 * (j - 2)) as u32)) & 0xff) as u8
    } else {
        ((spec_bc1_sel_bits(e, sel, 15) >> ((8 * (j - 4)) as u32)) & 0xff) as u8
    }
}

/// The BC4 3-bit index for a selector level, kept among the six
/// interpolated entries so it reads the same way in both BC4 modes.
pub open spec fn spec_bc4_index(l: int) -> u64 {
    if l == 0 {
        1
    } else if l == 1 {
        5
    } else if l == 2 {
        3
    } else {
        0
    }
}

/// BC4's 48-bit index field over the first `p + 1` pixels: three bits
/// per pixel in raster order, little-endian.
pub open spec fn spec_bc4_sel_bits(sel: u32, p: int) -> u64
    decreases p + 1,
{
    if p < 0 {
        0
    } else {
        spec_bc4_sel_bits(sel, p - 1) | (spec_bc4_index(spec_sel_level(sel, p)) << ((3
            * p) as u64))
    }
}

/// Byte `j` of a BC4 block over one channel: the two extremes, then
/// six bytes of 3-bit indices.
pub open spec fn spec_bc4_unit_byte(lo_v: u8, hi_v: u8, sel: u32, j: int) -> u8 {
    if j == 0 {
        hi_v
    } else if j == 1 {
        lo_v
    } else {
        ((spec_bc4_sel_bits(sel, 15) >> ((8 * (j - 2)) as u64)) & 0xff) as u8
    }
}

/// The ETC1 pixel index for a selector level under modifier table 0,
/// whose entries are `+2, +8, -2, -8`.
pub open spec fn spec_etc1_idx(l: int) -> u32 {
    if l == 0 {
        3
    } else if l == 1 {
        2
    } else if l == 2 {
        0
    } else {
        1
    }
}

/// The most-significant index bits of an ETC1 block over the first
/// `p + 1` pixels, in ETC1's column-major pixel order.
pub open spec fn spec_etc1_msb_bits(sel: u32, p: int) -> u32
    decreases p + 1,
{
    if p < 0 {
        0
    } else {
        spec_etc1_msb_bits(sel, p - 1) | (((spec_etc1_idx(spec_sel_level_cm(sel, p)) >> 1)
            & 1) << (p as u32))
    }
}

/// The least-significant index bits of an ETC1 block.
pub open spec fn spec_etc1_lsb_bits(sel: u32, p: int) -> u32
    decreases p + 1,
{
    if p < 0 {
        0
    } else {
        spec_etc1_lsb_bits(sel, p - 1) | ((spec_etc1_idx(spec_sel_level_cm(sel, p)) & 1) << (
        p as u32))
    }
}

/// Byte `j` of an ETC1 block in individual mode with no flip: both
/// subblocks share the endpoint midpoint as a 4-bit base color, both
/// use modifier table 0, and the index planes follow in big-endian
/// order.
pub open spec fn spec_etc1_unit_byte(e: EndpointPair, sel: u32, j: int) -> u8 {
    let r4 = (((e.lo.r + e.hi.r) / 2) as u32) >> 4;
    let g4 = (((e.lo.g + e.hi.g) / 2) as u32) >> 4;
    let b4 = (((e.lo.b + e.hi.b) / 2) as u32) >> 4;
    if j == 0 {
        ((r4 << 4) | r4) as u8
    } else if j == 1 {
        ((g4 << 4) | g4) as u8
    } else if j == 2 {
        ((b4 << 4) | b4) as u8
    } else if j == 3 {
        0
    } else if j == 4 {
        ((spec_etc1_msb_bits(sel, 15) >> 8) & 0xff) as u8
    } else if j == 5 {
        (spec_etc1_msb_bits(sel, 15) & 0xff) as u8
    } else if j == 6 {
        ((spec_etc1_lsb_bits(sel, 15) >> 8) & 0xff) as u8
    } else {
        (spec_etc1_lsb_bits(sel, 15) & 0xff) as u8
    }
}

/// The EAC A8 3-bit index for a selector level under modifier table 0.
pub open spec fn spec_eac_index(l: int) -> u64 {
    if l == 0 {
        3
    } else if l == 1 {
        1
    } else if l == 2 {
        4
    } else {
        7
    }
}

/// EAC A8's 48-bit index field over the first `p + 1` pixels: three
/// bits per pixel, column-major, packed from the most significant end.
pub open spec fn spec_eac_sel_bits(sel: u32, p: int) -> u64
    decreases p + 1,
{
    if p < 0 {
        0
    } else {
        spec_eac_sel_bits(sel, p - 1) | (spec_eac_index(spec_sel_level_cm(sel, p)) << ((45 - 3
            * p) as u64))
    }
}

/// Byte `j` of an EAC A8 block: the base codeword at the endpoint
/// midpoint, multiplier one with table 0, then the index field in
/// big-endian order.
pub open spec fn spec_eac_unit_byte(lo_v: u8, hi_v: u8, sel: u32, j: int) -> u8 {
    if j == 0 {
        (((lo_v + hi_v) / 2) as u8)
    } else if j == 1 {
        0x10
    } else {
        ((spec_eac_sel_bits(sel, 15) >> ((8 * (7 - j)) as u64)) & 0xff) as u8
    }
}

/// The BC7 mode-6 4-bit index for a selector level; kept at 7 or
/// below so the anchor pixel needs no endpoint swap.
pub open spec fn spec_bc7_index(l: int) -> u128 {
    if l == 0 {
        0
    } else if l == 1 {
        2
    } else if l == 2 {
        5
    } else {
        7
    }
}

/// The bit offset of pixel `p`'s index in a BC7 mode-6 block: the
/// anchor index is three bits, the rest four.
pub open spec fn spec_bc7_index_offset(p: int) -> int {
    if p == 0 {
        65
    } else {
        64 + 4 * p
    }
}

/// BC7 mode 6's index field over the first `p + 1` pixels.
pub open spec fn spec_bc7_index_bits(sel: u32, p: int) -> u128
    decreases p + 1,
{
    if p < 0 {
        0
    } else {
        spec_bc7_index_bits(sel, p - 1) | (spec_bc7_index(spec_sel_level(sel, p))
            << (spec_bc7_index_offset(p) as u128))
    }
}

/// A BC7 mode-6 block as its 128-bit little-endian value: the mode
/// bit, 7-bit RGBA endpoint channels, zero P bits, and the index
/// field.
pub open spec fn spec_bc7_word(e: EndpointPair, a_lo: u8, a_hi: u8, sel: u32) -> u128 {
    (0x40u128) | (((e.lo.r >> 1) as u128) << 7) | (((e.hi.r >> 1) as u128) << 14) | (((e.lo.g
        >> 1) as u128) << 21) | (((e.hi.g >> 1) as u128) << 28) | (((e.lo.b >> 1) as u128)
        << 35) | (((e.hi.b >> 1) as u128) << 42) | (((a_lo >> 1) as u128) << 49) | (((a_hi
        >> 1) as u128) << 56) | spec_bc7_index_bits(sel, 15)
}

/// An ASTC 4x4 void-extent block as its 128-bit little-endian value:
/// the void-extent block mode, reserved bits set, all-ones extent
/// coordinates, and the constant color as four UNORM16 channels at
/// the endpoint midpoint.
pub open spec fn spec_astc_void_word(r: u8, g: u8, b: u8, a: u8) -> u128 {
    0x1FCu128 | (0x3u128 << 10) | (0xF_FFFF_FFFF_FFFFu128 << 12) | (((r * 257) as u128) << 64)
        | (((g * 257) as u128) << 80) | (((b * 257) as u128) << 96) | (((a * 257) as u128)
        << 112)
}

/// FXT1's 32-bit selector plane over the first `p + 1` output pixels
/// of the 8x4 block: pixel `(x, y) = (p % 8, p / 8)` takes the high
/// bit of the left source block's level at `(x % 4, y)`.
pub open spec fn spec_fxt1_sel_bits(sel: u32, p: int) -> u64
    decreases p + 1,
{
    if p < 0 {
        0
    } else {
        spec_fxt1_sel_bits(sel, p - 1) | ((if spec_sel_level(sel, (p / 8) * 4 + (p % 8) % 4)
            >= 2 {
            1u64
        } else {
            0u64
        }) << (p as u64))
    }
}

/// An FXT1 block as a 64-bit little-endian value: the selector plane,
/// then both endpoints as RGB555, with the opaque block mode. The
/// published FXT1 block spans 128 bits per 8x4 block; this engine's
/// format table, like its reference, budgets eight bytes per block,
/// so the block carries one selector plane and two colors.
pub open spec fn spec_fxt1_word(e: EndpointPair, sel: u32) -> u64 {
    spec_fxt1_sel_bits(sel, 31) | (spec_rgb555(e.lo) << 32) | (spec_rgb555(e.hi) << 47)
}

/// Byte `j` of a 64-bit little-endian value.
pub open spec fn spec_u64_byte(w: u64, j: int) -> u8 {
    ((w >> ((8 * j) as u64)) & 0xff) as u8
}

/// Byte `j` of a 128-bit little-endian value.
pub open spec fn spec_u128_byte(w: u128, j: int) -> u8 {
    ((w >> ((8 * j) as u128)) & 0xff) as u8
}

/// Byte `j` of the unit written for block `bi` of a slice in the
/// given block format: each format's own published layout, built
/// from the block's endpoints, selector word, and alpha source.
pub open spec fn spec_block_unit_byte(
    c: ContainerModel,
    sl: SliceDesc,
    alpha_sl: Option<SliceDesc>,
    bf: crate::formats::TranscoderBlockFormat,
    bi: int,
    j: int,
) -> u8 {
    let e = spec_block_endpoints(c, sl, bi);
    let sel = spec_block_sel(c, sl, bi);
    let a_lo = spec_alpha_lo(c, sl, alpha_sl, bi);
    let a_hi = spec_alpha_hi(c, sl, alpha_sl, bi);
    let a_sel = spec_alpha_sel(c, sl, alpha_sl, bi);
    if bf == crate::formats::TranscoderBlockFormat::ETC1 {
        spec_etc1_unit_byte(e, sel, j)
    } else if bf == crate::formats::TranscoderBlockFormat::BC1 {
        spec_bc1_unit_byte(e, sel, j)
    } else if bf == crate::formats::TranscoderBlockFormat::BC4 {
        spec_bc4_unit_byte(e.lo.r, e.hi.r, sel, j)
    } else if bf == crate::formats::TranscoderBlockFormat::ETC2_EAC_A8 {
        spec_eac_unit_byte(a_lo, a_hi, a_sel, j)
    } else if bf == crate::formats::TranscoderBlockFormat::FXT1_RGB {
        spec_u64_byte(spec_fxt1_word(e, sel), j)
    } else if bf == crate::formats::TranscoderBlockFormat::ETC2_RGBA {
        if j < 8 {
            spec_eac_unit_byte(a_lo, a_hi, a_sel, j)
        } else {
            spec_etc1_unit_byte(e, sel, j - 8)
        }
    } else if bf == crate::formats::TranscoderBlockFormat::BC3 {
        if j < 8 {
            spec_bc4_unit_byte(a_lo, a_hi, a_sel, j)
        } else {
            spec_bc1_unit_byte(e, sel, j - 8)
        }
    } else if bf == crate::formats::TranscoderBlockFormat::BC5 {
        if j < 8 {
            spec_bc4_unit_byte(e.lo.r, e.hi.r, sel, j)
        } else {
            spec_bc4_unit_byte(a_lo, a_hi, a_sel, j - 8)
        }
    } else if bf == crate::formats::TranscoderBlockFormat::BC7 {
        spec_u128_byte(spec_bc7_word(e, a_lo, a_hi, sel), j)
    } else if bf == crate::formats::TranscoderBlockFormat::ASTC_4x4 {
        spec_u128_byte(
            spec_astc_void_word(
                spec_mid(e.lo.r, e.hi.r),
                spec_mid(e.lo.g, e.hi.g),
                spec_mid(e.lo.b, e.hi.b),
                spec_mid(a_lo, a_hi),
            ),
            j,
        )
    } else {
        0
    }
}

/// Byte `k` of the output of a compressed target over a block grid
/// `bw` blocks wide, in the given block format. The source block of
/// grid position `(gx, gy)` sits at column `sx` of the slice's own
/// grid: the same column for 4-wide blocks, the doubled and clamped
/// column for FXT1's 8-wide blocks.
pub open spec fn spec_compressed_byte(
    c: ContainerModel,
    sl: SliceDesc,
    alpha_sl: Option<SliceDesc>,
    bf: crate::formats::TranscoderBlockFormat,
    bw: int,
    k: int,
) -> u8 {
    let bpb = bf.spec_bytes_per_block_or_pixel() as int;
    let gi = k / bpb;
    let j = k % bpb;
    let gx = gi % bw;
    let gy = gi / bw;
    let sx = if bf == crate::formats::TranscoderBlockFormat::FXT1_RGB {
        vstd::math::min(2 * gx, sl.num_blocks_x - 1)
    } else {
        gx
    };
    let bi = gy * sl.num_blocks_x + sx;
    spec_block_unit_byte(c, sl, alpha_sl, bf, bi, j)
}

/// The row pitch an uncompressed transcode uses: the override when it
/// is present and nonzero, the original width otherwise.
pub open spec fn spec_out_pitch(sl: SliceDesc, pitch_ov: Option<u32>) -> int {
    match pitch_ov {
        Some(p) => if p == 0 {
            sl.orig_width as int
        } else {
            p as int
        },
        None => sl.orig_width as int,
    }
}

/// The row count an uncompressed transcode uses: the override when it
/// is present and nonzero, the original height otherwise.
pub open spec fn spec_out_rows(sl: SliceDesc, rows_ov: Option<u32>) -> int {
    match rows_ov {
        Some(r) => if r == 0 {
            sl.orig_height as int
        } else {
            r as int
        },
        None => sl.orig_height as int,
    }
}

/// The block-grid width of the output of a compressed target.
pub open spec fn spec_out_grid_w(fxt1: bool, sl: SliceDesc) -> int {
    if fxt1 {
        (sl.orig_width + 7) / 8
    } else {
        sl.num_blocks_x as int
    }
}

/// The block-grid height of the output of a compressed target.
pub open spec fn spec_out_grid_h(fxt1: bool, sl: SliceDesc) -> int {
    if fxt1 {
        (sl.orig_height + 3) / 4
    } else {
        sl.num_blocks_y as int
    }
}

/// The complete output byte sequence of one transcode.
pub open spec fn spec_transcode_output(
    c: ContainerModel,
    fmt: TranscoderTextureFormat,
    sl: SliceDesc,
    alpha_sl: Option<SliceDesc>,
    pitch_ov: Option<u32>,
    rows_ov: Option<u32>,
) -> Seq<u8> {
    if !fmt.spec_is_compressed() {
        let pitch = spec_out_pitch(sl, pitch_ov);
        let rows = spec_out_rows(sl, rows_ov);
        let bpp = fmt.spec_bytes_per_block_or_pixel() as int;
        Seq::new(
            (rows * pitch * bpp) as nat,
            |k: int| spec_uncompressed_byte(c, fmt, sl, alpha_sl, pitch, rows, k),
        )
    } else {
        let bf = fmt.spec_block_format();
        let fxt1 = bf == crate::formats::TranscoderBlockFormat::FXT1_RGB;
        let bw = spec_out_grid_w(fxt1, sl);
        let bh = spec_out_grid_h(fxt1, sl);
        let bpb = bf.spec_bytes_per_block_or_pixel() as int;
        Seq::new(
            (bw * bh * bpb) as nat,
            |k: int| spec_compressed_byte(c, sl, alpha_sl, bf, bw, k),
        )
    }
}

/// What a whole transcode call yields for given container bytes,
/// target format, image and level indices, decode flag bits, and
/// output overrides, when the transcoder's prepared state is
/// `prepared`.
///
/// An unsupported target is rejected before the data is looked at.
/// Unparseable data and a missing (image, level) both report that the
/// level was not found. A call before [`crate::Transcoder::prepare_transcoding`]
/// fails the transcode itself; the remaining cases are
/// [`spec_transcode_from`].
pub open spec fn spec_transcode_result(
    prepared: bool,
    d: Seq<u8>,
    fmt: TranscoderTextureFormat,
    image_index: u32,
    level_index: u32,
    flag_bits: u32,
    pitch_ov: Option<u32>,
    rows_ov: Option<u32>,
) -> Result<Seq<u8>, TranscodeError> {
    if !fmt.spec_supported() {
        Err(TranscodeError::TranscodeFormatNotSupported)
    } else {
        match crate::container::spec_parse(d) {
            None => Err(TranscodeError::ImageLevelNotFound),
            Some(c) => match spec_find_slice(c.slices, image_index, level_index, false) {
                None => Err(TranscodeError::ImageLevelNotFound),
                Some(si) => {
                    if !prepared {
                        Err(TranscodeError::TranscodeFailed)
                    } else {
                        spec_transcode_from(
                            c,
                            si,
                            fmt,
                            image_index,
                            level_index,
                            flag_bits,
                            pitch_ov,
                            rows_ov,
                        )
                    }
                },
            },
        }
    }
}

/// The transcode of the color slice at index `si`, once the container
/// is parsed and the transcoder prepared. The alpha-redirect flag may
/// substitute the paired alpha slice as the color source; a paired
/// alpha slice is used only when its block grid matches and its
/// dimensions cover the color slice. An uncompressed output size
/// beyond [`u32::MAX`] bytes, and an ETC1S slice with out-of-range
/// codebook references, fail the transcode.
pub open spec fn spec_transcode_from(
    c: ContainerModel,
    si: int,
    fmt: TranscoderTextureFormat,
    image_index: u32,
    level_index: u32,
    flag_bits: u32,
    pitch_ov: Option<u32>,
    rows_ov: Option<u32>,
) -> Result<Seq<u8>, TranscodeError> {
    let sl = c.slices[si];
    let alpha_sl = match spec_find_slice(c.slices, image_index, level_index, true) {
        Some(ai) => Some(c.slices[ai]),
        None => None,
    };
    let redirect = spec_flag_set(flag_bits, DECODE_FLAGS_TRANSCODE_ALPHA_DATA_TO_OPAQUE_FORMATS)
        && !fmt.spec_has_alpha() && alpha_sl is Some;
    let color_sl = if redirect {
        alpha_sl.unwrap()
    } else {
        sl
    };
    let used_alpha_sl = if redirect || !fmt.spec_has_alpha() {
        None
    } else if alpha_sl matches Some(asl) && asl.num_blocks_x == color_sl.num_blocks_x
        && asl.num_blocks_y == color_sl.num_blocks_y && asl.orig_width >= color_sl.orig_width
        && asl.orig_height >= color_sl.orig_height {
        alpha_sl
    } else {
        None
    };
    if !fmt.spec_is_compressed() && spec_out_pitch(color_sl, pitch_ov) * spec_out_rows(
        color_sl,
        rows_ov,
    ) * (fmt.spec_bytes_per_block_or_pixel() as int) > u32::MAX {
        Err(TranscodeError::TranscodeFailed)
    } else if c.tex_format == BasisTextureFormat::ETC1S && !(spec_etc1s_refs_ok(c, color_sl) && (
    used_alpha_sl matches Some(asl) ==> spec_etc1s_refs_ok(c, asl))) {
        Err(TranscodeError::TranscodeFailed)
    } else {
        Ok(spec_transcode_output(c, fmt, color_sl, used_alpha_sl, pitch_ov, rows_ov))
    }
}

/// Whether every bit of `flag` is set in `bits`.
pub open spec fn spec_flag_set(bits: u32, flag: u32) -> bool {
    bits & flag == flag
}

/// One halving step of a mip dimension, with a floor of one pixel.
pub open spec fn spec_half(a: int) -> int {
    if a <= 1 {
        1
    } else {
        a / 2
    }
}

/// The dimension of mip level `l` for a level-0 dimension `w`.
pub open spec fn spec_level_dim(w: int, l: int) -> int
    decreases l,
{
    if l <= 0 {
        w
    } else {
        spec_half(spec_level_dim(w, l - 1))
    }
}

/// The number of mip levels generated for a `w` by `h` image with the
/// given smallest-dimension floor: levels are added while the larger
/// dimension still exceeds both one pixel and the floor.
pub open spec fn spec_mip_count(w: int, h: int, floor: int) -> int
    decreases (if w > h { w } else { h }),
{
    if w <= 0 || h <= 0 {
        0
    } else if (w <= 1 && h <= 1) || (if w > h { w } else { h }) <= floor {
        1
    } else {
        1 + spec_mip_count(spec_half(w), spec_half(h), floor)
    }
}

/// The number of mip levels the compressor emits per image: one when
/// mipmap generation is off, the full chain above the configured floor
/// otherwise.
pub open spec fn spec_levels(p: CompressorParams, w: int, h: int) -> int {
    if p.generate_mipmaps {
        spec_mip_count(
            w,
            h,
            if p.mip_smallest_dimension >= 1 {
                p.mip_smallest_dimension as int
            } else {
                1
            },
        )
    } else {
        1
    }
}

/// Whether any source image carries an alpha channel.
pub open spec fn spec_any_alpha(p: CompressorParams) -> bool {
    exists|i: int|
        0 <= i < p.source_images@.len() && (#[trigger] p.source_images@[i]).has_alpha_channel
}

/// Whether the compressor emits an alpha slice for image `i`: only in
/// the ETC1S sub-format, and only for images that carry alpha.
pub open spec fn spec_image_emits_alpha(p: CompressorParams, i: int) -> bool {
    p.basis_format == BasisTextureFormat::ETC1S && p.source_images@[i].has_alpha_channel
}

/// The number of payload words one level of one image occupies.
pub open spec fn spec_level_payload_words(p: CompressorParams, i: int, l: int) -> int {
    let w = spec_level_dim(p.source_images@[i].width as int, l);
    let h = spec_level_dim(p.source_images@[i].height as int, l);
    let blocks = ((w + 3) / 4) * ((h + 3) / 4);
    let unit = crate::container::spec_unit_words(p.basis_format);
    if spec_image_emits_alpha(p, i) {
        2 * blocks * unit
    } else {
        blocks * unit
    }
}

/// The number of slices one image contributes.
pub open spec fn spec_image_slices(p: CompressorParams, i: int) -> int {
    if spec_image_emits_alpha(p, i) {
        2 * spec_levels(p, p.source_images@[i].width as int, p.source_images@[i].height as int)
    } else {
        spec_levels(p, p.source_images@[i].width as int, p.source_images@[i].height as int)
    }
}

/// The payload words one image contributes: the sum over its levels.
pub open spec fn spec_image_payload_words(p: CompressorParams, i: int, levels: int) -> int
    decreases levels,
{
    if levels <= 0 {
        0
    } else {
        spec_image_payload_words(p, i, levels - 1) + spec_level_payload_words(p, i, levels - 1)
    }
}

/// The total number of slices of the first `n` images.
pub open spec fn spec_total_slices(p: CompressorParams, n: int) -> int
    decreases n,
{
    if n <= 0 {
        0
    } else {
        spec_total_slices(p, n - 1) + spec_image_slices(p, n - 1)
    }
}

/// The total payload words of the first `n` images.
pub open spec fn spec_total_payload_words(p: CompressorParams, n: int) -> int
    decreases n,
{
    if n <= 0 {
        0
    } else {
        spec_total_payload_words(p, n - 1) + spec_image_payload_words(
            p,
            n - 1,
            spec_levels(
                p,
                p.source_images@[n - 1].width as int,
                p.source_images@[n - 1].height as int,
            ),
        )
    }
}

/// The slice directory facts for one (image, level) pair of an
/// emitted container: the color slice is found and carries the level's
/// dimensions and the image's opacity, and an alpha slice is present
/// exactly when the compressor emits one for the image.
pub open spec fn spec_pair_ok(
    p: CompressorParams,
    slices: Seq<crate::container::SliceDesc>,
    i: int,
    l: int,
) -> bool {
    let w = spec_level_dim(p.source_images@[i].width as int, l);
    let h = spec_level_dim(p.source_images@[i].height as int, l);
    &&& spec_find_slice(slices, i as u32, l as u32, false) matches Some(si) && 0 <= si
        < slices.len() && slices[si].orig_width == w && slices[si].orig_height == h
        && slices[si].is_opaque == !p.source_images@[i].has_alpha_channel
    &&& (spec_find_slice(slices, i as u32, l as u32, true) is Some) == spec_image_emits_alpha(
        p,
        i,
    )
}

/// What the compressor guarantees about the container it emits for a
/// parameter set: the header carries the chosen sub-format, user data
/// and image count; every (image, level) pair of the mip chains
/// satisfies [`spec_pair_ok`]; each image's level count is its mip
/// chain length; and ETC1S blocks reference only existing codebook
/// entries.
pub open spec fn spec_encode_ok(p: CompressorParams, c: ContainerModel) -> bool {
    &&& c.tex_format == p.basis_format
    &&& c.tex_type == crate::formats::BasisTextureType::TextureType2D
    &&& c.userdata0 == p.userdata.userdata0
    &&& c.userdata1 == p.userdata.userdata1
    &&& c.total_images == p.source_images@.len()
    &&& c.has_alpha == spec_any_alpha(p)
    &&& forall|i: int, l: int|
        0 <= i < p.source_images@.len() && 0 <= l < spec_levels(
            p,
            p.source_images@[i].width as int,
            p.source_images@[i].height as int,
        ) ==> #[trigger] spec_pair_ok(p, c.slices, i, l)
    &&& forall|i: int|
        0 <= i < p.source_images@.len() ==> #[trigger] spec_level_count(c.slices, i as u32)
            == spec_levels(
            p,
            p.source_images@[i].width as int,
            p.source_images@[i].height as int,
        )
    &&& c.tex_format == BasisTextureFormat::ETC1S ==> forall|si: int|
        0 <= si < c.slices.len() ==> spec_etc1s_refs_ok(c, #[trigger] c.slices[si])
}

/// Whether every word of an ETC1S payload references existing codebook
/// entries: the low half is an endpoint index below `ne`, the high
/// half a selector index below `ns`.
pub open spec fn spec_payload_refs_ok(payload: Seq<u32>, ne: int, ns: int) -> bool {
    forall|k: int|
        0 <= k < payload.len() ==> ((#[trigger] payload[k]) & 0xffff) < ne && (payload[k] >> 16)
            < ns
}

/// The halves of a packed ETC1S block word are its two indices.
pub proof fn lemma_etc1s_word_fields(e: u16, s: u16)
    ensures
        ((e as u32) | ((s as u32) << 16)) & 0xffff == e,
        ((e as u32) | ((s as u32) << 16)) >> 16 == s,
{
    assert(((e as u32) | ((s as u32) << 16)) & 0xffff == e && ((e as u32) | ((s as u32) << 16))
        >> 16 == s) by (bit_vector);
}

/// What the low-level slice path yields: given one raw UASTC slice and
/// explicit geometry, the compressed-target output over that slice, or
/// a failure when the block format is not a compressed one, the
/// geometry is inconsistent, or the data is not exactly the slice's
/// blocks.
pub open spec fn spec_transcode_slice_result(
    d: Seq<u8>,
    num_blocks_x: u32,
    num_blocks_y: u32,
    original_width: u32,
    original_height: u32,
    block_fmt: crate::formats::TranscoderBlockFormat,
) -> Result<Seq<u8>, TranscodeError> {
    if !block_fmt.spec_is_compressed() || !block_fmt.spec_supported() {
        Err(TranscodeError::TranscodeFailed)
    } else if !(1 <= original_width <= crate::TEXTURE_DIMENSION_MAX && 1 <= original_height
        <= crate::TEXTURE_DIMENSION_MAX && num_blocks_x == (original_width + 3) / 4
        && num_blocks_y == (original_height + 3) / 4) {
        Err(TranscodeError::TranscodeFailed)
    } else if d.len() % 4 != 0 || spec_bytes_to_words(d).len() != 4 * num_blocks_x
        * num_blocks_y {
        Err(TranscodeError::TranscodeFailed)
    } else {
        let c = spec_uastc_slice_container(spec_bytes_to_words(d));
        let sl = spec_uastc_slice_desc(
            num_blocks_x,
            num_blocks_y,
            original_width,
            original_height,
        );
        let fxt1 = block_fmt == crate::formats::TranscoderBlockFormat::FXT1_RGB;
        let bpb = block_fmt.spec_bytes_per_block_or_pixel() as int;
        let bw = spec_out_grid_w(fxt1, sl);
        let bh = spec_out_grid_h(fxt1, sl);
        Ok(
            Seq::new(
                (bw * bh * bpb) as nat,
                |k: int| spec_compressed_byte(c, sl, None, block_fmt, bw, k),
            ),
        )
    }
}

/// The container model the slice path works in: a bare UASTC payload
/// with no codebooks and no directory beyond the one implied slice.
pub open spec fn spec_uastc_slice_container(payload: Seq<u32>) -> ContainerModel {
    ContainerModel {
        tex_format: BasisTextureFormat::UASTC4x4,
        tex_type: crate::formats::BasisTextureType::TextureType2D,
        userdata0: 0,
        userdata1: 0,
        total_images: 1,
        has_alpha: false,
        endpoints: Seq::empty(),
        selectors: Seq::empty(),
        slices: Seq::empty(),
        payload,
    }
}

/// The slice descriptor the slice path works on.
pub open spec fn spec_uastc_slice_desc(
    num_blocks_x: u32,
    num_blocks_y: u32,
    original_width: u32,
    original_height: u32,
) -> SliceDesc {
    SliceDesc {
        image_index: 0,
        level_index: 0,
        orig_width: original_width,
        orig_height: original_height,
        num_blocks_x,
        num_blocks_y,
        payload_offset: 0,
        payload_len: (4 * num_blocks_x * num_blocks_y) as u32,
        is_alpha: false,
        is_opaque: false,
    }
}

/// Mip dimensions stay between one pixel and the level-0 dimension.
pub proof fn lemma_level_dim_bounds(w: int, l: int)
    requires
        w >= 1,
        l >= 0,
    ensures
        1 <= spec_level_dim(w, l) <= w,
    decreases l,
{
    if l > 0 {
        lemma_level_dim_bounds(w, l - 1);
    }
}

/// A mip chain has at least one level and no more levels than the
/// larger level-0 dimension.
pub proof fn lemma_mip_count_bounds(w: int, h: int, floor: int)
    requires
        w >= 1,
        h >= 1,
    ensures
        1 <= spec_mip_count(w, h, floor) <= (if w > h { w } else { h }),
    decreases (if w > h { w } else { h }),
{
    if (w <= 1 && h <= 1) || (if w > h { w } else { h }) <= floor {
    } else {
        lemma_mip_count_bounds(spec_half(w), spec_half(h), floor);
    }
}

/// A level's payload size is never negative.
pub proof fn lemma_level_payload_nonneg(p: CompressorParams, i: int, l: int)
    requires
        0 <= i < p.source_images@.len(),
        p.source_images@[i].width >= 1,
        p.source_images@[i].height >= 1,
        l >= 0,
    ensures
        spec_level_payload_words(p, i, l) >= 0,
{
    lemma_level_dim_bounds(p.source_images@[i].width as int, l);
    lemma_level_dim_bounds(p.source_images@[i].height as int, l);
    let w = spec_level_dim(p.source_images@[i].width as int, l);
    let h = spec_level_dim(p.source_images@[i].height as int, l);
    vstd::arithmetic::mul::lemma_mul_nonnegative((w + 3) / 4, (h + 3) / 4);
    vstd::arithmetic::mul::lemma_mul_nonnegative(
        ((w + 3) / 4) * ((h + 3) / 4),
        crate::container::spec_unit_words(p.basis_format),
    );
}

/// An image's payload size grows with the number of levels taken.
pub proof fn lemma_image_payload_mono(p: CompressorParams, i: int, l1: int, l2: int)
    requires
        0 <= i < p.source_images@.len(),
        p.source_images@[i].width >= 1,
        p.source_images@[i].height >= 1,
        0 <= l1 <= l2,
    ensures
        spec_image_payload_words(p, i, l1) <= spec_image_payload_words(p, i, l2),
    decreases l2,
{
    if l2 > l1 {
        lemma_image_payload_mono(p, i, l1, l2 - 1);
        lemma_level_payload_nonneg(p, i, l2 - 1);
    }
}

/// The total payload size grows with the number of images taken.
pub proof fn lemma_total_payload_mono(p: CompressorParams, i1: int, i2: int)
    requires
        forall|j: int|
            0 <= j < p.source_images@.len() ==> 1 <= (#[trigger] p.source_images@[j]).width
                <= crate::IMAGE_DIMENSION_MAX && 1 <= p.source_images@[j].height
                <= crate::IMAGE_DIMENSION_MAX,
        0 <= i1 <= i2 <= p.source_images@.len(),
    ensures
        spec_total_payload_words(p, i1) <= spec_total_payload_words(p, i2),
    decreases i2,
{
    if i2 > i1 {
        lemma_total_payload_mono(p, i1, i2 - 1);
        lemma_mip_count_bounds_levels(p, i2 - 1);
        lemma_image_payload_mono(
            p,
            i2 - 1,
            0,
            spec_levels(
                p,
                p.source_images@[i2 - 1].width as int,
                p.source_images@[i2 - 1].height as int,
            ),
        );
    }
}

/// The level count of an image is never negative.
pub proof fn lemma_mip_count_bounds_levels(p: CompressorParams, i: int)
    requires
        0 <= i < p.source_images@.len(),
        1 <= p.source_images@[i].width <= crate::IMAGE_DIMENSION_MAX,
        1 <= p.source_images@[i].height <= crate::IMAGE_DIMENSION_MAX,
    ensures
        1 <= spec_levels(
            p,
            p.source_images@[i].width as int,
            p.source_images@[i].height as int,
        ) <= crate::IMAGE_DIMENSION_MAX,
{
    if p.generate_mipmaps {
        lemma_mip_count_bounds(
            p.source_images@[i].width as int,
            p.source_images@[i].height as int,
            if p.mip_smallest_dimension >= 1 {
                p.mip_smallest_dimension as int
            } else {
                1int
            },
        );
        lemma_level_dim_bounds(p.source_images@[i].width as int, 0);
    }
}

/// The round trip: a container the compressor emits for a parameter
/// set, transcoded to 32-bit RGBA at any of its (image, level) pairs
/// by a prepared transcoder, succeeds and yields exactly
/// `width * height * 4` bytes for that level's dimensions; and when
/// the source image has no alpha channel, every alpha byte of the
/// output is fully opaque.
#[verifier::rlimit(100)]
#[verifier::spinoff_prover]
pub proof fn lemma_round_trip(
    p: CompressorParams,
    d: Seq<u8>,
    cm: ContainerModel,
    image_index: u32,
    level_index: u32,
)
    requires
        crate::container::spec_parse(d) == Some(cm),
        cm.wf(),
        spec_encode_ok(p, cm),
        image_index < p.source_images@.len(),
        level_index < spec_levels(
            p,
            p.source_images@[image_index as int].width as int,
            p.source_images@[image_index as int].height as int,
        ),
    ensures
        ({
            let r = spec_transcode_result(
                true,
                d,
                TranscoderTextureFormat::RGBA32,
                image_index,
                level_index,
                0,
                None,
                None,
            );
            let w = spec_level_dim(
                p.source_images@[image_index as int].width as int,
                level_index as int,
            );
            let h = spec_level_dim(
                p.source_images@[image_index as int].height as int,
                level_index as int,
            );
            &&& r matches Ok(out)
            &&& r.unwrap().len() == w * h * 4
            &&& !p.source_images@[image_index as int].has_alpha_channel ==> forall|px: int|
                0 <= px < w * h ==> #[trigger] r.unwrap()[4 * px + 3] == 255
        }),
{
    let fmt = TranscoderTextureFormat::RGBA32;
    let ii = image_index as int;
    let ll = level_index as int;
    let w = spec_level_dim(p.source_images@[ii].width as int, ll);
    let h = spec_level_dim(p.source_images@[ii].height as int, ll);
    assert(spec_pair_ok(p, cm.slices, ii, ll));
    let si = spec_find_slice(cm.slices, image_index, level_index, false).unwrap();
    crate::container::lemma_find_slice_char(cm.slices, image_index, level_index, false);
    let sl = cm.slices[si];
    assert(crate::container::spec_slice_ok(
        cm.slices[si],
        cm.tex_format,
        cm.total_images,
        cm.payload.len() as int,
    ));
    assert(sl.orig_width == w && sl.orig_height == h);
    assert(1 <= w <= crate::TEXTURE_DIMENSION_MAX && 1 <= h <= crate::TEXTURE_DIMENSION_MAX);

    // no redirect: the call passes no decode flags
    assert(!spec_flag_set(0, DECODE_FLAGS_TRANSCODE_ALPHA_DATA_TO_OPAQUE_FORMATS)) by (bit_vector);

    // the output size fits
    assert(spec_out_pitch(sl, None) == w && spec_out_rows(sl, None) == h);
    vstd::arithmetic::mul::lemma_mul_upper_bound(w, 16384, h, 16384);
    vstd::arithmetic::mul::lemma_mul_nonnegative(w, h);
    assert(w * h * 4 <= u32::MAX);

    // codebook references are in range for the slices that are read
    let alpha_find = spec_find_slice(cm.slices, image_index, level_index, true);
    if cm.tex_format == BasisTextureFormat::ETC1S {
        assert(spec_etc1s_refs_ok(cm, cm.slices[si]));
        match alpha_find {
            Some(ai) => {
                crate::container::lemma_find_slice_char(
                    cm.slices,
                    image_index,
                    level_index,
                    true,
                );
                assert(spec_etc1s_refs_ok(cm, cm.slices[ai]));
            },
            None => {},
        }
    }
    let r = spec_transcode_result(true, d, fmt, image_index, level_index, 0, None, None);
    assert(r is Ok);
    let out = r.unwrap();
    assert(out.len() == h * w * 4);
    vstd::arithmetic::mul::lemma_mul_is_commutative(w, h);

    // the opacity of the alpha channel for sources without alpha
    if !p.source_images@[ii].has_alpha_channel {
        assert(!spec_image_emits_alpha(p, ii));
        assert(alpha_find is None);
        assert(sl.is_opaque);
        assert forall|px: int| 0 <= px < w * h implies #[trigger] out[4 * px + 3] == 255 by {
            let k = 4 * px + 3;
            assert(k / 4 == px && k % 4 == 3);
            assert(0 <= px / w < h && 0 <= px % w < w) by (nonlinear_arith)
                requires
                    0 <= px < w * h,
                    w >= 1,
            ;
            assert(out[k] == spec_uncompressed_byte(cm, fmt, sl, None, w, h, k));
        }
    }
}

} // verus!
