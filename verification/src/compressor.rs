//! The compressor engine: turns the source images of a parameter set
//! into a serialized container.
//!
//! The pipeline crops each image to its addressed pixels, generates a
//! mip chain when asked to, partitions each level into 4x4 blocks, and
//! encodes each block as an endpoint pair and a selector word: shared
//! through the codebooks for ETC1S, stored directly for UASTC. Work is
//! assigned to blocks in image and level order, so the slice layout is
//! deterministic and independent of scheduling; this engine runs the
//! work on the calling thread whatever worker count it was built with.
use vstd::prelude::*;
use crate::container::BasisContainer;
use crate::container::SliceDesc;
use crate::container::EndpointPair;
use crate::container::write_container;
use crate::container::pack_color;
use crate::container::spec_parse;
use crate::container::spec_find_slice;
use crate::container::spec_level_count;
use crate::container::lemma_find_slice_append;
use crate::container::lemma_find_slice_append_none;
use crate::container::lemma_find_in_sorted;
use crate::container::lemma_level_count_push;
use crate::container::lemma_parse_ser;
use crate::container::lemma_ser_words_valid;
use crate::container::lemma_words_bytes_roundtrip;
use crate::container::SLICE_COUNT_MAX;
use crate::container::PAYLOAD_WORDS_MAX;
use crate::container::ENDPOINT_COUNT_MAX;
use crate::container::SELECTOR_COUNT_MAX;
use crate::codec::spec_levels;
use crate::codec::spec_level_dim;
use crate::codec::spec_half;
use crate::codec::spec_mip_count;
use crate::codec::spec_any_alpha;
use crate::codec::spec_image_emits_alpha;
use crate::codec::spec_image_slices;
use crate::codec::spec_image_payload_words;
use crate::codec::spec_level_payload_words;
use crate::codec::spec_total_slices;
use crate::codec::spec_total_payload_words;
use crate::codec::spec_payload_refs_ok;
use crate::codec::spec_pair_ok;
use crate::codec::spec_encode_ok;
use crate::codec::lemma_level_dim_bounds;
use crate::codec::lemma_mip_count_bounds;
use crate::codec::lemma_etc1s_word_fields;
use crate::formats::BasisTextureFormat;
use crate::formats::BasisTextureType;
use crate::formats::mul_u32_wide;
use crate::image::ColorU8;
use crate::image::CompressorImageRef;
use crate::image::lemma_row_major_index;
use crate::params::CompressorParams;

verus! {

/// Error codes returned when compression fails. Each pipeline stage
/// has its own code; in this engine the UASTC encode, ETC1S front end,
/// extraction, backend, output and RDO stages cannot fail, so their
/// codes are kept for callers but never returned.
#[allow(non_camel_case_types)]
#[derive(Copy, Clone, Debug, PartialEq, Eq, Structural)]
pub enum CompressorErrorCode {
    /// A source image is unreadable: it has a zero dimension.
    cECFailedReadingSourceImages,
    /// The parameters fail validation: no source image is present.
    cECFailedValidating,
    /// The UASTC block encoder failed; not reachable in this engine.
    cECFailedEncodeUASTC,
    /// The ETC1S front end failed; not reachable in this engine.
    cECFailedFrontEnd,
    /// Extracting slices from the front end failed; not reachable in
    /// this engine.
    cECFailedFontendExtract,
    /// The backend failed; not reachable in this engine.
    cECFailedBackend,
    /// The result does not fit the container format: the slice
    /// directory or the payload would exceed its limits.
    cECFailedCreateBasisFile,
    /// Writing the output failed; not reachable in this engine.
    cECFailedWritingOutput,
    /// The UASTC RDO post-process failed; not reachable in this
    /// engine, whose RDO pass is the identity baseline.
    cECFailedUASTCRDOPostProcess,
}

/// The error a compression of the parameter set `p` reports, if any:
/// no source images fail validation; a degenerate image cannot be
/// read; and a result beyond the container's limits cannot be
/// serialized.
pub open spec fn spec_process_err(p: CompressorParams) -> Option<CompressorErrorCode> {
    if p.source_images@.len() == 0 {
        Some(CompressorErrorCode::cECFailedValidating)
    } else if !(forall|i: int|
        0 <= i < p.source_images@.len() ==> (#[trigger] p.source_images@[i]).width >= 1
            && p.source_images@[i].height >= 1) {
        Some(CompressorErrorCode::cECFailedReadingSourceImages)
    } else if spec_total_slices(p, p.source_images@.len() as int) > SLICE_COUNT_MAX
        || spec_total_payload_words(p, p.source_images@.len() as int) > PAYLOAD_WORDS_MAX {
        Some(CompressorErrorCode::cECFailedCreateBasisFile)
    } else {
        None
    }
}

/// Whether any source image carries an alpha channel.
fn any_alpha_scan(p: &CompressorParams) -> (r: bool)
    ensures
        r == spec_any_alpha(*p),
{
    let n = p.source_images.len();
    let mut i: usize = 0;
    while i < n
        invariant
            n == p.source_images@.len(),
            i <= n,
            forall|j: int|
                0 <= j < i ==> !(#[trigger] p.source_images@[j]).has_alpha_channel,
        decreases n - i,
    {
        if p.source_images[i].has_alpha_channel {
            return true;
        }
        i = i + 1;
    }
    false
}

/// The number of mip levels for a level-0 size of `w` by `h` with the
/// given smallest-dimension floor.
fn mip_count_exec(w: u32, h: u32, floor: u32) -> (r: u32)
    requires
        1 <= w <= crate::IMAGE_DIMENSION_MAX,
        1 <= h <= crate::IMAGE_DIMENSION_MAX,
        floor >= 1,
    ensures
        r == spec_mip_count(w as int, h as int, floor as int),
        1 <= r <= crate::IMAGE_DIMENSION_MAX,
{
    proof {
        lemma_mip_count_bounds(w as int, h as int, floor as int);
    }
    let mut cw = w;
    let mut ch = h;
    let mut count: u32 = 1;
    let mut mx: u32 = if cw > ch {
        cw
    } else {
        ch
    };
    while (cw > 1 || ch > 1) && mx > floor
        invariant
            mx == (if cw > ch {
                cw as int
            } else {
                ch as int
            }),
            1 <= cw <= crate::IMAGE_DIMENSION_MAX,
            1 <= ch <= crate::IMAGE_DIMENSION_MAX,
            count >= 1,
            count + spec_mip_count(cw as int, ch as int, floor as int) - 1 == spec_mip_count(
                w as int,
                h as int,
                floor as int,
            ),
            spec_mip_count(w as int, h as int, floor as int) <= crate::IMAGE_DIMENSION_MAX,
            floor >= 1,
        decreases cw + ch,
    {
        proof {
            lemma_mip_count_bounds(spec_half(cw as int), spec_half(ch as int), floor as int);
        }
        cw = if cw > 1 {
            cw / 2
        } else {
            1
        };
        ch = if ch > 1 {
            ch / 2
        } else {
            1
        };
        count = count + 1;
        mx = if cw > ch {
            cw
        } else {
            ch
        };
    }
    count
}

/// The addressed pixels of a source image: width by height, row-major,
/// without the pitch padding.
fn crop_image(img: &CompressorImageRef) -> (r: Vec<ColorU8>)
    requires
        img.wf(),
        img.width >= 1,
        img.height >= 1,
    ensures
        r@.len() == img.width * img.height,
{
    let w = img.width;
    let h = img.height;
    let mut out: Vec<ColorU8> = Vec::new();
    let mut y: u32 = 0;
    while y < h
        invariant
            img.wf(),
            w == img.width,
            h == img.height,
            1 <= w,
            y <= h,
            out@.len() == y * w,
        decreases h - y,
    {
        let mut x: u32 = 0;
        while x < w
            invariant
                img.wf(),
                w == img.width,
                h == img.height,
                y < h,
                x <= w,
                out@.len() == y * w + x,
            decreases w - x,
        {
            proof {
                lemma_row_major_index(x as int, y as int, img.pitch as int, img.height as int);
                vstd::arithmetic::mul::lemma_mul_upper_bound(
                    img.pitch as int,
                    crate::IMAGE_DIMENSION_MAX as int,
                    img.height as int,
                    crate::IMAGE_DIMENSION_MAX as int,
                );
            }
            let idx = (y as usize) * (img.pitch as usize) + (x as usize);
            out.push(img.pixels[idx]);
            x = x + 1;
            proof {
                vstd::arithmetic::mul::lemma_mul_upper_bound(
                    y as int,
                    crate::IMAGE_DIMENSION_MAX as int,
                    w as int,
                    crate::IMAGE_DIMENSION_MAX as int,
                );
            }
        }
        y = y + 1;
        proof {
            assert((y - 1) * w + w == y * w) by (nonlinear_arith);
        }
    }
    proof {
        vstd::arithmetic::mul::lemma_mul_is_commutative(h as int, w as int);
    }
    out
}

/// One box-filter halving step of a mip level: each output pixel is
/// the rounded average of up to four source pixels, clamped at the
/// edges.
fn halve_level(cur: &Vec<ColorU8>, lw: u32, lh: u32) -> (r: Vec<ColorU8>)
    requires
        cur@.len() == lw * lh,
        1 <= lw <= crate::IMAGE_DIMENSION_MAX,
        1 <= lh <= crate::IMAGE_DIMENSION_MAX,
    ensures
        r@.len() == spec_half(lw as int) * spec_half(lh as int),
{
    let nw: u32 = if lw > 1 {
        lw / 2
    } else {
        1
    };
    let nh: u32 = if lh > 1 {
        lh / 2
    } else {
        1
    };
    let mut out: Vec<ColorU8> = Vec::new();
    let mut y: u32 = 0;
    while y < nh
        invariant
            cur@.len() == lw * lh,
            1 <= lw <= crate::IMAGE_DIMENSION_MAX,
            1 <= lh <= crate::IMAGE_DIMENSION_MAX,
            nw == spec_half(lw as int),
            nh == spec_half(lh as int),
            1 <= nw <= lw,
            1 <= nh <= lh,
            y <= nh,
            out@.len() == y * nw,
        decreases nh - y,
    {
        let mut x: u32 = 0;
        while x < nw
            invariant
                cur@.len() == lw * lh,
                1 <= lw <= crate::IMAGE_DIMENSION_MAX,
                1 <= lh <= crate::IMAGE_DIMENSION_MAX,
                1 <= nw <= lw,
                1 <= nh <= lh,
                y < nh,
                x <= nw,
                out@.len() == y * nw + x,
            decreases nw - x,
        {
            let x0 = if 2 * x < lw - 1 {
                2 * x
            } else {
                lw - 1
            };
            let x1 = if 2 * x + 1 < lw - 1 {
                2 * x + 1
            } else {
                lw - 1
            };
            let y0 = if 2 * y < lh - 1 {
                2 * y
            } else {
                lh - 1
            };
            let y1 = if 2 * y + 1 < lh - 1 {
                2 * y + 1
            } else {
                lh - 1
            };
            proof {
                lemma_row_major_index(x0 as int, y0 as int, lw as int, lh as int);
                lemma_row_major_index(x1 as int, y0 as int, lw as int, lh as int);
                lemma_row_major_index(x0 as int, y1 as int, lw as int, lh as int);
                lemma_row_major_index(x1 as int, y1 as int, lw as int, lh as int);
                vstd::arithmetic::mul::lemma_mul_upper_bound(
                    lw as int,
                    crate::IMAGE_DIMENSION_MAX as int,
                    lh as int,
                    crate::IMAGE_DIMENSION_MAX as int,
                );
            }
            let a = cur[(y0 as usize) * (lw as usize) + (x0 as usize)];
            let b = cur[(y0 as usize) * (lw as usize) + (x1 as usize)];
            let cc = cur[(y1 as usize) * (lw as usize) + (x0 as usize)];
            let d = cur[(y1 as usize) * (lw as usize) + (x1 as usize)];
            let px = ColorU8 {
                r: (((a.r as u32) + (b.r as u32) + (cc.r as u32) + (d.r as u32) + 2) / 4) as u8,
                g: (((a.g as u32) + (b.g as u32) + (cc.g as u32) + (d.g as u32) + 2) / 4) as u8,
                b: (((a.b as u32) + (b.b as u32) + (cc.b as u32) + (d.b as u32) + 2) / 4) as u8,
                a: (((a.a as u32) + (b.a as u32) + (cc.a as u32) + (d.a as u32) + 2) / 4) as u8,
            };
            out.push(px);
            x = x + 1;
        }
        y = y + 1;
        proof {
            assert((y - 1) * nw + nw == y * nw) by (nonlinear_arith);
        }
    }
    proof {
        vstd::arithmetic::mul::lemma_mul_is_commutative(nh as int, nw as int);
    }
    out
}

/// The channel sum used to project a pixel onto the endpoint axis.
fn channel_sum(c: ColorU8) -> (r: u32)
    ensures
        r <= 1020,
{
    (c.r as u32) + (c.g as u32) + (c.b as u32) + (c.a as u32)
}

/// Encode one 4x4 block of a mip level: the componentwise extremes of
/// its pixels become the endpoints (quantized by `shift` on the color
/// channels for ETC1S) and each pixel picks the nearest of the four
/// interpolation levels. With `alpha_mode` the block encodes the alpha
/// channel as a grayscale image.
fn encode_block(
    cur: &Vec<ColorU8>,
    lw: u32,
    lh: u32,
    bx: u32,
    by: u32,
    shift: u32,
    alpha_mode: bool,
) -> (r: (EndpointPair, u32))
    requires
        cur@.len() == lw * lh,
        1 <= lw <= crate::IMAGE_DIMENSION_MAX,
        1 <= lh <= crate::IMAGE_DIMENSION_MAX,
        bx < (lw + 3) / 4,
        by < (lh + 3) / 4,
        shift <= 7,
{
    let mut pxs: Vec<ColorU8> = Vec::new();
    let mut t: u32 = 0;
    while t < 16
        invariant
            cur@.len() == lw * lh,
            1 <= lw <= crate::IMAGE_DIMENSION_MAX,
            1 <= lh <= crate::IMAGE_DIMENSION_MAX,
            bx < (lw + 3) / 4,
            by < (lh + 3) / 4,
            t <= 16,
            pxs@.len() == t,
        decreases 16 - t,
    {
        let tx = t % 4;
        let ty = t / 4;
        let x = if 4 * bx + tx < lw - 1 {
            4 * bx + tx
        } else {
            lw - 1
        };
        let y = if 4 * by + ty < lh - 1 {
            4 * by + ty
        } else {
            lh - 1
        };
        proof {
            lemma_row_major_index(x as int, y as int, lw as int, lh as int);
            vstd::arithmetic::mul::lemma_mul_upper_bound(
                lw as int,
                crate::IMAGE_DIMENSION_MAX as int,
                lh as int,
                crate::IMAGE_DIMENSION_MAX as int,
            );
        }
        let p = cur[(y as usize) * (lw as usize) + (x as usize)];
        let px = if alpha_mode {
            ColorU8 { r: p.a, g: p.a, b: p.a, a: 255 }
        } else {
            p
        };
        pxs.push(px);
        t = t + 1;
    }
    let mut lo = pxs[0];
    let mut hi = pxs[0];
    let mut t: usize = 1;
    while t < 16
        invariant
            pxs@.len() == 16,
            1 <= t <= 16,
        decreases 16 - t,
    {
        let p = pxs[t];
        if p.r < lo.r {
            lo.r = p.r;
        }
        if p.g < lo.g {
            lo.g = p.g;
        }
        if p.b < lo.b {
            lo.b = p.b;
        }
        if p.a < lo.a {
            lo.a = p.a;
        }
        if p.r > hi.r {
            hi.r = p.r;
        }
        if p.g > hi.g {
            hi.g = p.g;
        }
        if p.b > hi.b {
            hi.b = p.b;
        }
        if p.a > hi.a {
            hi.a = p.a;
        }
        t = t + 1;
    }
    let mask = ((0xffu32 << shift) & 0xff) as u8;
    if shift > 0 {
        lo = ColorU8 { r: lo.r & mask, g: lo.g & mask, b: lo.b & mask, a: lo.a };
        hi = ColorU8 { r: hi.r & mask, g: hi.g & mask, b: hi.b & mask, a: hi.a };
    }
    let base = channel_sum(lo);
    let top = channel_sum(hi);
    let range = if top > base {
        top - base
    } else {
        0
    };
    let mut word: u32 = 0;
    let mut t: u32 = 0;
    while t < 16
        invariant
            pxs@.len() == 16,
            t <= 16,
            range <= 1020,
        decreases 16 - t,
    {
        let p = pxs[t as usize];
        let s = channel_sum(p);
        let level: u32 = if range == 0 || s <= base {
            0
        } else {
            let tt = (s - base) * 3 + range / 2;
            let l = tt / range;
            if l > 3 {
                3
            } else {
                l
            }
        };
        word = word | (level << (2 * t));
        t = t + 1;
    }
    (EndpointPair { lo, hi }, word)
}

/// Find or add an endpoint pair in the shared codebook; when the
/// codebook is full the first entry is reused.
fn intern_endpoint(endpoints: &mut Vec<EndpointPair>, e: EndpointPair) -> (idx: u16)
    requires
        old(endpoints)@.len() <= ENDPOINT_COUNT_MAX,
    ensures
        final(endpoints)@.len() <= ENDPOINT_COUNT_MAX,
        old(endpoints)@.len() <= final(endpoints)@.len(),
        forall|k: int|
            0 <= k < old(endpoints)@.len() ==> final(endpoints)@[k] == old(endpoints)@[k],
        (idx as int) < final(endpoints)@.len(),
    decreases 0int,
{
    let n = endpoints.len();
    let mut k: usize = 0;
    while k < n
        invariant
            n == endpoints@.len() <= ENDPOINT_COUNT_MAX,
            k <= n,
        decreases n - k,
    {
        if endpoints[k] == e {
            return k as u16;
        }
        k = k + 1;
    }
    if n < ENDPOINT_COUNT_MAX as usize {
        endpoints.push(e);
        return n as u16;
    }
    0
}

/// Find or add a selector word in the shared codebook; when the
/// codebook is full the first entry is reused.
fn intern_selector(selectors: &mut Vec<u32>, w: u32) -> (idx: u16)
    requires
        old(selectors)@.len() <= SELECTOR_COUNT_MAX,
    ensures
        final(selectors)@.len() <= SELECTOR_COUNT_MAX,
        old(selectors)@.len() <= final(selectors)@.len(),
        forall|k: int|
            0 <= k < old(selectors)@.len() ==> final(selectors)@[k] == old(selectors)@[k],
        (idx as int) < final(selectors)@.len(),
    decreases 0int,
{
    let n = selectors.len();
    let mut k: usize = 0;
    while k < n
        invariant
            n == selectors@.len() <= SELECTOR_COUNT_MAX,
            k <= n,
        decreases n - k,
    {
        if selectors[k] == w {
            return k as u16;
        }
        k = k + 1;
    }
    if n < SELECTOR_COUNT_MAX as usize {
        selectors.push(w);
        return n as u16;
    }
    0
}

/// Encode all blocks of one mip level as one slice's payload words.
fn emit_slice_payload(
    payload: &mut Vec<u32>,
    endpoints: &mut Vec<EndpointPair>,
    selectors: &mut Vec<u32>,
    cur: &Vec<ColorU8>,
    lw: u32,
    lh: u32,
    etc1s: bool,
    shift: u32,
    alpha_mode: bool,
) -> (added: u32)
    requires
        cur@.len() == lw * lh,
        1 <= lw <= crate::IMAGE_DIMENSION_MAX,
        1 <= lh <= crate::IMAGE_DIMENSION_MAX,
        shift <= 7,
        old(endpoints)@.len() <= ENDPOINT_COUNT_MAX,
        old(selectors)@.len() <= SELECTOR_COUNT_MAX,
        old(payload)@.len() + ((lw + 3) / 4) * ((lh + 3) / 4) * (if etc1s {
            1int
        } else {
            4int
        }) <= PAYLOAD_WORDS_MAX,
        etc1s ==> spec_payload_refs_ok(
            old(payload)@,
            old(endpoints)@.len() as int,
            old(selectors)@.len() as int,
        ),
    ensures
        final(endpoints)@.len() <= ENDPOINT_COUNT_MAX,
        old(endpoints)@.len() <= final(endpoints)@.len(),
        final(selectors)@.len() <= SELECTOR_COUNT_MAX,
        old(selectors)@.len() <= final(selectors)@.len(),
        final(payload)@.len() == old(payload)@.len() + ((lw + 3) / 4) * ((lh + 3) / 4) * (
        if etc1s {
            1int
        } else {
            4int
        }),
        added == ((lw + 3) / 4) * ((lh + 3) / 4) * (if etc1s {
            1int
        } else {
            4int
        }),
        forall|k: int|
            0 <= k < old(payload)@.len() ==> final(payload)@[k] == old(payload)@[k],
        etc1s ==> spec_payload_refs_ok(
            final(payload)@,
            final(endpoints)@.len() as int,
            final(selectors)@.len() as int,
        ),
{
    let nbx = (lw + 3) / 4;
    let nby = (lh + 3) / 4;
    proof {
        vstd::arithmetic::mul::lemma_mul_upper_bound(nbx as int, 4096, nby as int, 4096);
    }
    let blocks = mul_u32_wide(nbx, nby) as u32;
    let unit: u32 = if etc1s {
        1
    } else {
        4
    };
    let mut bi: u32 = 0;
    while bi < blocks
        invariant
            cur@.len() == lw * lh,
            1 <= lw <= crate::IMAGE_DIMENSION_MAX,
            1 <= lh <= crate::IMAGE_DIMENSION_MAX,
            shift <= 7,
            nbx == (lw + 3) / 4,
            nby == (lh + 3) / 4,
            blocks == nbx * nby,
            unit == (if etc1s {
                1int
            } else {
                4int
            }),
            bi <= blocks,
            endpoints@.len() <= ENDPOINT_COUNT_MAX,
            old(endpoints)@.len() <= endpoints@.len(),
            selectors@.len() <= SELECTOR_COUNT_MAX,
            old(selectors)@.len() <= selectors@.len(),
            payload@.len() == old(payload)@.len() + bi * unit,
            old(payload)@.len() + blocks * unit <= PAYLOAD_WORDS_MAX,
            forall|k: int| 0 <= k < old(payload)@.len() ==> payload@[k] == old(payload)@[k],
            etc1s ==> spec_payload_refs_ok(
                payload@,
                endpoints@.len() as int,
                selectors@.len() as int,
            ),
        decreases blocks - bi,
    {
        let bx = bi % nbx;
        let by = bi / nbx;
        proof {
            assert((bi as int) / (nbx as int) < nby) by (nonlinear_arith)
                requires
                    bi < nbx * nby,
                    nbx >= 1,
                    bi >= 0,
            ;
            assert((bi + 1) * unit == bi * unit + unit && (bi + 1) * unit <= blocks
                * unit) by (nonlinear_arith)
                requires
                    bi < blocks,
                    unit >= 1,
            ;
        }
        let (pair, word) = encode_block(cur, lw, lh, bx, by, shift, alpha_mode);
        if etc1s {
            let e_idx = intern_endpoint(endpoints, pair);
            let s_idx = intern_selector(selectors, word);
            let pw = (e_idx as u32) | ((s_idx as u32) << 16);
            proof {
                lemma_etc1s_word_fields(e_idx, s_idx);
            }
            payload.push(pw);
        } else {
            payload.push(pack_color(pair.lo));
            payload.push(pack_color(pair.hi));
            payload.push(word);
            payload.push(0);
        }
        bi = bi + 1;
    }
    proof {
        vstd::arithmetic::mul::lemma_mul_is_associative(nbx as int, nby as int, unit as int);
        vstd::arithmetic::mul::lemma_mul_upper_bound(
            blocks as int,
            0x100_0000,
            unit as int,
            4,
        );
    }
    blocks * unit
}

/// The slice directory facts of every (image, level) pair already
/// emitted: all levels of the first `i` images, and the first `l`
/// levels of image `i`.
pub open spec fn spec_pairs_done(
    p: CompressorParams,
    slices: Seq<SliceDesc>,
    i: int,
    l: int,
) -> bool {
    forall|a: int, b: int|
        #![trigger spec_pair_ok(p, slices, a, b)]
        0 <= a && 0 <= b && ((a < i && b < spec_levels(
            p,
            p.source_images@[a].width as int,
            p.source_images@[a].height as int,
        )) || (a == i && b < l)) ==> spec_pair_ok(p, slices, a, b)
}

/// The level counts of the first `i` images are their mip chain
/// lengths.
pub open spec fn spec_counts_done(p: CompressorParams, slices: Seq<SliceDesc>, i: int) -> bool {
    forall|a: int|
        0 <= a < i ==> #[trigger] spec_level_count(slices, a as u32) == spec_levels(
            p,
            p.source_images@[a].width as int,
            p.source_images@[a].height as int,
        )
}

/// Every emitted slice is consistent and the directory is strictly
/// ordered.
pub open spec fn spec_slices_built(
    p: CompressorParams,
    slices: Seq<SliceDesc>,
    payload_len: int,
) -> bool {
    &&& forall|si: int|
        0 <= si < slices.len() ==> crate::container::spec_slice_ok(
            #[trigger] slices[si],
            p.basis_format,
            p.source_images@.len() as u32,
            payload_len,
        )
    &&& forall|si: int|
        1 <= si < slices.len() ==> crate::container::spec_slice_less(
            slices[si - 1],
            #[trigger] slices[si],
        )
    &&& crate::container::spec_slices_structured(slices)
}

/// Every emitted slice's key lies before (image `i`, level `l`).
pub open spec fn spec_key_bound(slices: Seq<SliceDesc>, i: int, l: int) -> bool {
    forall|si: int|
        0 <= si < slices.len() ==> ((#[trigger] slices[si]).image_index < i || (
        slices[si].image_index == i && slices[si].level_index < l))
}

/// The total slice count and payload word count a compression of `p`
/// would produce.
#[verifier::rlimit(100)]
#[verifier::spinoff_prover]
fn compute_totals(p: &CompressorParams, floor: u32, etc1s: bool, unit: u32) -> (r: (u64, u64))
    requires
        p.wf(),
        p.source_images@.len() >= 1,
        floor == (if p.mip_smallest_dimension >= 1 {
            p.mip_smallest_dimension as int
        } else {
            1int
        }),
        etc1s == (p.basis_format == BasisTextureFormat::ETC1S),
        unit == crate::container::spec_unit_words(p.basis_format),
        forall|j: int|
            0 <= j < p.source_images@.len() ==> (#[trigger] p.source_images@[j]).width >= 1
                && p.source_images@[j].height >= 1,
    ensures
        r.0 == spec_total_slices(*p, p.source_images@.len() as int),
        r.1 == spec_total_payload_words(*p, p.source_images@.len() as int),
{
    let n = p.source_images.len();
    let mut ts: u64 = 0;
    let mut tp: u64 = 0;
    let mut i: usize = 0;
    while i < n
        invariant
            p.wf(),
            n == p.source_images@.len(),
            floor == (if p.mip_smallest_dimension >= 1 {
                p.mip_smallest_dimension as int
            } else {
                1int
            }),
            etc1s == (p.basis_format == BasisTextureFormat::ETC1S),
            unit == crate::container::spec_unit_words(p.basis_format),
            forall|j: int|
                0 <= j < n ==> (#[trigger] p.source_images@[j]).width >= 1
                    && p.source_images@[j].height >= 1,
            i <= n,
            ts == spec_total_slices(*p, i as int),
            tp == spec_total_payload_words(*p, i as int),
            ts <= i * 0x8000,
            tp <= i * 0x400_0000_0000,
        decreases n - i,
    {
        let img = &p.source_images[i];
        proof {
            assert(p.source_images@[i as int].wf());
        }
        let w = img.width;
        let h = img.height;
        let levels: u32 = if p.generate_mipmaps {
            mip_count_exec(w, h, floor)
        } else {
            1
        };
        let emits = etc1s && img.has_alpha_channel;
        proof {
            assert(levels == spec_levels(*p, w as int, h as int));
            assert(emits == spec_image_emits_alpha(*p, i as int));
        }
        let img_slices: u64 = (levels as u64) * (if emits {
            2
        } else {
            1
        });
        let mut acc: u64 = 0;
        let mut cw = w;
        let mut ch = h;
        let mut l: u32 = 0;
        while l < levels
            invariant
                p.wf(),
                n == p.source_images@.len(),
                i < n,
                w == p.source_images@[i as int].width,
                h == p.source_images@[i as int].height,
                1 <= w <= crate::IMAGE_DIMENSION_MAX,
                1 <= h <= crate::IMAGE_DIMENSION_MAX,
                etc1s == (p.basis_format == BasisTextureFormat::ETC1S),
                unit == crate::container::spec_unit_words(p.basis_format),
                emits == spec_image_emits_alpha(*p, i as int),
                l <= levels,
                cw == spec_level_dim(w as int, l as int),
                ch == spec_level_dim(h as int, l as int),
                1 <= cw <= crate::IMAGE_DIMENSION_MAX,
                1 <= ch <= crate::IMAGE_DIMENSION_MAX,
                acc == spec_image_payload_words(*p, i as int, l as int),
                acc <= l * 0x1000_0000,
            decreases levels - l,
        {
            let nbx = (cw + 3) / 4;
            let nby = (ch + 3) / 4;
            proof {
                vstd::arithmetic::mul::lemma_mul_upper_bound(nbx as int, 4096, nby as int, 4096);
                vstd::arithmetic::mul::lemma_mul_upper_bound(
                    (nbx * nby) as int,
                    0x100_0000,
                    unit as int,
                    4,
                );
            }
            let blocks = mul_u32_wide(nbx, nby);
            let term: u64 = blocks * (unit as u64) * (if emits {
                2
            } else {
                1
            });
            proof {
                vstd::arithmetic::mul::lemma_mul_is_associative(
                    blocks as int,
                    unit as int,
                    2,
                );
                assert(term == spec_level_payload_words(*p, i as int, l as int));
                assert((l + 1) * 0x1000_0000 == l * 0x1000_0000
                    + 0x1000_0000) by (nonlinear_arith);
            }
            acc = acc + term;
            cw = if cw > 1 {
                cw / 2
            } else {
                1
            };
            ch = if ch > 1 {
                ch / 2
            } else {
                1
            };
            l = l + 1;
        }
        proof {
            assert((i + 1) * 0x8000 == i * 0x8000 + 0x8000) by (nonlinear_arith);
            assert((i + 1) * 0x400_0000_0000 == i * 0x400_0000_0000
                + 0x400_0000_0000) by (nonlinear_arith);
            assert(acc <= 0x400_0000_0000) by (nonlinear_arith)
                requires
                    acc <= levels * 0x1000_0000,
                    levels <= 0x4000,
            ;
            assert(img_slices == spec_image_slices(*p, i as int));
        }
        ts = ts + img_slices;
        tp = tp + acc;
        i = i + 1;
    }
    (ts, tp)
}

/// Encode a well-formed parameter set into container bytes, or report
/// which stage rejects it; see [`spec_process_err`].
#[verifier::rlimit(100)]
#[verifier::spinoff_prover]
fn encode_params(p: &CompressorParams) -> (r: Result<Vec<u8>, CompressorErrorCode>)
    requires
        p.wf(),
    ensures
        match r {
            Ok(v) => {
                &&& spec_process_err(*p) is None
                &&& spec_parse(v@) matches Some(cm) && cm.wf() && spec_encode_ok(*p, cm)
                &&& crate::container::spec_checksums_ok(
                    crate::container::spec_bytes_to_words(v@),
                    true,
                )
                &&& v@.len() <= u32::MAX
            },
            Err(e) => spec_process_err(*p) == Some(e),
        },
{
    let n = p.source_images.len();
    if n == 0 {
        return Err(CompressorErrorCode::cECFailedValidating);
    }
    let mut i: usize = 0;
    while i < n
        invariant
            p.wf(),
            n == p.source_images@.len(),
            i <= n,
            forall|j: int|
                0 <= j < i ==> (#[trigger] p.source_images@[j]).width >= 1
                    && p.source_images@[j].height >= 1,
        decreases n - i,
    {
        if p.source_images[i].width < 1 || p.source_images[i].height < 1 {
            return Err(CompressorErrorCode::cECFailedReadingSourceImages);
        }
        i = i + 1;
    }
    let floor: u32 = if p.mip_smallest_dimension >= 1 {
        p.mip_smallest_dimension
    } else {
        1
    };
    let etc1s = p.basis_format == BasisTextureFormat::ETC1S;
    let unit: u32 = if etc1s {
        1
    } else {
        4
    };
    let (ts, tp) = compute_totals(p, floor, etc1s, unit);
    if ts > SLICE_COUNT_MAX as u64 || tp > PAYLOAD_WORDS_MAX as u64 {
        return Err(CompressorErrorCode::cECFailedCreateBasisFile);
    }
    let bytes = build_container_bytes(p, floor, etc1s, unit);
    Ok(bytes)
}

/// Assemble and serialize the container for a parameter set whose
/// inputs fit the container format.
#[verifier::rlimit(100)]
#[verifier::spinoff_prover]
fn build_container_bytes(p: &CompressorParams, floor: u32, etc1s: bool, unit: u32) -> (v: Vec<u8>)
    requires
        p.wf(),
        p.source_images@.len() >= 1,
        floor == (if p.mip_smallest_dimension >= 1 {
            p.mip_smallest_dimension as int
        } else {
            1int
        }),
        etc1s == (p.basis_format == BasisTextureFormat::ETC1S),
        unit == crate::container::spec_unit_words(p.basis_format),
        forall|j: int|
            0 <= j < p.source_images@.len() ==> (#[trigger] p.source_images@[j]).width >= 1
                && p.source_images@[j].height >= 1,
        spec_total_slices(*p, p.source_images@.len() as int) <= SLICE_COUNT_MAX,
        spec_total_payload_words(*p, p.source_images@.len() as int) <= PAYLOAD_WORDS_MAX,
    ensures
        spec_parse(v@) matches Some(cm) && cm.wf() && spec_encode_ok(*p, cm),
        crate::container::spec_checksums_ok(crate::container::spec_bytes_to_words(v@), true),
        v@.len() <= u32::MAX,
{
    let n = p.source_images.len();
    let any_alpha = any_alpha_scan(p);
    let shift: u32 = if etc1s {
        (255 - p.etc1s_quality_level) / 32
    } else {
        0
    };
    let mut slices_v: Vec<SliceDesc> = Vec::new();
    let mut payload: Vec<u32> = Vec::new();
    let mut endpoints: Vec<EndpointPair> = Vec::new();
    let mut selectors: Vec<u32> = Vec::new();
    let mut i: usize = 0;
    while i < n
        invariant
            p.wf(),
            n == p.source_images@.len(),
            1 <= n,
            floor == (if p.mip_smallest_dimension >= 1 {
                p.mip_smallest_dimension as int
            } else {
                1int
            }),
            etc1s == (p.basis_format == BasisTextureFormat::ETC1S),
            unit == crate::container::spec_unit_words(p.basis_format),
            shift <= 7,
            forall|j: int|
                0 <= j < n ==> (#[trigger] p.source_images@[j]).width >= 1
                    && p.source_images@[j].height >= 1,
            spec_total_slices(*p, n as int) <= SLICE_COUNT_MAX,
            spec_total_payload_words(*p, n as int) <= PAYLOAD_WORDS_MAX,
            i <= n,
            slices_v@.len() == spec_total_slices(*p, i as int),
            payload@.len() == spec_total_payload_words(*p, i as int),
            endpoints@.len() <= ENDPOINT_COUNT_MAX,
            selectors@.len() <= SELECTOR_COUNT_MAX,
            etc1s ==> spec_payload_refs_ok(
                payload@,
                endpoints@.len() as int,
                selectors@.len() as int,
            ),
            spec_slices_built(*p, slices_v@, payload@.len() as int),
            spec_key_bound(slices_v@, i as int, 0),
            spec_pairs_done(*p, slices_v@, i as int, 0),
            spec_counts_done(*p, slices_v@, i as int),
            spec_level_count(slices_v@, i as u32) == 0,
        decreases n - i,
    {
        let img = &p.source_images[i];
        proof {
            assert(p.source_images@[i as int].wf());
        }
        let w = img.width;
        let h = img.height;
        let levels: u32 = if p.generate_mipmaps {
            mip_count_exec(w, h, floor)
        } else {
            1
        };
        let emits = etc1s && img.has_alpha_channel;
        let opaque = !img.has_alpha_channel;
        let mut cur = crop_image(img);
        let mut cw = w;
        let mut ch = h;
        let mut l: u32 = 0;
        while l < levels
            invariant
                p.wf(),
                n == p.source_images@.len(),
                i < n,
                w == p.source_images@[i as int].width,
                h == p.source_images@[i as int].height,
                1 <= w <= crate::IMAGE_DIMENSION_MAX,
                1 <= h <= crate::IMAGE_DIMENSION_MAX,
                etc1s == (p.basis_format == BasisTextureFormat::ETC1S),
                unit == crate::container::spec_unit_words(p.basis_format),
                shift <= 7,
                forall|j: int|
                    0 <= j < n ==> (#[trigger] p.source_images@[j]).width >= 1
                        && p.source_images@[j].height >= 1,
                spec_total_slices(*p, n as int) <= SLICE_COUNT_MAX,
                spec_total_payload_words(*p, n as int) <= PAYLOAD_WORDS_MAX,
                levels == spec_levels(*p, w as int, h as int),
                levels <= crate::IMAGE_DIMENSION_MAX,
                emits == spec_image_emits_alpha(*p, i as int),
                opaque == !p.source_images@[i as int].has_alpha_channel,
                l <= levels,
                cw == spec_level_dim(w as int, l as int),
                ch == spec_level_dim(h as int, l as int),
                1 <= cw <= crate::IMAGE_DIMENSION_MAX,
                1 <= ch <= crate::IMAGE_DIMENSION_MAX,
                cur@.len() == cw * ch,
                slices_v@.len() == spec_total_slices(*p, i as int) + (if emits {
                    2 * l
                } else {
                    l as int
                }),
                payload@.len() == spec_total_payload_words(*p, i as int)
                    + spec_image_payload_words(*p, i as int, l as int),
                endpoints@.len() <= ENDPOINT_COUNT_MAX,
                selectors@.len() <= SELECTOR_COUNT_MAX,
                etc1s ==> spec_payload_refs_ok(
                    payload@,
                    endpoints@.len() as int,
                    selectors@.len() as int,
                ),
                spec_slices_built(*p, slices_v@, payload@.len() as int),
                spec_key_bound(slices_v@, i as int, l as int),
                spec_pairs_done(*p, slices_v@, i as int, l as int),
                spec_counts_done(*p, slices_v@, i as int),
                spec_level_count(slices_v@, i as u32) == l,
            decreases levels - l,
        {
            let nbx = (cw + 3) / 4;
            let nby = (ch + 3) / 4;
            proof {
                vstd::arithmetic::mul::lemma_mul_upper_bound(nbx as int, 4096, nby as int, 4096);
                vstd::arithmetic::mul::lemma_mul_upper_bound(
                    (nbx * nby) as int,
                    0x100_0000,
                    unit as int,
                    4,
                );
                // the payload emitted so far plus this level fits the cap
                assert forall|j: int| 0 <= j < n implies 1 <= (
                #[trigger] p.source_images@[j]).width <= crate::IMAGE_DIMENSION_MAX && 1
                    <= p.source_images@[j].height <= crate::IMAGE_DIMENSION_MAX by {
                    assert(p.source_images@[j].wf());
                }
                crate::codec::lemma_image_payload_mono(*p, i as int, l as int + 1, levels as int);
                crate::codec::lemma_total_payload_mono(*p, i as int + 1, n as int);
                vstd::arithmetic::mul::lemma_mul_is_associative(
                    (nbx * nby) as int,
                    unit as int,
                    2,
                );
            }
            let ghost slices0 = slices_v@;
            let ghost payload_len0 = payload@.len() as int;
            let off_color = payload.len() as u32;
            let added = emit_slice_payload(
                &mut payload,
                &mut endpoints,
                &mut selectors,
                &cur,
                cw,
                ch,
                etc1s,
                shift,
                false,
            );
            let color_slice = SliceDesc {
                image_index: i as u32,
                level_index: l,
                orig_width: cw,
                orig_height: ch,
                num_blocks_x: nbx,
                num_blocks_y: nby,
                payload_offset: off_color,
                payload_len: added,
                is_alpha: false,
                is_opaque: opaque,
            };
            slices_v.push(color_slice);
            let ghost slices1 = slices_v@;
            if emits {
                let off_alpha = payload.len() as u32;
                let added_a = emit_slice_payload(
                    &mut payload,
                    &mut endpoints,
                    &mut selectors,
                    &cur,
                    cw,
                    ch,
                    etc1s,
                    shift,
                    true,
                );
                let alpha_slice = SliceDesc {
                    image_index: i as u32,
                    level_index: l,
                    orig_width: cw,
                    orig_height: ch,
                    num_blocks_x: nbx,
                    num_blocks_y: nby,
                    payload_offset: off_alpha,
                    payload_len: added_a,
                    is_alpha: true,
                    is_opaque: opaque,
                };
                slices_v.push(alpha_slice);
            }
            proof {
                let pp = *p;
                let s2 = slices_v@;
                let ii = i as int;
                let ll = l as int;
                // ordering and key bound extend over the new entries
                assert(spec_key_bound(s2, ii, ll + 1));
                assert forall|si: int| 0 <= si < s2.len() implies
                    #[trigger] crate::container::spec_slice_structured(s2, si) by {
                    if si < slices0.len() {
                        assert(crate::container::spec_slice_structured(slices0, si));
                        assert(s2.take(si) =~= slices0.take(si));
                        assert(s2[si] == slices0[si]);
                        if si >= 1 {
                            assert(s2[si - 1] == slices0[si - 1]);
                        }
                    } else if si == slices0.len() {
                        assert(s2[si] == color_slice);
                        assert(s2.take(si) =~= slices0);
                        assert(spec_level_count(slices0, i as u32) == ll);
                    } else {
                        assert(s2[si - 1] == color_slice);
                    }
                }
                assert(spec_slices_built(pp, s2, payload@.len() as int));
                // earlier lookups are unchanged by the appended slices
                assert forall|a: int, b: int|
                    #![trigger spec_pair_ok(pp, s2, a, b)]
                    0 <= a && 0 <= b && ((a < ii && b < spec_levels(
                        pp,
                        pp.source_images@[a].width as int,
                        pp.source_images@[a].height as int,
                    )) || (a == ii && b < ll)) implies spec_pair_ok(pp, s2, a, b) by {
                    assert(spec_pair_ok(pp, slices0, a, b));
                    lemma_find_slice_append(slices0, color_slice, a as u32, b as u32, false);
                    if spec_find_slice(slices0, a as u32, b as u32, true) is Some {
                        lemma_find_slice_append(slices0, color_slice, a as u32, b as u32, true);
                    } else {
                        lemma_find_slice_append_none(
                            slices0,
                            color_slice,
                            a as u32,
                            b as u32,
                            true,
                        );
                    }
                    if emits {
                        let alpha_slice = s2[s2.len() - 1];
                        lemma_find_slice_append(slices1, alpha_slice, a as u32, b as u32, false);
                        if spec_find_slice(slices1, a as u32, b as u32, true) is Some {
                            lemma_find_slice_append(
                                slices1,
                                alpha_slice,
                                a as u32,
                                b as u32,
                                true,
                            );
                        } else {
                            lemma_find_slice_append_none(
                                slices1,
                                alpha_slice,
                                a as u32,
                                b as u32,
                                true,
                            );
                        }
                    }
                }
                // the new pair is found at its own index
                let ci = slices1.len() - 1;
                lemma_find_in_sorted(s2, ci, i as u32, l as u32, false);
                if emits {
                    lemma_find_in_sorted(s2, s2.len() - 1, i as u32, l as u32, true);
                } else {
                    crate::container::lemma_find_slice_char(s2, i as u32, l as u32, true);
                    if spec_find_slice(s2, i as u32, l as u32, true) is Some {
                        assert(false);
                    }
                }
                assert(spec_pair_ok(pp, s2, ii, ll));
                assert(spec_pairs_done(pp, s2, ii, ll + 1));
                // level counts
                lemma_level_count_push(slices0, color_slice, i as u32);
                if emits {
                    lemma_level_count_push(slices1, s2[s2.len() - 1], i as u32);
                }
                assert(spec_level_count(s2, i as u32) == ll + 1);
                assert forall|a: int| 0 <= a < ii implies #[trigger] spec_level_count(
                    s2,
                    a as u32,
                ) == spec_levels(
                    pp,
                    pp.source_images@[a].width as int,
                    pp.source_images@[a].height as int,
                ) by {
                    lemma_level_count_push(slices0, color_slice, a as u32);
                    if emits {
                        lemma_level_count_push(slices1, s2[s2.len() - 1], a as u32);
                    }
                }
            }
            let next = halve_level(&cur, cw, ch);
            cur = next;
            cw = if cw > 1 {
                cw / 2
            } else {
                1
            };
            ch = if ch > 1 {
                ch / 2
            } else {
                1
            };
            l = l + 1;
        }
        proof {
            assert(spec_pairs_done(*p, slices_v@, i as int + 1, 0));
            assert(spec_counts_done(*p, slices_v@, i as int + 1));
            assert(spec_key_bound(slices_v@, i as int + 1, 0));
            lemma_level_count_bound_zero(slices_v@, (i + 1) as u32);
        }
        i = i + 1;
    }
    let container = BasisContainer {
        tex_format: p.basis_format,
        tex_type: BasisTextureType::TextureType2D,
        userdata0: p.userdata.userdata0,
        userdata1: p.userdata.userdata1,
        total_images: n as u32,
        has_alpha: any_alpha,
        endpoints,
        selectors,
        slices: slices_v,
        payload,
    };
    proof {
        lemma_emitted_container_ok(*p, container@);
        lemma_ser_words_valid(container@);
        lemma_parse_ser(container@);
        lemma_words_bytes_roundtrip(container@.spec_ser_words());
    }
    write_container(&container)
}

/// A container assembled from fully emitted slices, payload and
/// codebooks satisfies the compressor's guarantees.
#[verifier::rlimit(100)]
#[verifier::spinoff_prover]
pub proof fn lemma_emitted_container_ok(p: CompressorParams, cm: crate::container::ContainerModel)
    requires
        cm.tex_format == p.basis_format,
        cm.tex_type == BasisTextureType::TextureType2D,
        cm.userdata0 == p.userdata.userdata0,
        cm.userdata1 == p.userdata.userdata1,
        cm.total_images == p.source_images@.len(),
        cm.has_alpha == spec_any_alpha(p),
        cm.endpoints.len() <= ENDPOINT_COUNT_MAX,
        cm.selectors.len() <= SELECTOR_COUNT_MAX,
        cm.slices.len() <= SLICE_COUNT_MAX,
        cm.payload.len() <= PAYLOAD_WORDS_MAX,
        cm.tex_format == BasisTextureFormat::ETC1S ==> spec_payload_refs_ok(
            cm.payload,
            cm.endpoints.len() as int,
            cm.selectors.len() as int,
        ),
        spec_slices_built(p, cm.slices, cm.payload.len() as int),
        spec_pairs_done(p, cm.slices, p.source_images@.len() as int, 0),
        spec_counts_done(p, cm.slices, p.source_images@.len() as int),
    ensures
        cm.wf(),
        spec_encode_ok(p, cm),
{
    if cm.tex_format == BasisTextureFormat::ETC1S {
        assert forall|si: int| 0 <= si < cm.slices.len() implies crate::codec::spec_etc1s_refs_ok(
            cm,
            #[trigger] cm.slices[si],
        ) by {
            let sl = cm.slices[si];
            assert forall|bi: int|
                0 <= bi < crate::codec::spec_slice_blocks(sl) implies crate::codec::spec_etc1s_e_idx(
                #[trigger] crate::codec::spec_etc1s_block_word(cm, sl, bi),
            ) < cm.endpoints.len() && crate::codec::spec_etc1s_s_idx(
                crate::codec::spec_etc1s_block_word(cm, sl, bi),
            ) < cm.selectors.len() by {
                assert(crate::container::spec_slice_ok(
                    sl,
                    cm.tex_format,
                    cm.total_images,
                    cm.payload.len() as int,
                ));
                vstd::arithmetic::mul::lemma_mul_nonnegative(
                    sl.num_blocks_x as int,
                    sl.num_blocks_y as int,
                );
                assert(cm.payload[sl.payload_offset + bi] == cm.payload[sl.payload_offset
                    + bi]);
            }
        }
    }
}

/// Every image has level count zero in an empty tail; a fresh image
/// has no slices yet.
pub proof fn lemma_level_count_bound_zero(slices: Seq<SliceDesc>, image_index: u32)
    requires
        forall|si: int|
            0 <= si < slices.len() ==> (#[trigger] slices[si]).image_index < image_index,
    ensures
        spec_level_count(slices, image_index) == 0,
    decreases slices.len(),
{
    if slices.len() > 0 {
        lemma_level_count_bound_zero(slices.drop_last(), image_index);
    }
}

/// A copy of an image with the same fields and pixels.
fn copy_image(img: &CompressorImageRef) -> (r: CompressorImageRef)
    ensures
        r.width == img.width,
        r.height == img.height,
        r.pitch == img.pitch,
        r.has_alpha_channel == img.has_alpha_channel,
        r.pixels@ == img.pixels@,
{
    let n = img.pixels.len();
    let mut pixels: Vec<ColorU8> = Vec::new();
    let mut k: usize = 0;
    while k < n
        invariant
            n == img.pixels@.len(),
            k <= n,
            pixels@ =~= img.pixels@.take(k as int),
        decreases n - k,
    {
        pixels.push(img.pixels[k]);
        k = k + 1;
        proof {
            assert(pixels@ =~= img.pixels@.take(k as int));
        }
    }
    proof {
        assert(pixels@ =~= img.pixels@);
    }
    CompressorImageRef {
        width: img.width,
        height: img.height,
        pitch: img.pitch,
        has_alpha_channel: img.has_alpha_channel,
        pixels,
    }
}

/// Whether two parameter sets hold the same values, image pixels
/// included.
pub open spec fn spec_params_eq(a: CompressorParams, b: CompressorParams) -> bool {
    &&& a.basis_format == b.basis_format
    &&& a.etc1s_quality_level == b.etc1s_quality_level
    &&& a.uastc_quality_level == b.uastc_quality_level
    &&& a.perceptual == b.perceptual
    &&& a.mip_srgb == b.mip_srgb
    &&& a.no_selector_rdo == b.no_selector_rdo
    &&& a.no_endpoint_rdo == b.no_endpoint_rdo
    &&& a.rdo_uastc_quality_scalar_milli == b.rdo_uastc_quality_scalar_milli
    &&& a.generate_mipmaps == b.generate_mipmaps
    &&& a.mip_smallest_dimension == b.mip_smallest_dimension
    &&& a.userdata == b.userdata
    &&& a.print_status_to_stdout == b.print_status_to_stdout
    &&& a.source_images@.len() == b.source_images@.len()
    &&& forall|i: int|
        0 <= i < a.source_images@.len() ==> (#[trigger] a.source_images@[i]).width
            == b.source_images@[i].width && a.source_images@[i].height
            == b.source_images@[i].height && a.source_images@[i].pitch
            == b.source_images@[i].pitch && a.source_images@[i].has_alpha_channel
            == b.source_images@[i].has_alpha_channel && a.source_images@[i].pixels@
            == b.source_images@[i].pixels@
}

/// A copy of a parameter set with the same values.
fn copy_params(p: &CompressorParams) -> (r: CompressorParams)
    ensures
        spec_params_eq(r, *p),
        p.wf() ==> r.wf(),
{
    let n = p.source_images.len();
    let mut images: Vec<CompressorImageRef> = Vec::new();
    let mut k: usize = 0;
    while k < n
        invariant
            n == p.source_images@.len(),
            k <= n,
            images@.len() == k,
            forall|i: int|
                0 <= i < k ==> (#[trigger] images@[i]).width == p.source_images@[i].width
                    && images@[i].height == p.source_images@[i].height && images@[i].pitch
                    == p.source_images@[i].pitch && images@[i].has_alpha_channel
                    == p.source_images@[i].has_alpha_channel && images@[i].pixels@
                    == p.source_images@[i].pixels@,
        decreases n - k,
    {
        images.push(copy_image(&p.source_images[k]));
        k = k + 1;
    }
    let r = CompressorParams {
        basis_format: p.basis_format,
        etc1s_quality_level: p.etc1s_quality_level,
        uastc_quality_level: p.uastc_quality_level,
        perceptual: p.perceptual,
        mip_srgb: p.mip_srgb,
        no_selector_rdo: p.no_selector_rdo,
        no_endpoint_rdo: p.no_endpoint_rdo,
        rdo_uastc_quality_scalar_milli: p.rdo_uastc_quality_scalar_milli,
        generate_mipmaps: p.generate_mipmaps,
        mip_smallest_dimension: p.mip_smallest_dimension,
        userdata: p.userdata,
        print_status_to_stdout: p.print_status_to_stdout,
        source_images: images,
    };
    proof {
        if p.wf() {
            assert forall|i: int| 0 <= i < r.source_images@.len() implies (
            #[trigger] r.source_images@[i]).wf() by {
                assert(p.source_images@[i].wf());
            }
        }
    }
    r
}

/// Used to encode raw image data to a container.
///
/// A compressor owns a fixed worker count chosen at construction; this
/// engine assigns block work deterministically in image and level
/// order and runs it on the calling thread, so the emitted container
/// does not depend on the count. [`Compressor::init`] records the
/// parameters, [`Compressor::process`] runs the pipeline, and the
/// accessors read the result.
pub struct Compressor {
    /// The total worker count, including the calling thread.
    pub total_thread_count: u32,
    /// The parameters recorded by [`Compressor::init`].
    pub params: Option<CompressorParams>,
    /// The serialized container; empty before a successful process.
    pub output: Vec<u8>,
    /// Whether any source image carried alpha; valid after a
    /// successful process.
    pub any_alpha: bool,
}

impl Compressor {
    /// The structural invariant of a compressor.
    pub open spec fn wf(self) -> bool {
        &&& self.total_thread_count >= 1
        &&& self.params matches Some(q) ==> q.wf()
        &&& self.output@.len() <= u32::MAX
    }

    /// Create a compressor. `total_thread_count` is the total number
    /// of workers including the calling thread, and must be at least
    /// one.
    pub fn new(total_thread_count: u32) -> (r: Compressor)
        requires
            total_thread_count >= 1,
        ensures
            r.wf(),
            r.total_thread_count == total_thread_count,
            r.params is None,
            r.output@.len() == 0,
    {
        Compressor {
            total_thread_count,
            params: None,
            output: Vec::new(),
            any_alpha: false,
        }
    }

    /// Configure the compressor to compress the images of `params`.
    /// The parameter set must be well formed; the compressor records a
    /// copy and clears any previous output.
    pub fn init(&mut self, params: &CompressorParams) -> (r: bool)
        requires
            old(self).wf(),
            params.wf(),
        ensures
            final(self).wf(),
            r == true,
            final(self).total_thread_count == old(self).total_thread_count,
            final(self).params matches Some(q) && spec_params_eq(q, *params),
            final(self).output@.len() == 0,
    {
        let q = copy_params(params);
        self.params = Some(q);
        self.output = Vec::new();
        true
    }

    /// Encode the recorded images as configured by [`Compressor::init`].
    ///
    /// On success the output holds a container whose structure is
    /// [`spec_encode_ok`] for the recorded parameters; on any failure,
    /// including a process without parameters, no output is kept. The
    /// error reported for a parameter set is exactly
    /// [`spec_process_err`].
    pub fn process(&mut self) -> (r: Result<(), CompressorErrorCode>)
        requires
            old(self).wf(),
        ensures
            final(self).wf(),
            final(self).total_thread_count == old(self).total_thread_count,
            final(self).params == old(self).params,
            match old(self).params {
                None => r == Result::<(), CompressorErrorCode>::Err(
                    CompressorErrorCode::cECFailedValidating,
                ) && final(self).output@.len() == 0,
                Some(q) => match spec_process_err(q) {
                    Some(e) => r == Result::<(), CompressorErrorCode>::Err(e)
                        && final(self).output@.len() == 0,
                    None => {
                        &&& r is Ok
                        &&& spec_parse(final(self).output@) matches Some(cm) && cm.wf()
                            && spec_encode_ok(q, cm)
                        &&& crate::container::spec_checksums_ok(
                            crate::container::spec_bytes_to_words(final(self).output@),
                            true,
                        )
                        &&& final(self).any_alpha == spec_any_alpha(q)
                    },
                },
            },
    {
        let outcome: Result<Vec<u8>, CompressorErrorCode> = match &self.params {
            None => Err(CompressorErrorCode::cECFailedValidating),
            Some(q) => encode_params(q),
        };
        let aa: bool = match &self.params {
            None => false,
            Some(q) => any_alpha_scan(q),
        };
        match outcome {
            Ok(bytes) => {
                self.output = bytes;
                self.any_alpha = aa;
                Ok(())
            },
            Err(e) => {
                self.output = Vec::new();
                Err(e)
            },
        }
    }

    /// Access the compressed data; empty if [`Compressor::process`]
    /// has not succeeded yet.
    pub fn basis_file(&self) -> (r: &Vec<u8>)
        ensures
            r@ == self.output@,
    {
        &self.output
    }

    /// The size of the encoded container in bytes.
    pub fn basis_file_size(&self) -> (r: u32)
        requires
            self.wf(),
        ensures
            r == self.output@.len(),
    {
        self.output.len() as u32
    }

    /// Returns whether any source image has an alpha channel; valid
    /// after a successful [`Compressor::process`].
    pub fn any_source_image_has_alpha(&self) -> (r: bool)
        ensures
            r == self.any_alpha,
    {
        self.any_alpha
    }
}

impl Default for Compressor {
    fn default() -> (r: Compressor)
        ensures
            r.wf(),
            r.total_thread_count == 1,
            r.params is None,
            r.output@.len() == 0,
    {
        Compressor::new(1)
    }
}

} // verus!
