//! Source images for compression: an owned pixel buffer with explicit
//! width, height and row pitch, one 32-bit RGBA color per pixel.
use vstd::prelude::*;
use crate::formats::mul_u32_wide;

verus! {

/// A single uncompressed pixel value.
#[derive(Copy, Clone, Debug, PartialEq, Eq, Structural)]
pub struct ColorU8 {
    pub r: u8,
    pub g: u8,
    pub b: u8,
    pub a: u8,
}

impl ColorU8 {
    /// A pixel with the given channel values.
    pub fn new(r: u8, g: u8, b: u8, a: u8) -> (c: ColorU8)
        ensures
            c == (ColorU8 { r, g, b, a }),
    {
        ColorU8 { r, g, b, a }
    }
}

/// The fill value of freshly allocated pixels: opaque black.
pub open spec fn spec_black() -> ColorU8 {
    ColorU8 { r: 0, g: 0, b: 0, a: 255 }
}

/// The pixel a row of `channel_count` interleaved channel bytes describes:
/// one channel is luminance, two are luminance and alpha, three are RGB,
/// and four are RGBA. Missing alpha is filled as fully opaque.
pub open spec fn spec_pixel_from_channels(data: Seq<u8>, i: int, channel_count: int) -> ColorU8 {
    if channel_count == 1 {
        ColorU8 { r: data[i], g: data[i], b: data[i], a: 255 }
    } else if channel_count == 2 {
        ColorU8 { r: data[2 * i], g: data[2 * i], b: data[2 * i], a: data[2 * i + 1] }
    } else if channel_count == 3 {
        ColorU8 { r: data[3 * i], g: data[3 * i + 1], b: data[3 * i + 2], a: 255 }
    } else {
        ColorU8 { r: data[4 * i], g: data[4 * i + 1], b: data[4 * i + 2], a: data[4 * i + 3] }
    }
}

/// A row-major index is inside a pitch-by-height buffer.
pub proof fn lemma_row_major_index(x: int, y: int, pitch: int, height: int)
    by (nonlinear_arith)
    requires
        0 <= x < pitch,
        0 <= y < height,
    ensures
        0 <= y * pitch + x < pitch * height,
{
}

/// A source image held by [`crate::CompressorParams`]: the pixel data that
/// is to be encoded, with its width, height and row pitch in pixels.
///
/// The invariant [`CompressorImageRef::wf`] ties the buffer length to
/// `pitch * height` and bounds the dimensions; every method here keeps it.
pub struct CompressorImageRef {
    /// Width in pixels; addressing uses at most `width` pixels per row.
    pub width: u32,
    /// Height in pixels.
    pub height: u32,
    /// Row stride in pixels; at least `width`.
    pub pitch: u32,
    /// Whether the source data carried an alpha channel (two or four
    /// channels at [`CompressorImageRef::init`]).
    pub has_alpha_channel: bool,
    /// The backing pixels, `pitch * height` of them, row-major.
    pub pixels: Vec<ColorU8>,
}

impl CompressorImageRef {
    /// Whether the image is the empty image: zero dimensions, no pixels.
    pub open spec fn is_empty(self) -> bool {
        &&& self.width == 0
        &&& self.height == 0
        &&& self.pitch == 0
        &&& !self.has_alpha_channel
        &&& self.pixels@.len() == 0
    }

    /// The structural invariant of an image.
    pub open spec fn wf(self) -> bool {
        &&& self.width <= crate::IMAGE_DIMENSION_MAX
        &&& self.height <= crate::IMAGE_DIMENSION_MAX
        &&& self.width <= self.pitch <= crate::IMAGE_DIMENSION_MAX
        &&& self.pixels@.len() == self.pitch * self.height
    }

    /// The pixel at column `x` of row `y`.
    pub open spec fn spec_pixel(self, x: int, y: int) -> ColorU8 {
        self.pixels@[y * self.pitch + x]
    }

    /// An empty image: zero width, zero height, no pixels.
    pub fn new() -> (r: CompressorImageRef)
        ensures
            r.wf(),
            r.width == 0,
            r.height == 0,
            r.pitch == 0,
            !r.has_alpha_channel,
            r.pixels@.len() == 0,
    {
        CompressorImageRef {
            width: 0,
            height: 0,
            pitch: 0,
            has_alpha_channel: false,
            pixels: Vec::new(),
        }
    }

    /// Sets the image to be completely empty (zero width, zero height).
    pub fn invalidate(&mut self)
        ensures
            final(self).wf(),
            final(self).width == 0,
            final(self).height == 0,
            final(self).pitch == 0,
            !final(self).has_alpha_channel,
            final(self).pixels@.len() == 0,
    {
        self.width = 0;
        self.height = 0;
        self.pitch = 0;
        self.has_alpha_channel = false;
        self.pixels = Vec::new();
    }

    /// Resizes the image to the given width and height with a custom row
    /// pitch, discarding any previous content; every pixel becomes opaque
    /// black and the alpha mark is cleared.
    pub fn resize_with_pitch(&mut self, width: u32, height: u32, pitch: u32)
        requires
            width <= crate::IMAGE_DIMENSION_MAX,
            height <= crate::IMAGE_DIMENSION_MAX,
            width <= pitch <= crate::IMAGE_DIMENSION_MAX,
        ensures
            final(self).wf(),
            final(self).width == width,
            final(self).height == height,
            final(self).pitch == pitch,
            !final(self).has_alpha_channel,
            final(self).pixels@ == Seq::new((pitch * height) as nat, |i: int| spec_black()),
    {
        proof {
            vstd::arithmetic::mul::lemma_mul_upper_bound(
                pitch as int,
                crate::IMAGE_DIMENSION_MAX as int,
                height as int,
                crate::IMAGE_DIMENSION_MAX as int,
            );
        }
        let total = mul_u32_wide(pitch, height) as usize;
        let mut pixels: Vec<ColorU8> = Vec::new();
        let mut i: usize = 0;
        while i < total
            invariant
                i <= total,
                total == pitch * height,
                pixels@ =~= Seq::new(i as nat, |j: int| spec_black()),
            decreases total - i,
        {
            pixels.push(ColorU8 { r: 0, g: 0, b: 0, a: 255 });
            i = i + 1;
        }
        self.width = width;
        self.height = height;
        self.pitch = pitch;
        self.has_alpha_channel = false;
        self.pixels = pixels;
        proof {
            assert(self.pixels@ =~= Seq::new((pitch * height) as nat, |i: int| spec_black()));
        }
    }

    /// Resizes the image to the given width and height; the pitch becomes
    /// equal to the width.
    pub fn resize(&mut self, width: u32, height: u32)
        requires
            width <= crate::IMAGE_DIMENSION_MAX,
            height <= crate::IMAGE_DIMENSION_MAX,
        ensures
            final(self).wf(),
            final(self).width == width,
            final(self).height == height,
            final(self).pitch == width,
            !final(self).has_alpha_channel,
            final(self).pixels@ == Seq::new((width * height) as nat, |i: int| spec_black()),
    {
        self.resize_with_pitch(width, height, width);
    }

    /// Resizes the image and populates it from interleaved channel data;
    /// `channel_count` is the number of channels per pixel (1 to 4).
    pub fn init(&mut self, data: &[u8], width: u32, height: u32, channel_count: u8)
        requires
            width <= crate::IMAGE_DIMENSION_MAX,
            height <= crate::IMAGE_DIMENSION_MAX,
            1 <= channel_count <= 4,
            data@.len() >= width * height * channel_count,
        ensures
            final(self).wf(),
            final(self).width == width,
            final(self).height == height,
            final(self).pitch == width,
            final(self).has_alpha_channel == (channel_count == 2 || channel_count == 4),
            final(self).pixels@.len() == width * height,
            forall|i: int|
                0 <= i < width * height ==> final(self).pixels@[i] == spec_pixel_from_channels(
                    data@,
                    i,
                    channel_count as int,
                ),
    {
        proof {
            vstd::arithmetic::mul::lemma_mul_upper_bound(
                width as int,
                crate::IMAGE_DIMENSION_MAX as int,
                height as int,
                crate::IMAGE_DIMENSION_MAX as int,
            );
            vstd::arithmetic::mul::lemma_mul_is_associative(
                width as int,
                height as int,
                channel_count as int,
            );
        }
        let total = mul_u32_wide(width, height) as usize;
        let c = channel_count as usize;
        let mut pixels: Vec<ColorU8> = Vec::new();
        let mut i: usize = 0;
        let mut base: usize = 0;
        while i < total
            invariant
                i <= total,
                total == width * height,
                c == channel_count,
                1 <= c <= 4,
                base == i * c,
                data@.len() >= (width * height) * channel_count,
                pixels@.len() == i,
                forall|j: int|
                    0 <= j < i ==> pixels@[j] == spec_pixel_from_channels(
                        data@,
                        j,
                        channel_count as int,
                    ),
            decreases total - i,
        {
            proof {
                assert((i + 1) * c <= total * c && (i + 1) * c == i * c + c && total * c == (
                width * height) * channel_count) by (nonlinear_arith)
                    requires
                        i < total,
                        c >= 1,
                        total == width * height,
                        c == channel_count,
                ;
            }
            let px = if c == 1 {
                let v = data[base];
                ColorU8 { r: v, g: v, b: v, a: 255 }
            } else if c == 2 {
                let v = data[base];
                ColorU8 { r: v, g: v, b: v, a: data[base + 1] }
            } else if c == 3 {
                ColorU8 { r: data[base], g: data[base + 1], b: data[base + 2], a: 255 }
            } else {
                ColorU8 {
                    r: data[base],
                    g: data[base + 1],
                    b: data[base + 2],
                    a: data[base + 3],
                }
            };
            pixels.push(px);
            i = i + 1;
            base = base + c;
        }
        self.width = width;
        self.height = height;
        self.pitch = width;
        self.has_alpha_channel = channel_count == 2 || channel_count == 4;
        self.pixels = pixels;
    }

    /// Returns the pixel value at the given column and row, or `None`
    /// when the coordinates are outside the image.
    pub fn pixel_at(&self, x: u32, y: u32) -> (r: Option<ColorU8>)
        requires
            self.wf(),
        ensures
            r == if x < self.width && y < self.height {
                Some(self.spec_pixel(x as int, y as int))
            } else {
                Option::<ColorU8>::None
            },
    {
        if x < self.width && y < self.height {
            proof {
                lemma_row_major_index(x as int, y as int, self.pitch as int, self.height as int);
                vstd::arithmetic::mul::lemma_mul_upper_bound(
                    self.pitch as int,
                    crate::IMAGE_DIMENSION_MAX as int,
                    self.height as int,
                    crate::IMAGE_DIMENSION_MAX as int,
                );
            }
            let idx = (y as usize) * (self.pitch as usize) + (x as usize);
            Some(self.pixels[idx])
        } else {
            None
        }
    }

    /// Overwrites the pixel at the given column and row.
    pub fn set_pixel(&mut self, x: u32, y: u32, color: ColorU8)
        requires
            old(self).wf(),
            x < old(self).width,
            y < old(self).height,
        ensures
            final(self).wf(),
            final(self).width == old(self).width,
            final(self).height == old(self).height,
            final(self).pitch == old(self).pitch,
            final(self).has_alpha_channel == old(self).has_alpha_channel,
            final(self).pixels@ == old(self).pixels@.update(
                y * old(self).pitch + x,
                color,
            ),
    {
        proof {
            lemma_row_major_index(x as int, y as int, self.pitch as int, self.height as int);
            vstd::arithmetic::mul::lemma_mul_upper_bound(
                self.pitch as int,
                crate::IMAGE_DIMENSION_MAX as int,
                self.height as int,
                crate::IMAGE_DIMENSION_MAX as int,
            );
        }
        let idx = (y as usize) * (self.pitch as usize) + (x as usize);
        self.pixels.set(idx, color);
    }

    /// Returns the width of the image in pixels.
    pub fn width(&self) -> (r: u32)
        ensures
            r == self.width,
    {
        self.width
    }

    /// Returns the height of the image in pixels.
    pub fn height(&self) -> (r: u32)
        ensures
            r == self.height,
    {
        self.height
    }

    /// Returns the pitch of the image in pixels, the offset between rows.
    pub fn pitch(&self) -> (r: u32)
        ensures
            r == self.pitch,
    {
        self.pitch
    }

    /// Returns the total number of addressable pixels, width times height.
    pub fn total_pixels(&self) -> (r: u32)
        requires
            self.wf(),
        ensures
            r == self.width * self.height,
    {
        proof {
            vstd::arithmetic::mul::lemma_mul_upper_bound(
                self.width as int,
                crate::IMAGE_DIMENSION_MAX as int,
                self.height as int,
                crate::IMAGE_DIMENSION_MAX as int,
            );
        }
        mul_u32_wide(self.width, self.height) as u32
    }

    /// Returns how many blocks wide the image is, for a block `w` pixels
    /// wide.
    pub fn block_width(&self, w: u32) -> (r: u32)
        requires
            self.wf(),
            w >= 1,
        ensures
            r == (self.width + w - 1) / (w as int),
            r <= self.width,
    {
        proof {
            assert((self.width + w - 1) / (w as int) <= self.width) by (nonlinear_arith)
                requires
                    w >= 1,
                    self.width >= 0,
            ;
        }
        (((self.width as u64) + (w as u64) - 1) / (w as u64)) as u32
    }

    /// Returns how many blocks high the image is, for a block `h` pixels
    /// high.
    pub fn block_height(&self, h: u32) -> (r: u32)
        requires
            self.wf(),
            h >= 1,
        ensures
            r == (self.height + h - 1) / (h as int),
            r <= self.height,
    {
        proof {
            assert((self.height + h - 1) / (h as int) <= self.height) by (nonlinear_arith)
                requires
                    h >= 1,
                    self.height >= 0,
            ;
        }
        (((self.height as u64) + (h as u64) - 1) / (h as u64)) as u32
    }

    /// Returns the number of blocks required to store the image for a
    /// block of `w` by `h` pixels.
    pub fn total_blocks(&self, w: u32, h: u32) -> (r: u32)
        requires
            self.wf(),
            w >= 1,
            h >= 1,
        ensures
            r == ((self.width + w - 1) / (w as int)) * ((self.height + h - 1) / (h as int)),
    {
        let bw = self.block_width(w);
        let bh = self.block_height(h);
        proof {
            vstd::arithmetic::mul::lemma_mul_upper_bound(
                bw as int,
                crate::IMAGE_DIMENSION_MAX as int,
                bh as int,
                crate::IMAGE_DIMENSION_MAX as int,
            );
        }
        mul_u32_wide(bw, bh) as u32
    }

    /// Returns a reference to the pixel data.
    pub fn pixel_data(&self) -> (r: &Vec<ColorU8>)
        ensures
            r@ == self.pixels@,
    {
        &self.pixels
    }

    /// Returns the pixel data flattened to bytes, four per pixel in
    /// channel order.
    pub fn pixel_data_u8(&self) -> (r: Vec<u8>)
        ensures
            r@.len() == 4 * self.pixels@.len(),
            forall|i: int|
                0 <= i < self.pixels@.len() ==> r@[4 * i] == (#[trigger] self.pixels@[i]).r
                    && r@[4 * i + 1] == self.pixels@[i].g && r@[4 * i + 2] == self.pixels@[i].b
                    && r@[4 * i + 3] == self.pixels@[i].a,
    {
        let n = self.pixels.len();
        let mut out: Vec<u8> = Vec::new();
        let mut i: usize = 0;
        while i < n
            invariant
                n == self.pixels@.len(),
                i <= n,
                out@.len() == 4 * i,
                forall|j: int|
                    0 <= j < i ==> out@[4 * j] == (#[trigger] self.pixels@[j]).r && out@[4 * j
                        + 1] == self.pixels@[j].g && out@[4 * j + 2] == self.pixels@[j].b
                        && out@[4 * j + 3] == self.pixels@[j].a,
            decreases n - i,
        {
            let p = self.pixels[i];
            out.push(p.r);
            out.push(p.g);
            out.push(p.b);
            out.push(p.a);
            i = i + 1;
        }
        out
    }
}

} // verus!
