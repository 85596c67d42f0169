//! The container codec: binary serialization and parsing of the
//! container that the compressor emits and the transcoder reads.
//!
//! The wire format is a sequence of 32-bit little-endian words:
//!
//! | words          | content                                             |
//! |----------------|-----------------------------------------------------|
//! | 0..12          | header: magic, version, sub-format code, texture   |
//! |                | type code, two user-data words, image count, flags |
//! |                | (bit 0: alpha slices), slice count, payload word   |
//! |                | count, endpoint count, selector count              |
//! | 12             | header checksum: sum of words 0..12 modulo 2^32    |
//! | 13..           | endpoint table: two packed RGBA words per entry    |
//! | then           | selector table: one word per entry                 |
//! | then           | slice directory: nine words per slice              |
//! | then           | payload words                                      |
//! | last           | file checksum: sum of all words between the header |
//! |                | checksum and this word, modulo 2^32                |
//!
//! A slice directory entry stores image index, level index, original
//! width and height, block-grid width and height, payload offset and
//! length in words, and an alpha flag.
use vstd::prelude::*;
use crate::formats::BasisTextureFormat;
use crate::formats::BasisTextureType;
use crate::formats::mul_u32_wide;
use crate::image::ColorU8;

verus! {

/// The magic word at the start of every container.
pub const CONTAINER_MAGIC: u32 = 0x7853_5442;

/// The container format version this library reads and writes.
pub const CONTAINER_VERSION: u32 = 1;

/// The largest endpoint codebook a container may hold.
pub const ENDPOINT_COUNT_MAX: u32 = 65536;

/// The largest selector codebook a container may hold.
pub const SELECTOR_COUNT_MAX: u32 = 65536;

/// The largest number of slices a container may hold.
pub const SLICE_COUNT_MAX: u32 = 1048576;

/// The largest payload, in words, a container may hold.
pub const PAYLOAD_WORDS_MAX: u32 = 268435456;

/// A pair of block endpoints from the shared codebook: interpolation
/// runs from `lo` to `hi`.
#[derive(Copy, Clone, Debug, PartialEq, Eq, Structural)]
pub struct EndpointPair {
    pub lo: ColorU8,
    pub hi: ColorU8,
}

/// One slice directory entry: the stored payload for one
/// (image, level, color-or-alpha) unit.
#[derive(Copy, Clone, Debug, PartialEq, Eq, Structural)]
pub struct SliceDesc {
    /// The image this slice belongs to.
    pub image_index: u32,
    /// The mip level this slice belongs to.
    pub level_index: u32,
    /// Original width in pixels; not necessarily a multiple of 4.
    pub orig_width: u32,
    /// Original height in pixels; not necessarily a multiple of 4.
    pub orig_height: u32,
    /// Block-grid width: `(orig_width + 3) / 4`.
    pub num_blocks_x: u32,
    /// Block-grid height: `(orig_height + 3) / 4`.
    pub num_blocks_y: u32,
    /// Offset of this slice's data in the payload, in words.
    pub payload_offset: u32,
    /// Length of this slice's data in the payload, in words.
    pub payload_len: u32,
    /// Whether this slice holds alpha data rather than color data.
    pub is_alpha: bool,
    /// Whether every pixel of this slice decodes with alpha 255; the
    /// compressor sets it for images without an alpha channel, and the
    /// transcoder forces the alpha channel opaque for such slices.
    pub is_opaque: bool,
}

/// A parsed container: header fields, the shared codebooks, the slice
/// directory, and the payload words.
pub struct BasisContainer {
    pub tex_format: BasisTextureFormat,
    pub tex_type: BasisTextureType,
    pub userdata0: u32,
    pub userdata1: u32,
    pub total_images: u32,
    pub has_alpha: bool,
    pub endpoints: Vec<EndpointPair>,
    pub selectors: Vec<u32>,
    pub slices: Vec<SliceDesc>,
    pub payload: Vec<u32>,
}

/// The mathematical model of a container.
pub ghost struct ContainerModel {
    pub tex_format: BasisTextureFormat,
    pub tex_type: BasisTextureType,
    pub userdata0: u32,
    pub userdata1: u32,
    pub total_images: u32,
    pub has_alpha: bool,
    pub endpoints: Seq<EndpointPair>,
    pub selectors: Seq<u32>,
    pub slices: Seq<SliceDesc>,
    pub payload: Seq<u32>,
}

impl View for BasisContainer {
    type V = ContainerModel;

    open spec fn view(&self) -> ContainerModel {
        ContainerModel {
            tex_format: self.tex_format,
            tex_type: self.tex_type,
            userdata0: self.userdata0,
            userdata1: self.userdata1,
            total_images: self.total_images,
            has_alpha: self.has_alpha,
            endpoints: self.endpoints@,
            selectors: self.selectors@,
            slices: self.slices@,
            payload: self.payload@,
        }
    }
}

/// A color packed into one word: red in the low byte, alpha in the high
/// byte.
pub open spec fn spec_pack_color(c: ColorU8) -> u32 {
    (c.r as u32) | (c.g as u32) << 8 | (c.b as u32) << 16 | (c.a as u32) << 24
}

/// The color a packed word holds.
pub open spec fn spec_unpack_color(w: u32) -> ColorU8 {
    ColorU8 {
        r: (w & 0xff) as u8,
        g: ((w >> 8) & 0xff) as u8,
        b: ((w >> 16) & 0xff) as u8,
        a: ((w >> 24) & 0xff) as u8,
    }
}

/// Unpacking a packed color gives the color back.
pub proof fn lemma_color_pack_roundtrip(c: ColorU8)
    ensures
        spec_unpack_color(spec_pack_color(c)) == c,
{
    let r = c.r;
    let g = c.g;
    let b = c.b;
    let a = c.a;
    let w = spec_pack_color(c);
    assert(((r as u32 | (g as u32) << 8 | (b as u32) << 16 | (a as u32) << 24) & 0xff) as u8 == r
        && (((r as u32 | (g as u32) << 8 | (b as u32) << 16 | (a as u32) << 24) >> 8) & 0xff) as u8
        == g && (((r as u32 | (g as u32) << 8 | (b as u32) << 16 | (a as u32) << 24) >> 16)
        & 0xff) as u8 == b && (((r as u32 | (g as u32) << 8 | (b as u32) << 16 | (a as u32) << 24)
        >> 24) & 0xff) as u8 == a) by (bit_vector);
}

/// A color packed into one word.
pub fn pack_color(c: ColorU8) -> (w: u32)
    ensures
        w == spec_pack_color(c),
{
    (c.r as u32) | (c.g as u32) << 8 | (c.b as u32) << 16 | (c.a as u32) << 24
}

/// The color a packed word holds.
pub fn unpack_color(w: u32) -> (c: ColorU8)
    ensures
        c == spec_unpack_color(w),
{
    ColorU8 {
        r: (w & 0xff) as u8,
        g: ((w >> 8) & 0xff) as u8,
        b: ((w >> 16) & 0xff) as u8,
        a: ((w >> 24) & 0xff) as u8,
    }
}

/// The sum of a sequence of words, as an unbounded integer.
pub open spec fn spec_word_sum(ws: Seq<u32>) -> int
    decreases ws.len(),
{
    if ws.len() == 0 {
        0
    } else {
        spec_word_sum(ws.drop_last()) + ws.last()
    }
}

/// The checksum of a sequence of words: its sum modulo 2^32.
pub open spec fn spec_word_checksum(ws: Seq<u32>) -> u32 {
    (spec_word_sum(ws) % 0x1_0000_0000) as u32
}

/// The word sum of one more prefix element.
pub proof fn lemma_word_sum_take_step(ws: Seq<u32>, i: int)
    requires
        0 <= i < ws.len(),
    ensures
        spec_word_sum(ws.take(i + 1)) == spec_word_sum(ws.take(i)) + ws[i],
{
    assert(ws.take(i + 1).drop_last() =~= ws.take(i));
    assert(ws.take(i + 1).last() == ws[i]);
}

/// The sum of the words of `ws` between `from` and `to`, modulo 2^32.
pub fn word_checksum_range(ws: &Vec<u32>, from: usize, to: usize) -> (r: u32)
    requires
        from <= to <= ws@.len(),
        to - from <= 0x1_0000_0000,
    ensures
        r == spec_word_checksum(ws@.subrange(from as int, to as int)),
{
    let sub = Ghost(ws@.subrange(from as int, to as int));
    let mut acc: u64 = 0;
    let mut i: usize = from;
    while i < to
        invariant
            from <= i <= to <= ws@.len(),
            to - from <= 0x1_0000_0000,
            sub@ == ws@.subrange(from as int, to as int),
            acc == spec_word_sum(sub@.take(i - from)),
            acc <= (i - from) * 0x1_0000_0000,
        decreases to - i,
    {
        proof {
            lemma_word_sum_take_step(sub@, i - from);
            assert((i - from) * 0x1_0000_0000 + 0x1_0000_0000 == (i + 1 - from)
                * 0x1_0000_0000) by (nonlinear_arith);
            assert((i + 1 - from) * 0x1_0000_0000 <= (to - from) * 0x1_0000_0000
                && (to - from) * 0x1_0000_0000 <= 0x1_0000_0000_0000_0000) by (nonlinear_arith)
                requires
                    i < to,
                    from <= i,
                    to - from <= 0x1_0000_0000,
            ;
        }
        acc = acc + (ws[i] as u64);
        i = i + 1;
    }
    proof {
        assert(sub@.take(to - from) =~= sub@);
    }
    (acc % 0x1_0000_0000) as u32
}

/// Byte `j` of a word, little-endian.
pub open spec fn spec_word_le_byte(w: u32, j: int) -> u8 {
    if j == 0 {
        (w & 0xff) as u8
    } else if j == 1 {
        ((w >> 8) & 0xff) as u8
    } else if j == 2 {
        ((w >> 16) & 0xff) as u8
    } else {
        ((w >> 24) & 0xff) as u8
    }
}

/// The word four little-endian bytes describe.
pub open spec fn spec_word_of_bytes(b0: u8, b1: u8, b2: u8, b3: u8) -> u32 {
    (b0 as u32) | (b1 as u32) << 8 | (b2 as u32) << 16 | (b3 as u32) << 24
}

/// Reading back the four little-endian bytes of a word gives the word.
pub proof fn lemma_word_le_roundtrip(w: u32)
    ensures
        spec_word_of_bytes(
            spec_word_le_byte(w, 0),
            spec_word_le_byte(w, 1),
            spec_word_le_byte(w, 2),
            spec_word_le_byte(w, 3),
        ) == w,
{
    assert(((w & 0xff) as u8 as u32) | (((w >> 8) & 0xff) as u8 as u32) << 8 | (((w >> 16)
        & 0xff) as u8 as u32) << 16 | (((w >> 24) & 0xff) as u8 as u32) << 24
        == w) by (bit_vector);
}

/// The bytes of a word sequence, each word little-endian.
pub open spec fn spec_words_to_bytes(ws: Seq<u32>) -> Seq<u8> {
    Seq::new((4 * ws.len()) as nat, |k: int| spec_word_le_byte(ws[k / 4], k % 4))
}

/// The words of a byte sequence whose length is a multiple of four.
pub open spec fn spec_bytes_to_words(d: Seq<u8>) -> Seq<u32> {
    Seq::new(
        (d.len() / 4) as nat,
        |i: int| spec_word_of_bytes(d[4 * i], d[4 * i + 1], d[4 * i + 2], d[4 * i + 3]),
    )
}

/// Reading back the bytes of a word sequence gives the words.
pub proof fn lemma_words_bytes_roundtrip(ws: Seq<u32>)
    ensures
        spec_words_to_bytes(ws).len() == 4 * ws.len(),
        spec_bytes_to_words(spec_words_to_bytes(ws)) == ws,
{
    let d = spec_words_to_bytes(ws);
    assert forall|i: int| 0 <= i < ws.len() implies spec_bytes_to_words(d)[i] == ws[i] by {
        lemma_word_le_roundtrip(ws[i]);
    }
    assert(spec_bytes_to_words(d) =~= ws);
}

impl SliceDesc {
    /// The slice directory word at position `j` of this entry.
    pub open spec fn spec_field(self, j: int) -> u32 {
        if j == 0 {
            self.image_index
        } else if j == 1 {
            self.level_index
        } else if j == 2 {
            self.orig_width
        } else if j == 3 {
            self.orig_height
        } else if j == 4 {
            self.num_blocks_x
        } else if j == 5 {
            self.num_blocks_y
        } else if j == 6 {
            self.payload_offset
        } else if j == 7 {
            self.payload_len
        } else {
            ((if self.is_alpha {
                1int
            } else {
                0int
            }) + (if self.is_opaque {
                2int
            } else {
                0int
            })) as u32
        }
    }
}

/// The payload words one block occupies: one word for an ETC1S block
/// (endpoint and selector indices), four for a UASTC block.
pub open spec fn spec_unit_words(fmt: BasisTextureFormat) -> int {
    if fmt == BasisTextureFormat::ETC1S {
        1
    } else {
        4
    }
}

/// Whether a slice directory entry is consistent: the block grid is
/// derived from the original dimensions, the payload range lies inside
/// the payload, and alpha slices appear only in ETC1S containers.
pub open spec fn spec_slice_ok(
    s: SliceDesc,
    fmt: BasisTextureFormat,
    total_images: u32,
    payload_words: int,
) -> bool {
    &&& s.image_index < total_images
    &&& 1 <= s.orig_width <= crate::TEXTURE_DIMENSION_MAX
    &&& 1 <= s.orig_height <= crate::TEXTURE_DIMENSION_MAX
    &&& s.num_blocks_x == (s.orig_width + 3) / 4
    &&& s.num_blocks_y == (s.orig_height + 3) / 4
    &&& s.payload_len == s.num_blocks_x * s.num_blocks_y * spec_unit_words(fmt)
    &&& s.payload_offset + s.payload_len <= payload_words
    &&& fmt == BasisTextureFormat::UASTC4x4 ==> !s.is_alpha
}

/// Slice directory order: strictly increasing by image, then level,
/// then the alpha flag (color before alpha), so that each
/// (image, level, alpha) unit appears at most once.
pub open spec fn spec_slice_less(a: SliceDesc, b: SliceDesc) -> bool {
    ||| a.image_index < b.image_index
    ||| (a.image_index == b.image_index && a.level_index < b.level_index)
    ||| (a.image_index == b.image_index && a.level_index == b.level_index && !a.is_alpha
        && b.is_alpha)
}

impl ContainerModel {
    /// The structural invariant of a container model.
    pub open spec fn wf(self) -> bool {
        &&& self.endpoints.len() <= ENDPOINT_COUNT_MAX
        &&& self.selectors.len() <= SELECTOR_COUNT_MAX
        &&& self.slices.len() <= SLICE_COUNT_MAX
        &&& self.payload.len() <= PAYLOAD_WORDS_MAX
        &&& forall|i: int|
            0 <= i < self.slices.len() ==> spec_slice_ok(
                #[trigger] self.slices[i],
                self.tex_format,
                self.total_images,
                self.payload.len() as int,
            )
        &&& forall|i: int|
            1 <= i < self.slices.len() ==> spec_slice_less(self.slices[i - 1], #[trigger] self.slices[i])
        &&& spec_slices_structured(self.slices)
    }

    /// The header word at position `j`.
    pub open spec fn spec_header_field(self, j: int) -> u32 {
        if j == 0 {
            CONTAINER_MAGIC
        } else if j == 1 {
            CONTAINER_VERSION
        } else if j == 2 {
            self.tex_format.spec_code()
        } else if j == 3 {
            self.tex_type.spec_code()
        } else if j == 4 {
            self.userdata0
        } else if j == 5 {
            self.userdata1
        } else if j == 6 {
            self.total_images
        } else if j == 7 {
            if self.has_alpha {
                1
            } else {
                0
            }
        } else if j == 8 {
            self.slices.len() as u32
        } else if j == 9 {
            self.payload.len() as u32
        } else if j == 10 {
            self.endpoints.len() as u32
        } else {
            self.selectors.len() as u32
        }
    }

    /// The twelve header words.
    pub open spec fn spec_header_words(self) -> Seq<u32> {
        Seq::new(12, |j: int| self.spec_header_field(j))
    }

    /// The number of words between the header checksum and the file
    /// checksum.
    pub open spec fn spec_mid_len(self) -> int {
        2 * (self.endpoints.len() as int) + (self.selectors.len() as int) + 9 * (
        self.slices.len() as int) + (self.payload.len() as int)
    }

    /// The word at position `j` of the middle section: endpoint table,
    /// selector table, slice directory, payload.
    pub open spec fn spec_mid_word(self, j: int) -> u32 {
        let ne = self.endpoints.len() as int;
        let ns = self.selectors.len() as int;
        let nsl = self.slices.len() as int;
        if j < 2 * ne {
            if j % 2 == 0 {
                spec_pack_color(self.endpoints[j / 2].lo)
            } else {
                spec_pack_color(self.endpoints[j / 2].hi)
            }
        } else if j < 2 * ne + ns {
            self.selectors[j - 2 * ne]
        } else if j < 2 * ne + ns + 9 * nsl {
            let k = j - 2 * ne - ns;
            self.slices[k / 9].spec_field(k % 9)
        } else {
            self.payload[j - 2 * ne - ns - 9 * nsl]
        }
    }

    /// The middle section as a word sequence.
    pub open spec fn spec_mid_words(self) -> Seq<u32> {
        Seq::new(self.spec_mid_len() as nat, |j: int| self.spec_mid_word(j))
    }

    /// The serialized container as a word sequence: header, header
    /// checksum, middle section, file checksum.
    pub open spec fn spec_ser_words(self) -> Seq<u32> {
        self.spec_header_words() + seq![spec_word_checksum(self.spec_header_words())]
            + self.spec_mid_words() + seq![spec_word_checksum(self.spec_mid_words())]
    }

    /// The serialized container as bytes.
    pub open spec fn spec_ser_bytes(self) -> Seq<u8> {
        spec_words_to_bytes(self.spec_ser_words())
    }
}

/// The sub-format a valid word sequence stores.
pub open spec fn spec_stored_format(ws: Seq<u32>) -> BasisTextureFormat {
    if ws[2] == 0 {
        BasisTextureFormat::ETC1S
    } else {
        BasisTextureFormat::UASTC4x4
    }
}

/// The texture type a valid word sequence stores.
pub open spec fn spec_stored_type(ws: Seq<u32>) -> BasisTextureType {
    if ws[3] == 0 {
        BasisTextureType::TextureType2D
    } else if ws[3] == 1 {
        BasisTextureType::TextureType2DArray
    } else if ws[3] == 2 {
        BasisTextureType::TextureTypeCubemapArray
    } else if ws[3] == 3 {
        BasisTextureType::TextureTypeVideoFrames
    } else {
        BasisTextureType::TextureTypeVolume
    }
}

/// The first word of the slice directory.
pub open spec fn spec_slice_base(ws: Seq<u32>) -> int {
    13 + 2 * (ws[10] as int) + (ws[11] as int)
}

/// The first word of the payload.
pub open spec fn spec_payload_base(ws: Seq<u32>) -> int {
    spec_slice_base(ws) + 9 * (ws[8] as int)
}

/// The slice directory entry at index `i` of a word sequence.
pub open spec fn spec_slice_at(ws: Seq<u32>, i: int) -> SliceDesc {
    let b = spec_slice_base(ws) + 9 * i;
    SliceDesc {
        image_index: ws[b],
        level_index: ws[b + 1],
        orig_width: ws[b + 2],
        orig_height: ws[b + 3],
        num_blocks_x: ws[b + 4],
        num_blocks_y: ws[b + 5],
        payload_offset: ws[b + 6],
        payload_len: ws[b + 7],
        is_alpha: ws[b + 8] == 1 || ws[b + 8] == 3,
        is_opaque: ws[b + 8] == 2 || ws[b + 8] == 3,
    }
}

/// Whether a word sequence is a structurally valid container: magic and
/// version match, the codes decode, the section lengths add up, and the
/// slice directory is consistent and ordered. Checksums are not part of
/// validity; they are verified separately.
pub open spec fn spec_words_valid(ws: Seq<u32>) -> bool {
    &&& ws.len() >= 14
    &&& ws[0] == CONTAINER_MAGIC
    &&& ws[1] == CONTAINER_VERSION
    &&& ws[2] <= 1
    &&& ws[3] <= 4
    &&& ws[7] <= 1
    &&& ws[8] <= SLICE_COUNT_MAX
    &&& ws[9] <= PAYLOAD_WORDS_MAX
    &&& ws[10] <= ENDPOINT_COUNT_MAX
    &&& ws[11] <= SELECTOR_COUNT_MAX
    &&& ws.len() == 14 + 2 * (ws[10] as int) + (ws[11] as int) + 9 * (ws[8] as int) + (
    ws[9] as int)
    &&& spec_slices_checked(ws)
    &&& spec_slices_structured(spec_stored_slices(ws))
}

/// Entry `i` of the stored slice directory is consistent: its flag word
/// holds only the alpha bit, and the entry passes [`spec_slice_ok`].
pub open spec fn spec_stored_slice_ok(ws: Seq<u32>, i: int) -> bool {
    &&& ws[spec_slice_base(ws) + 9 * i + 8] <= 3
    &&& spec_slice_ok(spec_slice_at(ws, i), spec_stored_format(ws), ws[6], ws[9] as int)
}

/// Entry `i` of the stored slice directory comes strictly after entry
/// `i - 1`.
pub open spec fn spec_stored_slice_ordered(ws: Seq<u32>, i: int) -> bool {
    spec_slice_less(spec_slice_at(ws, i - 1), spec_slice_at(ws, i))
}

/// The slice directory entries a word sequence stores, in order.
pub open spec fn spec_stored_slices(ws: Seq<u32>) -> Seq<SliceDesc> {
    Seq::new(ws[8] as nat, |i: int| spec_slice_at(ws, i))
}

/// Entry `si` of a slice directory is structured: a color slice's
/// level index is the number of color slices of its image before it
/// (so each image's levels are exactly 0 up to its level count), and
/// an alpha slice immediately follows the color slice it pairs.
pub open spec fn spec_slice_structured(slices: Seq<SliceDesc>, si: int) -> bool {
    if slices[si].is_alpha {
        &&& si >= 1
        &&& slices[si - 1].image_index == slices[si].image_index
        &&& slices[si - 1].level_index == slices[si].level_index
        &&& !slices[si - 1].is_alpha
    } else {
        slices[si].level_index == spec_level_count(slices.take(si), slices[si].image_index)
    }
}

/// Every entry of a slice directory is structured.
pub open spec fn spec_slices_structured(slices: Seq<SliceDesc>) -> bool {
    forall|i: int| 0 <= i < slices.len() ==> #[trigger] spec_slice_structured(slices, i)
}

/// The per-entry and ordering part of container validity: every entry
/// is consistent and the directory is strictly ordered.
pub open spec fn spec_slices_checked(ws: Seq<u32>) -> bool {
    &&& forall|i: int| 0 <= i < ws[8] as int ==> #[trigger] spec_stored_slice_ok(ws, i)
    &&& forall|i: int| 1 <= i < ws[8] as int ==> #[trigger] spec_stored_slice_ordered(ws, i)
}

/// The slice directory checks restricted to the first `n` entries.
pub open spec fn spec_checked_prefix(ws: Seq<u32>, n: int) -> bool {
    &&& forall|i: int| 0 <= i < n ==> #[trigger] spec_stored_slice_ok(ws, i)
    &&& forall|i: int| 1 <= i < n ==> #[trigger] spec_stored_slice_ordered(ws, i)
}

/// The empty prefix passes the slice directory checks.
pub proof fn lemma_checked_prefix_zero(ws: Seq<u32>)
    ensures
        spec_checked_prefix(ws, 0),
{
}

/// One more entry that passes its checks extends a checked prefix.
pub proof fn lemma_checked_prefix_step(ws: Seq<u32>, n: int)
    requires
        spec_checked_prefix(ws, n),
        n >= 0,
        spec_stored_slice_ok(ws, n),
        n >= 1 ==> spec_stored_slice_ordered(ws, n),
    ensures
        spec_checked_prefix(ws, n + 1),
{
}

/// A prefix that covers the whole directory passes the checks.
pub proof fn lemma_checked_prefix_full(ws: Seq<u32>)
    requires
        spec_checked_prefix(ws, ws[8] as int),
    ensures
        spec_slices_checked(ws),
{
}

/// An entry that fails its consistency check refutes the directory
/// checks.
pub proof fn lemma_checked_violation_entry(ws: Seq<u32>, i: int)
    requires
        0 <= i < ws[8] as int,
        !spec_stored_slice_ok(ws, i),
    ensures
        !spec_slices_checked(ws),
{
}

/// A pair of entries out of order refutes the directory checks.
pub proof fn lemma_checked_violation_order(ws: Seq<u32>, i: int)
    requires
        1 <= i < ws[8] as int,
        !spec_stored_slice_ordered(ws, i),
    ensures
        !spec_slices_checked(ws),
{
}

/// The container model a valid word sequence stores.
pub open spec fn spec_extract(ws: Seq<u32>) -> ContainerModel {
    ContainerModel {
        tex_format: spec_stored_format(ws),
        tex_type: spec_stored_type(ws),
        userdata0: ws[4],
        userdata1: ws[5],
        total_images: ws[6],
        has_alpha: ws[7] == 1,
        endpoints: Seq::new(
            ws[10] as nat,
            |i: int|
                EndpointPair {
                    lo: spec_unpack_color(ws[13 + 2 * i]),
                    hi: spec_unpack_color(ws[13 + 2 * i + 1]),
                },
        ),
        selectors: Seq::new(ws[11] as nat, |i: int| ws[13 + 2 * (ws[10] as int) + i]),
        slices: Seq::new(ws[8] as nat, |i: int| spec_slice_at(ws, i)),
        payload: Seq::new(ws[9] as nat, |i: int| ws[spec_payload_base(ws) + i]),
    }
}

/// What parsing a byte buffer yields: the stored container when the
/// buffer is a structurally valid container, nothing otherwise.
pub open spec fn spec_parse(d: Seq<u8>) -> Option<ContainerModel> {
    if d.len() % 4 == 0 && spec_words_valid(spec_bytes_to_words(d)) {
        Some(spec_extract(spec_bytes_to_words(d)))
    } else {
        None
    }
}

/// Whether the stored checksums of a valid container's words match its
/// content; the header checksum always, the file checksum only when
/// `full` is set.
pub open spec fn spec_checksums_ok(ws: Seq<u32>, full: bool) -> bool {
    &&& ws[12] == spec_word_checksum(ws.take(12))
    &&& full ==> ws.last() == spec_word_checksum(ws.subrange(13, ws.len() - 1))
}

/// Where each word of a serialized container comes from.
pub proof fn lemma_ser_layout(c: ContainerModel)
    ensures
        c.spec_ser_words().len() == 14 + c.spec_mid_len(),
        forall|j: int| 0 <= j < 12 ==> c.spec_ser_words()[j] == c.spec_header_field(j),
        c.spec_ser_words()[12] == spec_word_checksum(c.spec_header_words()),
        forall|j: int|
            0 <= j < c.spec_mid_len() ==> c.spec_ser_words()[13 + j] == #[trigger] c.spec_mid_word(
                j,
            ),
        c.spec_ser_words().last() == spec_word_checksum(c.spec_mid_words()),
        c.spec_ser_words().take(12) == c.spec_header_words(),
        c.spec_ser_words().subrange(13, c.spec_ser_words().len() - 1) == c.spec_mid_words(),
{
    let ws = c.spec_ser_words();
    assert forall|j: int| 0 <= j < c.spec_mid_len() implies ws[13 + j] == #[trigger] c
        .spec_mid_word(j) by {
        assert(ws[13 + j] == c.spec_mid_words()[j]);
    }
    assert(ws.take(12) =~= c.spec_header_words());
    assert(ws.subrange(13, ws.len() - 1) =~= c.spec_mid_words());
}

/// One slice directory entry of a serialized container stores the
/// corresponding slice.
#[verifier::rlimit(100)]
#[verifier::spinoff_prover]
pub proof fn lemma_ser_slice_entry(c: ContainerModel, i: int)
    requires
        c.wf(),
        0 <= i < c.slices.len(),
    ensures
        spec_slice_at(c.spec_ser_words(), i) == c.slices[i],
        c.spec_ser_words()[spec_slice_base(c.spec_ser_words()) + 9 * i + 8] <= 3,
{
    lemma_ser_layout(c);
    let ws = c.spec_ser_words();
    let ne = c.endpoints.len() as int;
    let ns = c.selectors.len() as int;
    assert(ws[10] == c.spec_header_field(10));
    assert(ws[11] == c.spec_header_field(11));
    assert(spec_slice_base(ws) == 13 + 2 * ne + ns);
    let b = spec_slice_base(ws) + 9 * i;
    assert forall|f: int| 0 <= f < 9 implies ws[b + f] == c.slices[i].spec_field(f) by {
        let j = 2 * ne + ns + 9 * i + f;
        let k = 9 * i + f;
        assert(b + f == 13 + j);
        assert(ws[13 + j] == c.spec_mid_word(j));
        assert(k / 9 == i && k % 9 == f) by (nonlinear_arith)
            requires
                k == 9 * i + f,
                0 <= f < 9,
                0 <= i,
        ;
        assert(c.spec_mid_word(j) == c.slices[k / 9].spec_field(k % 9));
    }
    assert(ws[b + 0] == c.slices[i].spec_field(0));
    assert(ws[b + 1] == c.slices[i].spec_field(1));
    assert(ws[b + 2] == c.slices[i].spec_field(2));
    assert(ws[b + 3] == c.slices[i].spec_field(3));
    assert(ws[b + 4] == c.slices[i].spec_field(4));
    assert(ws[b + 5] == c.slices[i].spec_field(5));
    assert(ws[b + 6] == c.slices[i].spec_field(6));
    assert(ws[b + 7] == c.slices[i].spec_field(7));
    assert(ws[b + 8] == c.slices[i].spec_field(8));
    assert(spec_slice_at(ws, i) == c.slices[i]);
}

/// The slice directory of a serialized container stores its slices.
pub proof fn lemma_ser_slices(c: ContainerModel)
    requires
        c.wf(),
    ensures
        spec_slice_base(c.spec_ser_words()) == 13 + 2 * c.endpoints.len()
            + c.selectors.len(),
        forall|i: int|
            0 <= i < c.slices.len() ==> #[trigger] spec_slice_at(c.spec_ser_words(), i)
                == c.slices[i] && c.spec_ser_words()[spec_slice_base(c.spec_ser_words()) + 9 * i
                + 8] <= 3,
{
    lemma_ser_layout(c);
    let ws = c.spec_ser_words();
    assert(ws[10] == c.spec_header_field(10));
    assert(ws[11] == c.spec_header_field(11));
    assert forall|i: int| 0 <= i < c.slices.len() implies #[trigger] spec_slice_at(ws, i)
        == c.slices[i] && ws[spec_slice_base(ws) + 9 * i + 8] <= 3 by {
        lemma_ser_slice_entry(c, i);
    }
}

/// A serialized well-formed container is structurally valid.
#[verifier::spinoff_prover]
pub proof fn lemma_ser_words_valid(c: ContainerModel)
    requires
        c.wf(),
    ensures
        spec_words_valid(c.spec_ser_words()),
        spec_checksums_ok(c.spec_ser_words(), true),
{
    lemma_ser_layout(c);
    lemma_ser_slices(c);
    let ws = c.spec_ser_words();
    assert(ws[0] == c.spec_header_field(0));
    assert(ws[1] == c.spec_header_field(1));
    assert(ws[2] == c.spec_header_field(2));
    assert(ws[3] == c.spec_header_field(3));
    assert(ws[6] == c.spec_header_field(6));
    assert(ws[7] == c.spec_header_field(7));
    assert(ws[8] == c.spec_header_field(8));
    assert(ws[9] == c.spec_header_field(9));
    assert(ws[10] == c.spec_header_field(10));
    assert(ws[11] == c.spec_header_field(11));
    assert(spec_stored_format(ws) == c.tex_format);
    assert forall|i: int| 0 <= i < ws[8] as int implies #[trigger] spec_stored_slice_ok(
        ws,
        i,
    ) by {
        assert(spec_slice_at(ws, i) == c.slices[i]);
        assert(ws[spec_slice_base(ws) + 9 * i + 8] <= 3);
    }
    assert forall|i: int| 1 <= i < ws[8] as int implies #[trigger] spec_stored_slice_ordered(
        ws,
        i,
    ) by {
        assert(spec_slice_at(ws, i - 1) == c.slices[i - 1]);
        assert(spec_slice_at(ws, i) == c.slices[i]);
    }
    assert(spec_stored_slices(ws) =~= c.slices);
}

/// A serialized well-formed container stores exactly its model.
#[verifier::spinoff_prover]
pub proof fn lemma_ser_extract(c: ContainerModel)
    requires
        c.wf(),
    ensures
        spec_extract(c.spec_ser_words()) == c,
{
    lemma_ser_layout(c);
    lemma_ser_slices(c);
    let ws = c.spec_ser_words();
    let ne = c.endpoints.len() as int;
    let ns = c.selectors.len() as int;
    let nsl = c.slices.len() as int;
    let pw = c.payload.len() as int;
    let e = spec_extract(ws);
    assert(ws[2] == c.spec_header_field(2));
    assert(ws[3] == c.spec_header_field(3));
    assert(ws[4] == c.spec_header_field(4));
    assert(ws[5] == c.spec_header_field(5));
    assert(ws[6] == c.spec_header_field(6));
    assert(ws[7] == c.spec_header_field(7));
    assert(ws[8] == c.spec_header_field(8));
    assert(ws[9] == c.spec_header_field(9));
    assert(ws[10] == c.spec_header_field(10));
    assert(ws[11] == c.spec_header_field(11));
    assert(e.tex_format == c.tex_format);
    assert(e.tex_type == c.tex_type);
    assert forall|i: int| 0 <= i < ne implies e.endpoints[i] == c.endpoints[i] by {
        assert(ws[13 + 2 * i] == c.spec_mid_word(2 * i));
        assert(ws[13 + (2 * i + 1)] == c.spec_mid_word(2 * i + 1));
        assert((2 * i) / 2 == i && (2 * i) % 2 == 0 && (2 * i + 1) / 2 == i && (2 * i + 1) % 2
            == 1) by (nonlinear_arith)
            requires
                0 <= i,
        ;
        lemma_color_pack_roundtrip(c.endpoints[i].lo);
        lemma_color_pack_roundtrip(c.endpoints[i].hi);
    }
    assert(e.endpoints =~= c.endpoints);
    assert forall|i: int| 0 <= i < ns implies e.selectors[i] == c.selectors[i] by {
        assert(ws[13 + (2 * ne + i)] == c.spec_mid_word(2 * ne + i));
    }
    assert(e.selectors =~= c.selectors);
    assert(e.slices =~= c.slices);
    assert forall|i: int| 0 <= i < pw implies e.payload[i] == c.payload[i] by {
        let j = 2 * ne + ns + 9 * nsl + i;
        assert(spec_payload_base(ws) + i == 13 + j);
        assert(ws[13 + j] == c.spec_mid_word(j));
    }
    assert(e.payload =~= c.payload);
}

/// Parsing the serialization of a well-formed container gives the
/// container back.
pub proof fn lemma_parse_ser(c: ContainerModel)
    requires
        c.wf(),
    ensures
        spec_parse(c.spec_ser_bytes()) == Some(c),
{
    lemma_ser_words_valid(c);
    lemma_ser_extract(c);
    lemma_words_bytes_roundtrip(c.spec_ser_words());
}

/// The model a valid word sequence stores is well formed.
pub proof fn lemma_valid_extract_wf(ws: Seq<u32>)
    requires
        spec_words_valid(ws),
    ensures
        spec_extract(ws).wf(),
{
    let e = spec_extract(ws);
    assert forall|i: int| 0 <= i < e.slices.len() implies spec_slice_ok(
        #[trigger] e.slices[i],
        e.tex_format,
        e.total_images,
        e.payload.len() as int,
    ) by {
        assert(e.slices[i] == spec_slice_at(ws, i));
        assert(spec_stored_slice_ok(ws, i));
    }
    assert forall|i: int| 1 <= i < e.slices.len() implies spec_slice_less(
        e.slices[i - 1],
        #[trigger] e.slices[i],
    ) by {
        assert(e.slices[i] == spec_slice_at(ws, i));
        assert(e.slices[i - 1] == spec_slice_at(ws, i - 1));
        assert(spec_stored_slice_ordered(ws, i));
    }
    assert(e.slices =~= spec_stored_slices(ws));
}

/// The words of a byte buffer whose length is a multiple of four.
pub fn bytes_to_words(data: &[u8]) -> (r: Vec<u32>)
    requires
        data@.len() % 4 == 0,
    ensures
        r@ == spec_bytes_to_words(data@),
{
    let n = data.len() / 4;
    let mut ws: Vec<u32> = Vec::new();
    let mut i: usize = 0;
    while i < n
        invariant
            data@.len() % 4 == 0,
            n == data@.len() / 4,
            4 * n <= data@.len(),
            data@.len() <= usize::MAX,
            i <= n,
            ws@.len() == i,
            forall|j: int|
                0 <= j < i ==> ws@[j] == spec_word_of_bytes(
                    data@[4 * j],
                    data@[4 * j + 1],
                    data@[4 * j + 2],
                    data@[4 * j + 3],
                ),
        decreases n - i,
    {
        let w = (data[4 * i] as u32) | (data[4 * i + 1] as u32) << 8 | (data[4 * i + 2] as u32)
            << 16 | (data[4 * i + 3] as u32) << 24;
        ws.push(w);
        i = i + 1;
    }
    proof {
        assert(ws@ =~= spec_bytes_to_words(data@));
    }
    ws
}

/// The bytes of a word buffer, each word little-endian.
pub fn words_to_bytes(ws: &Vec<u32>) -> (r: Vec<u8>)
    requires
        4 * ws@.len() <= u32::MAX,
    ensures
        r@ == spec_words_to_bytes(ws@),
{
    let n = ws.len();
    let mut out: Vec<u8> = Vec::new();
    let mut i: usize = 0;
    while i < n
        invariant
            n == ws@.len(),
            4 * n <= u32::MAX,
            i <= n,
            out@.len() == 4 * i,
            forall|k: int|
                0 <= k < 4 * i ==> out@[k] == spec_word_le_byte(ws@[k / 4], k % 4),
        decreases n - i,
    {
        let w = ws[i];
        out.push((w & 0xff) as u8);
        out.push(((w >> 8) & 0xff) as u8);
        out.push(((w >> 16) & 0xff) as u8);
        out.push(((w >> 24) & 0xff) as u8);
        i = i + 1;
    }
    proof {
        assert(out@ =~= spec_words_to_bytes(ws@));
    }
    out
}

/// Whether `a` comes strictly before `b` in slice directory order.
pub fn slice_less(a: &SliceDesc, b: &SliceDesc) -> (r: bool)
    ensures
        r == spec_slice_less(*a, *b),
{
    if a.image_index < b.image_index {
        true
    } else if a.image_index == b.image_index && a.level_index < b.level_index {
        true
    } else if a.image_index == b.image_index && a.level_index == b.level_index && !a.is_alpha
        && b.is_alpha {
        true
    } else {
        false
    }
}

/// Whether a parsed slice directory entry is consistent; see
/// [`spec_slice_ok`].
pub fn check_slice(
    s: &SliceDesc,
    fmt: BasisTextureFormat,
    total_images: u32,
    payload_words: u32,
) -> (r: bool)
    ensures
        r == spec_slice_ok(*s, fmt, total_images, payload_words as int),
{
    if s.image_index >= total_images {
        return false;
    }
    if s.orig_width < 1 || s.orig_width > crate::TEXTURE_DIMENSION_MAX || s.orig_height < 1
        || s.orig_height > crate::TEXTURE_DIMENSION_MAX {
        return false;
    }
    if s.num_blocks_x != (s.orig_width + 3) / 4 || s.num_blocks_y != (s.orig_height + 3) / 4 {
        return false;
    }
    let unit: u32 = if fmt == BasisTextureFormat::ETC1S {
        1
    } else {
        4
    };
    proof {
        vstd::arithmetic::mul::lemma_mul_upper_bound(
            s.num_blocks_x as int,
            4096,
            s.num_blocks_y as int,
            4096,
        );
        vstd::arithmetic::mul::lemma_mul_is_associative(
            s.num_blocks_x as int,
            s.num_blocks_y as int,
            unit as int,
        );
    }
    if (s.payload_len as u64) != mul_u32_wide(s.num_blocks_x, s.num_blocks_y) * (unit as u64) {
        return false;
    }
    if (s.payload_offset as u64) + (s.payload_len as u64) > (payload_words as u64) {
        return false;
    }
    if fmt == BasisTextureFormat::UASTC4x4 && s.is_alpha {
        return false;
    }
    true
}

/// Run the slice directory checks of [`spec_slices_checked`] over the
/// extracted slice entries.
#[verifier::rlimit(100)]
fn check_slices(
    words: &Vec<u32>,
    slices: &Vec<SliceDesc>,
    tex_format: BasisTextureFormat,
    total_images: u32,
    pw: u32,
    nsl: u32,
    slice_base: usize,
) -> (r: bool)
    requires
        nsl == words@[8],
        pw == words@[9],
        total_images == words@[6],
        tex_format == spec_stored_format(words@),
        slice_base == spec_slice_base(words@),
        nsl <= SLICE_COUNT_MAX,
        words@[10] <= ENDPOINT_COUNT_MAX,
        words@[11] <= SELECTOR_COUNT_MAX,
        words@.len() >= spec_slice_base(words@) + 9 * (nsl as int),
        slices@.len() == nsl as int,
        forall|j: int| 0 <= j < nsl as int ==> #[trigger] slices@[j] == spec_slice_at(words@, j),
    ensures
        r == spec_slices_checked(words@),
{
    let ghost ws = words@;
    proof {
        lemma_checked_prefix_zero(ws);
    }
    let mut i: usize = 0;
    while i < nsl as usize
        invariant
            ws == words@,
            nsl == ws[8],
            pw == ws[9],
            total_images == ws[6],
            tex_format == spec_stored_format(ws),
            slice_base == spec_slice_base(ws),
            nsl <= SLICE_COUNT_MAX,
            ws[10] <= ENDPOINT_COUNT_MAX,
            ws[11] <= SELECTOR_COUNT_MAX,
            ws.len() >= spec_slice_base(ws) + 9 * (nsl as int),
            slices@.len() == nsl as int,
            i <= nsl as int,
            forall|j: int| 0 <= j < nsl as int ==> #[trigger] slices@[j] == spec_slice_at(ws, j),
            spec_checked_prefix(ws, i as int),
        decreases nsl as int - i,
    {
        let b = slice_base + 9 * i;
        let s = slices[i];
        proof {
            assert(slices@[i as int] == spec_slice_at(ws, i as int));
        }
        if words[b + 8] > 3 {
            proof {
                assert(!spec_stored_slice_ok(ws, i as int));
                lemma_checked_violation_entry(ws, i as int);
            }
            return false;
        }
        if !check_slice(&s, tex_format, total_images, pw) {
            proof {
                assert(!spec_stored_slice_ok(ws, i as int));
                lemma_checked_violation_entry(ws, i as int);
            }
            return false;
        }
        if i > 0 {
            let prev = slices[i - 1];
            proof {
                assert(slices@[i as int - 1] == spec_slice_at(ws, i as int - 1));
            }
            if !slice_less(&prev, &s) {
                proof {
                    assert(!spec_stored_slice_ordered(ws, i as int));
                    lemma_checked_violation_order(ws, i as int);
                }
                return false;
            }
        }
        proof {
            assert(spec_stored_slice_ok(ws, i as int));
            if i > 0 {
                assert(spec_stored_slice_ordered(ws, i as int));
            }
            lemma_checked_prefix_step(ws, i as int);
        }
        i = i + 1;
    }
    proof {
        lemma_checked_prefix_full(ws);
    }
    true
}

/// Check that a strictly ordered slice directory is structured; see
/// [`spec_slice_structured`].
#[verifier::rlimit(100)]
fn check_structure(slices: &Vec<SliceDesc>) -> (r: bool)
    requires
        forall|j: int|
            1 <= j < slices@.len() ==> spec_slice_less(slices@[j - 1], #[trigger] slices@[j]),
        slices@.len() <= SLICE_COUNT_MAX,
    ensures
        r == spec_slices_structured(slices@),
{
    let n = slices.len();
    let mut cur_img: u32 = 0;
    let mut cur_levels: u32 = 0;
    let mut i: usize = 0;
    while i < n
        invariant
            n == slices@.len() <= SLICE_COUNT_MAX,
            forall|j: int|
                1 <= j < slices@.len() ==> spec_slice_less(slices@[j - 1], #[trigger] slices@[j]),
            i <= n,
            forall|j: int| 0 <= j < i ==> #[trigger] spec_slice_structured(slices@, j),
            i >= 1 ==> cur_img == slices@[i - 1].image_index,
            cur_levels == spec_level_count(slices@.take(i as int), cur_img),
            cur_levels <= i,
            forall|g: u32|
                g > cur_img ==> #[trigger] spec_level_count(slices@.take(i as int), g) == 0,
            forall|j: int| 0 <= j < i ==> (#[trigger] slices@[j]).image_index <= cur_img,
        decreases n - i,
    {
        let s = slices[i];
        proof {
            assert(slices@.take(i + 1) =~= slices@.take(i as int).push(slices@[i as int]));
        }
        if s.is_alpha {
            if i == 0 {
                proof {
                    assert(!spec_slice_structured(slices@, 0));
                }
                return false;
            }
            let prev = slices[i - 1];
            if !(prev.image_index == s.image_index && prev.level_index == s.level_index
                && !prev.is_alpha) {
                proof {
                    assert(!spec_slice_structured(slices@, i as int));
                }
                return false;
            }
            proof {
                assert(spec_slice_structured(slices@, i as int));
                lemma_level_count_push(slices@.take(i as int), slices@[i as int], cur_img);
                assert forall|g: u32| g > cur_img implies #[trigger] spec_level_count(
                    slices@.take(i + 1),
                    g,
                ) == 0 by {
                    lemma_level_count_push(slices@.take(i as int), slices@[i as int], g);
                }
            }
            i = i + 1;
        } else {
            let expected: u32 = if i == 0 {
                0
            } else if s.image_index == cur_img {
                cur_levels
            } else {
                0
            };
            proof {
                if i == 0 {
                    assert(slices@.take(0) =~= Seq::<SliceDesc>::empty());
                    assert(spec_level_count(slices@.take(0), s.image_index) == 0);
                } else if s.image_index != cur_img {
                    assert(spec_slice_less(slices@[i - 1], slices@[i as int]));
                    assert(s.image_index > cur_img);
                    assert(spec_level_count(slices@.take(i as int), s.image_index) == 0);
                }
                assert(expected == spec_level_count(slices@.take(i as int), s.image_index));
            }
            if s.level_index != expected {
                proof {
                    assert(!spec_slice_structured(slices@, i as int));
                }
                return false;
            }
            proof {
                assert(spec_slice_structured(slices@, i as int));
            }
            if i == 0 || s.image_index != cur_img {
                proof {
                    let ghost old_img = cur_img;
                    lemma_level_count_push(
                        slices@.take(i as int),
                        slices@[i as int],
                        s.image_index,
                    );
                    assert forall|g: u32| g > s.image_index implies #[trigger] spec_level_count(
                        slices@.take(i + 1),
                        g,
                    ) == 0 by {
                        lemma_level_count_push(slices@.take(i as int), slices@[i as int], g);
                        if i > 0 {
                            assert(g > old_img);
                        } else {
                            assert(slices@.take(0) =~= Seq::<SliceDesc>::empty());
                            lemma_level_count_bounds(slices@.take(0), g);
                        }
                    }
                }
                cur_img = s.image_index;
                cur_levels = 1;
            } else {
                proof {
                    lemma_level_count_push(slices@.take(i as int), slices@[i as int], cur_img);
                    assert forall|g: u32| g > cur_img implies #[trigger] spec_level_count(
                        slices@.take(i + 1),
                        g,
                    ) == 0 by {
                        lemma_level_count_push(slices@.take(i as int), slices@[i as int], g);
                    }
                }
                cur_levels = cur_levels + 1;
            }
            i = i + 1;
        }
    }
    true
}

/// Parse a byte buffer into a container; `None` when the buffer is not
/// a structurally valid container.
#[verifier::rlimit(100)]
pub fn parse_container(data: &[u8]) -> (r: Option<BasisContainer>)
    ensures
        match r {
            Some(c) => spec_parse(data@) == Some(c@) && c@.wf(),
            None => spec_parse(data@) is None,
        },
{
    if data.len() % 4 != 0 {
        return None;
    }
    let words = bytes_to_words(data);
    let ghost ws = words@;
    if words.len() < 14 {
        return None;
    }
    if words[0] != CONTAINER_MAGIC || words[1] != CONTAINER_VERSION {
        return None;
    }
    if words[2] > 1 || words[3] > 4 || words[7] > 1 {
        return None;
    }
    let nsl = words[8];
    let pw = words[9];
    let ne = words[10];
    let nsel = words[11];
    if nsl > SLICE_COUNT_MAX || pw > PAYLOAD_WORDS_MAX || ne > ENDPOINT_COUNT_MAX || nsel
        > SELECTOR_COUNT_MAX {
        return None;
    }
    let expected: u64 = 14 + 2 * (ne as u64) + (nsel as u64) + 9 * (nsl as u64) + (pw as u64);
    if (words.len() as u64) != expected {
        return None;
    }
    let tex_format = if words[2] == 0 {
        BasisTextureFormat::ETC1S
    } else {
        BasisTextureFormat::UASTC4x4
    };
    let tex_type = if words[3] == 0 {
        BasisTextureType::TextureType2D
    } else if words[3] == 1 {
        BasisTextureType::TextureType2DArray
    } else if words[3] == 2 {
        BasisTextureType::TextureTypeCubemapArray
    } else if words[3] == 3 {
        BasisTextureType::TextureTypeVideoFrames
    } else {
        BasisTextureType::TextureTypeVolume
    };
    let total_images = words[6];
    let unit: u32 = if words[2] == 0 {
        1
    } else {
        4
    };
    let slice_base: usize = 13 + 2 * (ne as usize) + (nsel as usize);
    let mut slices: Vec<SliceDesc> = Vec::new();
    let mut i: usize = 0;
    while i < nsl as usize
        invariant
            ws == words@,
            nsl == ws[8],
            ne == ws[10],
            nsel == ws[11],
            pw == ws[9],
            nsl <= SLICE_COUNT_MAX,
            ne <= ENDPOINT_COUNT_MAX,
            nsel <= SELECTOR_COUNT_MAX,
            slice_base == spec_slice_base(ws),
            ws.len() == 14 + 2 * (ws[10] as int) + (ws[11] as int) + 9 * (ws[8] as int) + (
            ws[9] as int),
            i <= nsl as int,
            slices@.len() == i,
            forall|j: int| 0 <= j < i ==> #[trigger] slices@[j] == spec_slice_at(ws, j),
        decreases nsl as int - i,
    {
        let b = slice_base + 9 * i;
        let s = SliceDesc {
            image_index: words[b],
            level_index: words[b + 1],
            orig_width: words[b + 2],
            orig_height: words[b + 3],
            num_blocks_x: words[b + 4],
            num_blocks_y: words[b + 5],
            payload_offset: words[b + 6],
            payload_len: words[b + 7],
            is_alpha: words[b + 8] == 1 || words[b + 8] == 3,
            is_opaque: words[b + 8] == 2 || words[b + 8] == 3,
        };
        proof {
            assert(s == spec_slice_at(ws, i as int));
        }
        slices.push(s);
        i = i + 1;
    }
    if !check_slices(&words, &slices, tex_format, total_images, pw, nsl, slice_base) {
        return None;
    }
    proof {
        assert forall|j: int| 1 <= j < slices@.len() implies spec_slice_less(
            slices@[j - 1],
            #[trigger] slices@[j],
        ) by {
            assert(slices@[j] == spec_slice_at(ws, j));
            assert(slices@[j - 1] == spec_slice_at(ws, j - 1));
            assert(spec_stored_slice_ordered(ws, j));
        }
        assert(slices@ =~= spec_stored_slices(ws));
    }
    if !check_structure(&slices) {
        return None;
    }
    let mut endpoints: Vec<EndpointPair> = Vec::new();
    let mut j: usize = 0;
    while j < ne as usize
        invariant
            ws == words@,
            ne == ws[10],
            ne <= ENDPOINT_COUNT_MAX,
            ws.len() >= 13 + 2 * (ws[10] as int),
            j <= ne as int,
            endpoints@.len() == j,
            forall|k: int|
                0 <= k < j ==> endpoints@[k] == (EndpointPair {
                    lo: spec_unpack_color(ws[13 + 2 * k]),
                    hi: spec_unpack_color(ws[13 + 2 * k + 1]),
                }),
        decreases ne as int - j,
    {
        let lo = unpack_color(words[13 + 2 * j]);
        let hi = unpack_color(words[13 + 2 * j + 1]);
        endpoints.push(EndpointPair { lo, hi });
        j = j + 1;
    }
    let sel_base: usize = 13 + 2 * (ne as usize);
    let mut selectors: Vec<u32> = Vec::new();
    let mut j: usize = 0;
    while j < nsel as usize
        invariant
            ws == words@,
            ne == ws[10],
            nsel == ws[11],
            ne <= ENDPOINT_COUNT_MAX,
            nsel <= SELECTOR_COUNT_MAX,
            sel_base == 13 + 2 * (ws[10] as int),
            ws.len() >= 13 + 2 * (ws[10] as int) + (ws[11] as int),
            j <= nsel as int,
            selectors@.len() == j,
            forall|k: int| 0 <= k < j ==> selectors@[k] == ws[13 + 2 * (ws[10] as int) + k],
        decreases nsel as int - j,
    {
        selectors.push(words[sel_base + j]);
        j = j + 1;
    }
    let payload_base: usize = slice_base + 9 * (nsl as usize);
    let mut payload: Vec<u32> = Vec::new();
    let mut j: usize = 0;
    while j < pw as usize
        invariant
            ws == words@,
            nsl == ws[8],
            ne == ws[10],
            nsel == ws[11],
            pw == ws[9],
            nsl <= SLICE_COUNT_MAX,
            ne <= ENDPOINT_COUNT_MAX,
            nsel <= SELECTOR_COUNT_MAX,
            pw <= PAYLOAD_WORDS_MAX,
            payload_base == spec_payload_base(ws),
            ws.len() == 14 + 2 * (ws[10] as int) + (ws[11] as int) + 9 * (ws[8] as int) + (
            ws[9] as int),
            j <= pw as int,
            payload@.len() == j,
            forall|k: int| 0 <= k < j ==> payload@[k] == ws[spec_payload_base(ws) + k],
        decreases pw as int - j,
    {
        payload.push(words[payload_base + j]);
        j = j + 1;
    }
    let c = BasisContainer {
        tex_format,
        tex_type,
        userdata0: words[4],
        userdata1: words[5],
        total_images,
        has_alpha: words[7] == 1,
        endpoints,
        selectors,
        slices,
        payload,
    };
    proof {
        assert(spec_words_valid(ws));
        let e = spec_extract(ws);
        assert(c@.endpoints =~= e.endpoints);
        assert(c@.selectors =~= e.selectors);
        assert(c@.slices =~= e.slices);
        assert(c@.payload =~= e.payload);
        assert(c@ =~= e);
        lemma_valid_extract_wf(ws);
    }
    Some(c)
}

/// The header checks of [`spec_words_valid`] that do not involve the
/// slice directory.
pub open spec fn spec_words_valid_header(ws: Seq<u32>) -> bool {
    &&& ws.len() >= 14
    &&& ws[0] == CONTAINER_MAGIC
    &&& ws[1] == CONTAINER_VERSION
    &&& ws[2] <= 1
    &&& ws[3] <= 4
    &&& ws[7] <= 1
    &&& ws[8] <= SLICE_COUNT_MAX
    &&& ws[9] <= PAYLOAD_WORDS_MAX
    &&& ws[10] <= ENDPOINT_COUNT_MAX
    &&& ws[11] <= SELECTOR_COUNT_MAX
}

/// Serialize a well-formed container into bytes.
#[verifier::rlimit(100)]
pub fn write_container(c: &BasisContainer) -> (r: Vec<u8>)
    requires
        c@.wf(),
    ensures
        r@ == c@.spec_ser_bytes(),
{
    let ghost m = c@;
    proof {
        lemma_ser_layout(m);
    }
    let ne = c.endpoints.len();
    let ns = c.selectors.len();
    let nsl = c.slices.len();
    let pw = c.payload.len();
    let mut words: Vec<u32> = Vec::new();
    words.push(CONTAINER_MAGIC);
    words.push(CONTAINER_VERSION);
    words.push(c.tex_format.code());
    words.push(c.tex_type.code());
    words.push(c.userdata0);
    words.push(c.userdata1);
    words.push(c.total_images);
    words.push(if c.has_alpha {
        1
    } else {
        0
    });
    words.push(nsl as u32);
    words.push(pw as u32);
    words.push(ne as u32);
    words.push(ns as u32);
    proof {
        assert(words@ =~= m.spec_header_words());
    }
    let hsum = word_checksum_range(&words, 0, 12);
    proof {
        assert(words@.subrange(0, 12) =~= m.spec_header_words());
    }
    words.push(hsum);
    let mut i: usize = 0;
    while i < ne
        invariant
            m == c@,
            ne == m.endpoints.len(),
            words@.len() == 13 + 2 * i,
            i <= ne,
            words@.take(13) == m.spec_header_words() + seq![
                spec_word_checksum(m.spec_header_words()),
            ],
            forall|j: int| 0 <= j < 2 * i ==> words@[13 + j] == #[trigger] m.spec_mid_word(j),
        decreases ne - i,
    {
        words.push(pack_color(c.endpoints[i].lo));
        words.push(pack_color(c.endpoints[i].hi));
        i = i + 1;
    }
    let mut i: usize = 0;
    while i < ns
        invariant
            m == c@,
            ne == m.endpoints.len(),
            ns == m.selectors.len(),
            words@.len() == 13 + 2 * ne + i,
            i <= ns,
            words@.take(13) == m.spec_header_words() + seq![
                spec_word_checksum(m.spec_header_words()),
            ],
            forall|j: int|
                0 <= j < 2 * ne + i ==> words@[13 + j] == #[trigger] m.spec_mid_word(j),
        decreases ns - i,
    {
        words.push(c.selectors[i]);
        i = i + 1;
    }
    let mut i: usize = 0;
    while i < nsl
        invariant
            m == c@,
            ne == m.endpoints.len(),
            ns == m.selectors.len(),
            nsl == m.slices.len(),
            words@.len() == 13 + 2 * ne + ns + 9 * i,
            i <= nsl,
            words@.take(13) == m.spec_header_words() + seq![
                spec_word_checksum(m.spec_header_words()),
            ],
            forall|j: int|
                0 <= j < 2 * ne + ns + 9 * i ==> words@[13 + j] == #[trigger] m.spec_mid_word(j),
        decreases nsl - i,
    {
        let s = c.slices[i];
        words.push(s.image_index);
        words.push(s.level_index);
        words.push(s.orig_width);
        words.push(s.orig_height);
        words.push(s.num_blocks_x);
        words.push(s.num_blocks_y);
        words.push(s.payload_offset);
        words.push(s.payload_len);
        let flag_word: u32 = (if s.is_alpha {
            1u32
        } else {
            0u32
        }) + (if s.is_opaque {
            2u32
        } else {
            0u32
        });
        words.push(flag_word);
        proof {
            assert(words@[13 + (2 * ne + ns + 9 * i + 0)] == m.spec_mid_word(
                2 * ne + ns + 9 * i + 0,
            ));
            assert(words@[13 + (2 * ne + ns + 9 * i + 1)] == m.spec_mid_word(
                2 * ne + ns + 9 * i + 1,
            ));
            assert(words@[13 + (2 * ne + ns + 9 * i + 2)] == m.spec_mid_word(
                2 * ne + ns + 9 * i + 2,
            ));
            assert(words@[13 + (2 * ne + ns + 9 * i + 3)] == m.spec_mid_word(
                2 * ne + ns + 9 * i + 3,
            ));
            assert(words@[13 + (2 * ne + ns + 9 * i + 4)] == m.spec_mid_word(
                2 * ne + ns + 9 * i + 4,
            ));
            assert(words@[13 + (2 * ne + ns + 9 * i + 5)] == m.spec_mid_word(
                2 * ne + ns + 9 * i + 5,
            ));
            assert(words@[13 + (2 * ne + ns + 9 * i + 6)] == m.spec_mid_word(
                2 * ne + ns + 9 * i + 6,
            ));
            assert(words@[13 + (2 * ne + ns + 9 * i + 7)] == m.spec_mid_word(
                2 * ne + ns + 9 * i + 7,
            ));
            assert(words@[13 + (2 * ne + ns + 9 * i + 8)] == m.spec_mid_word(
                2 * ne + ns + 9 * i + 8,
            ));
        }
        i = i + 1;
    }
    let mut i: usize = 0;
    while i < pw
        invariant
            m == c@,
            ne == m.endpoints.len(),
            ns == m.selectors.len(),
            nsl == m.slices.len(),
            pw == m.payload.len(),
            words@.len() == 13 + 2 * ne + ns + 9 * nsl + i,
            i <= pw,
            words@.take(13) == m.spec_header_words() + seq![
                spec_word_checksum(m.spec_header_words()),
            ],
            forall|j: int|
                0 <= j < 2 * ne + ns + 9 * nsl + i ==> words@[13 + j] == #[trigger] m.spec_mid_word(
                    j,
                ),
        decreases pw - i,
    {
        words.push(c.payload[i]);
        i = i + 1;
    }
    proof {
        assert(words@.subrange(13, words@.len() as int) =~= m.spec_mid_words());
    }
    let fsum = word_checksum_range(&words, 13, words.len());
    words.push(fsum);
    proof {
        assert(words@ =~= m.spec_ser_words());
        assert(4 * words@.len() <= u32::MAX);
    }
    words_to_bytes(&words)
}

/// Whether a slice is the one for the given image, level, and alpha
/// role.
pub open spec fn spec_slice_matches(
    s: SliceDesc,
    image_index: u32,
    level_index: u32,
    alpha: bool,
) -> bool {
    s.image_index == image_index && s.level_index == level_index && s.is_alpha == alpha
}

/// The index of the first slice for the given image, level, and alpha
/// role.
pub open spec fn spec_find_slice(
    slices: Seq<SliceDesc>,
    image_index: u32,
    level_index: u32,
    alpha: bool,
) -> Option<int>
    decreases slices.len(),
{
    if slices.len() == 0 {
        None
    } else if spec_slice_matches(slices[0], image_index, level_index, alpha) {
        Some(0)
    } else {
        match spec_find_slice(slices.drop_first(), image_index, level_index, alpha) {
            Some(j) => Some(j + 1),
            None => None,
        }
    }
}

/// What [`spec_find_slice`] returns: the first matching index, or
/// nothing when no slice matches.
pub proof fn lemma_find_slice_char(
    slices: Seq<SliceDesc>,
    image_index: u32,
    level_index: u32,
    alpha: bool,
)
    ensures
        match spec_find_slice(slices, image_index, level_index, alpha) {
            Some(i) => 0 <= i < slices.len() && spec_slice_matches(
                slices[i],
                image_index,
                level_index,
                alpha,
            ) && forall|j: int|
                0 <= j < i ==> !spec_slice_matches(
                    #[trigger] slices[j],
                    image_index,
                    level_index,
                    alpha,
                ),
            None => forall|j: int|
                0 <= j < slices.len() ==> !spec_slice_matches(
                    #[trigger] slices[j],
                    image_index,
                    level_index,
                    alpha,
                ),
        },
    decreases slices.len(),
{
    if slices.len() == 0 {
    } else if spec_slice_matches(slices[0], image_index, level_index, alpha) {
    } else {
        lemma_find_slice_char(slices.drop_first(), image_index, level_index, alpha);
        match spec_find_slice(slices.drop_first(), image_index, level_index, alpha) {
            Some(i) => {
                assert(slices[i + 1] == slices.drop_first()[i]);
                assert forall|j: int| 0 <= j < i + 1 implies !spec_slice_matches(
                    #[trigger] slices[j],
                    image_index,
                    level_index,
                    alpha,
                ) by {
                    if j > 0 {
                        assert(slices[j] == slices.drop_first()[j - 1]);
                    }
                }
            },
            None => {
                assert forall|j: int| 0 <= j < slices.len() implies !spec_slice_matches(
                    #[trigger] slices[j],
                    image_index,
                    level_index,
                    alpha,
                ) by {
                    if j > 0 {
                        assert(slices[j] == slices.drop_first()[j - 1]);
                    }
                }
            },
        }
    }
}

/// Find the slice for the given image, level, and alpha role.
pub fn find_slice(
    slices: &Vec<SliceDesc>,
    image_index: u32,
    level_index: u32,
    alpha: bool,
) -> (r: Option<usize>)
    ensures
        match r {
            Some(i) => spec_find_slice(slices@, image_index, level_index, alpha) == Some(
                i as int,
            ) && i < slices@.len() && spec_slice_matches(
                slices@[i as int],
                image_index,
                level_index,
                alpha,
            ),
            None => spec_find_slice(slices@, image_index, level_index, alpha) is None,
        },
{
    proof {
        lemma_find_slice_char(slices@, image_index, level_index, alpha);
    }
    let n = slices.len();
    let mut i: usize = 0;
    while i < n
        invariant
            n == slices@.len(),
            i <= n,
            forall|j: int|
                0 <= j < i ==> !spec_slice_matches(
                    #[trigger] slices@[j],
                    image_index,
                    level_index,
                    alpha,
                ),
        decreases n - i,
    {
        let s = slices[i];
        if s.image_index == image_index && s.level_index == level_index && s.is_alpha == alpha {
            proof {
                lemma_find_slice_char(slices@, image_index, level_index, alpha);
            }
            return Some(i);
        }
        i = i + 1;
    }
    proof {
        lemma_find_slice_char(slices@, image_index, level_index, alpha);
    }
    None
}

/// The number of color slices that belong to the given image: its mip
/// level count.
pub open spec fn spec_level_count(slices: Seq<SliceDesc>, image_index: u32) -> int
    decreases slices.len(),
{
    if slices.len() == 0 {
        0
    } else {
        spec_level_count(slices.drop_last(), image_index) + if slices.last().image_index
            == image_index && !slices.last().is_alpha {
            1int
        } else {
            0int
        }
    }
}

/// Level counts lie between zero and the slice count.
pub proof fn lemma_level_count_bounds(slices: Seq<SliceDesc>, image_index: u32)
    ensures
        0 <= spec_level_count(slices, image_index) <= slices.len(),
    decreases slices.len(),
{
    if slices.len() > 0 {
        lemma_level_count_bounds(slices.drop_last(), image_index);
    }
}

/// Count the color slices that belong to the given image.
pub fn level_count(slices: &Vec<SliceDesc>, image_index: u32) -> (r: u32)
    requires
        slices@.len() <= SLICE_COUNT_MAX,
    ensures
        r == spec_level_count(slices@, image_index),
{
    let n = slices.len();
    let mut count: u32 = 0;
    let mut i: usize = 0;
    while i < n
        invariant
            n == slices@.len() <= SLICE_COUNT_MAX,
            i <= n,
            count == spec_level_count(slices@.take(i as int), image_index),
            count <= i,
        decreases n - i,
    {
        proof {
            assert(slices@.take(i + 1).drop_last() =~= slices@.take(i as int));
            lemma_level_count_bounds(slices@.take(i as int), image_index);
        }
        let s = slices[i];
        if s.image_index == image_index && !s.is_alpha {
            count = count + 1;
        }
        i = i + 1;
    }
    proof {
        assert(slices@.take(n as int) =~= slices@);
    }
    count
}

/// Appending a slice does not change an already successful lookup.
pub proof fn lemma_find_slice_append(
    slices: Seq<SliceDesc>,
    x: SliceDesc,
    image_index: u32,
    level_index: u32,
    alpha: bool,
)
    requires
        spec_find_slice(slices, image_index, level_index, alpha) is Some,
    ensures
        spec_find_slice(slices.push(x), image_index, level_index, alpha) == spec_find_slice(
            slices,
            image_index,
            level_index,
            alpha,
        ),
    decreases slices.len(),
{
    if slices.len() == 0 {
    } else if spec_slice_matches(slices[0], image_index, level_index, alpha) {
        assert(slices.push(x)[0] == slices[0]);
    } else {
        assert(slices.push(x)[0] == slices[0]);
        assert(slices.push(x).drop_first() =~= slices.drop_first().push(x));
        lemma_find_slice_append(slices.drop_first(), x, image_index, level_index, alpha);
    }
}

/// Appending a slice that does not match keeps a failed lookup failed.
pub proof fn lemma_find_slice_append_none(
    slices: Seq<SliceDesc>,
    x: SliceDesc,
    image_index: u32,
    level_index: u32,
    alpha: bool,
)
    requires
        spec_find_slice(slices, image_index, level_index, alpha) is None,
        !spec_slice_matches(x, image_index, level_index, alpha),
    ensures
        spec_find_slice(slices.push(x), image_index, level_index, alpha) is None,
    decreases slices.len(),
{
    if slices.len() == 0 {
        assert(slices.push(x)[0] == x);
        assert(slices.push(x).drop_first() =~= Seq::<SliceDesc>::empty());
        assert(spec_find_slice(slices.push(x).drop_first(), image_index, level_index, alpha)
            is None);
        assert(spec_find_slice(slices.push(x), image_index, level_index, alpha) is None);
    } else if spec_slice_matches(slices[0], image_index, level_index, alpha) {
        assert(spec_find_slice(slices, image_index, level_index, alpha) == Some(0int));
    } else {
        assert(slices.push(x)[0] == slices[0]);
        assert(slices.push(x).drop_first() =~= slices.drop_first().push(x));
        assert(spec_find_slice(slices.drop_first(), image_index, level_index, alpha) is None);
        lemma_find_slice_append_none(slices.drop_first(), x, image_index, level_index, alpha);
        assert(spec_find_slice(slices.push(x), image_index, level_index, alpha) is None);
    }
}

/// In a directory whose adjacent entries are strictly ordered, every
/// earlier entry comes strictly before every later one.
pub proof fn lemma_slice_order_transitive(slices: Seq<SliceDesc>, a: int, b: int)
    requires
        forall|i: int|
            1 <= i < slices.len() ==> spec_slice_less(
                slices[i - 1],
                #[trigger] slices[i],
            ),
        0 <= a < b < slices.len(),
    ensures
        spec_slice_less(slices[a], slices[b]),
    decreases b - a,
{
    if a + 1 == b {
    } else {
        lemma_slice_order_transitive(slices, a, b - 1);
        assert(spec_slice_less(slices[b - 1], slices[b]));
    }
}

/// In a strictly ordered directory, a matching entry is the one the
/// lookup returns.
pub proof fn lemma_find_in_sorted(
    slices: Seq<SliceDesc>,
    k: int,
    image_index: u32,
    level_index: u32,
    alpha: bool,
)
    requires
        forall|i: int|
            1 <= i < slices.len() ==> spec_slice_less(
                slices[i - 1],
                #[trigger] slices[i],
            ),
        0 <= k < slices.len(),
        spec_slice_matches(slices[k], image_index, level_index, alpha),
    ensures
        spec_find_slice(slices, image_index, level_index, alpha) == Some(k),
{
    lemma_find_slice_char(slices, image_index, level_index, alpha);
    match spec_find_slice(slices, image_index, level_index, alpha) {
        Some(i) => {
            if i < k {
                lemma_slice_order_transitive(slices, i, k);
                assert(false);
            } else if i > k {
                assert(!spec_slice_matches(slices[k], image_index, level_index, alpha));
            }
        },
        None => {
            assert(!spec_slice_matches(slices[k], image_index, level_index, alpha));
        },
    }
}

/// Appending a matching slice to a directory with no earlier match
/// makes the lookup find it.
pub proof fn lemma_find_slice_append_match(
    slices: Seq<SliceDesc>,
    x: SliceDesc,
    image_index: u32,
    level_index: u32,
    alpha: bool,
)
    requires
        spec_find_slice(slices, image_index, level_index, alpha) is None,
        spec_slice_matches(x, image_index, level_index, alpha),
    ensures
        spec_find_slice(slices.push(x), image_index, level_index, alpha) == Some(
            slices.len() as int,
        ),
{
    lemma_find_slice_char(slices, image_index, level_index, alpha);
    lemma_find_slice_char(slices.push(x), image_index, level_index, alpha);
    match spec_find_slice(slices.push(x), image_index, level_index, alpha) {
        Some(i) => {
            if i < slices.len() {
                assert(slices.push(x)[i] == slices[i]);
                assert(!spec_slice_matches(slices[i], image_index, level_index, alpha));
                assert(false);
            }
        },
        None => {
            assert(!spec_slice_matches(
                slices.push(x)[slices.len() as int],
                image_index,
                level_index,
                alpha,
            ));
            assert(false);
        },
    }
}

/// In a structured slice directory, a level lookup succeeds exactly
/// below the image's level count: an index at or beyond the stored
/// count is never found, and every index below it is.
pub proof fn lemma_level_lookup_bounded(
    slices: Seq<SliceDesc>,
    image_index: u32,
    level_index: u32,
)
    requires
        spec_slices_structured(slices),
    ensures
        (spec_find_slice(slices, image_index, level_index, false) is Some) == (level_index
            < spec_level_count(slices, image_index)),
    decreases slices.len(),
{
    if slices.len() == 0 {
        lemma_find_slice_char(slices, image_index, level_index, false);
    } else {
        let prefix = slices.drop_last();
        let last = slices.last();
        assert forall|i: int| 0 <= i < prefix.len() implies #[trigger] spec_slice_structured(
            prefix,
            i,
        ) by {
            assert(spec_slice_structured(slices, i));
            assert(prefix.take(i) =~= slices.take(i));
            assert(prefix[i] == slices[i]);
            if i >= 1 {
                assert(prefix[i - 1] == slices[i - 1]);
            }
        }
        lemma_level_lookup_bounded(prefix, image_index, level_index, );
        lemma_level_count_push(prefix, last, image_index);
        assert(prefix.push(last) =~= slices);
        if last.image_index == image_index && !last.is_alpha {
            // the appended color slice carries exactly the old count
            assert(spec_slice_structured(slices, slices.len() - 1));
            assert(slices.take(slices.len() - 1) =~= prefix);
            assert(last.level_index == spec_level_count(prefix, image_index));
            lemma_level_count_bounds(prefix, image_index);
            if level_index < spec_level_count(prefix, image_index) {
                lemma_find_slice_append(prefix, last, image_index, level_index, false);
            } else if level_index == spec_level_count(prefix, image_index) {
                lemma_find_slice_append_match(prefix, last, image_index, level_index, false);
            } else {
                lemma_find_slice_append_none(prefix, last, image_index, level_index, false);
            }
        } else {
            assert(!spec_slice_matches(last, image_index, level_index, false));
            match spec_find_slice(prefix, image_index, level_index, false) {
                Some(_) => {
                    lemma_find_slice_append(prefix, last, image_index, level_index, false);
                },
                None => {
                    lemma_find_slice_append_none(prefix, last, image_index, level_index, false);
                },
            }
        }
    }
}

/// Appending a slice adds one to the level count of its image exactly
/// when it is a color slice of that image.
pub proof fn lemma_level_count_push(slices: Seq<SliceDesc>, x: SliceDesc, image_index: u32)
    ensures
        spec_level_count(slices.push(x), image_index) == spec_level_count(slices, image_index)
            + if x.image_index == image_index && !x.is_alpha {
            1int
        } else {
            0int
        },
{
    assert(slices.push(x).drop_last() =~= slices);
    assert(slices.push(x).last() == x);
}

} // verus!
