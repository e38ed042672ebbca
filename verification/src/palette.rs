//! Colours of the framebuffer and their RGB565 (little-endian) encoding.
//!
//! The panel stores a pixel as a 16-bit RGB565 word: five bits of red at
//! offset 11, six bits of green at offset 5 and five bits of blue at offset 0,
//! written low byte first.
use vstd::prelude::*;
use vstd::arithmetic::div_mod::lemma_div_is_ordered;

verus! {

/// A colour that can be drawn on the framebuffer.
#[derive(Clone, Copy, Debug, PartialEq, Eq, Structural)]
pub enum color {
    BLACK,
    RED,
    GREEN,
    BLUE,
    WHITE,
    /// The two bytes of an RGB565 word, low byte first.
    NATIVE_COMPONENTS(u8, u8),
    RGB(u8, u8, u8),
    /// A grey level where 0 is white and 255 is black.
    GRAY(u8),
}

impl Default for color {
    /// White, the colour of blank paper.
    fn default() -> (c: Self)
        ensures
            c == color::WHITE,
    {
        color::WHITE
    }
}

/// An 8-bit channel narrowed to a channel whose largest value is `max`
/// (31 for red and blue, 63 for green), as the encoder rounds it.
pub open spec fn narrow_channel(v: int, max: int) -> int {
    (v + 1) * max / 255
}

/// A narrow channel whose largest value is `max` widened back to 8 bits.
pub open spec fn widen_channel(v: int, max: int) -> int {
    v * 255 / max
}

/// The RGB565 word of three narrow channels.
pub open spec fn pack_rgb565(r5: int, g6: int, b5: int) -> int {
    r5 * 2048 + g6 * 32 + b5
}

/// The RGB565 word that encodes three 8-bit channels.
pub open spec fn encode_rgb8(r8: int, g8: int, b8: int) -> int {
    pack_rgb565(narrow_channel(r8, 31), narrow_channel(g8, 63), narrow_channel(b8, 31))
}

/// A 16-bit word as its two bytes, low byte first.
pub open spec fn le_bytes(word: int) -> Seq<u8> {
    seq![(word % 256) as u8, (word / 256) as u8]
}

impl color {
    /// The RGB565 word that this colour is drawn with.
    pub open spec fn rgb565(self) -> int {
        match self {
            color::BLACK => 0x0000,
            color::RED => 0xF800,
            color::GREEN => 0x07E0,
            color::BLUE => 0x001F,
            color::WHITE => 0xFFFF,
            color::GRAY(level) => encode_rgb8(255 - level, 255 - level, 255 - level),
            color::NATIVE_COMPONENTS(lo, hi) => lo + 256 * hi,
            color::RGB(r8, g8, b8) => encode_rgb8(r8 as int, g8 as int, b8 as int),
        }
    }

    /// The 8-bit red, green and blue channels of the colour as drawn.
    pub open spec fn rgb8(self) -> Seq<u8> {
        let word = self.rgb565();
        seq![
            widen_channel(word / 2048, 31) as u8,
            widen_channel((word / 32) % 64, 63) as u8,
            widen_channel(word % 32, 31) as u8,
        ]
    }

    pub fn from_native(c: [u8; 2]) -> (res: color)
        ensures
            res == color::NATIVE_COMPONENTS(c[0], c[1]),
    {
        color::NATIVE_COMPONENTS(c[0], c[1])
    }

    pub fn to_rgb565(self) -> (res: [u8; 2])
        ensures
            res@ == le_bytes(self.rgb565()),
    {
        self.as_native()
    }

    pub fn to_rgb8(self) -> (res: [u8; 3])
        ensures
            res@ == self.rgb8(),
    {
        let native = self.as_native();
        let lo = native[0];
        let hi = native[1];
        let rgb565: u16 = (lo as u16) | ((hi as u16) << 8);
        assert(rgb565 == lo + 256 * hi) by (bit_vector)
            requires
                rgb565 == (lo as u16) | ((hi as u16) << 8),
        ;
        let r5: u16 = rgb565 >> 11 & 0b11111;
        let g6: u16 = rgb565 >> 5 & 0b111111;
        let b5: u16 = rgb565 & 0b11111;
        assert(r5 == rgb565 / 2048 && g6 == (rgb565 / 32) % 64 && b5 == rgb565 % 32) by (bit_vector)
            requires
                r5 == rgb565 >> 11 & 0b11111,
                g6 == rgb565 >> 5 & 0b111111,
                b5 == rgb565 & 0b11111,
        ;
        proof {
            lemma_rgb565_in_range(self);
        }
        let r8 = (r5 * 255 / 0b11111) as u8;
        let g8 = (g6 * 255 / 0b111111) as u8;
        let b8 = (b5 * 255 / 0b11111) as u8;
        let res = [r8, g8, b8];
        assert(res@ =~= self.rgb8());
        res
    }

    #[inline]
    pub fn as_native(self) -> (res: [u8; 2])
        ensures
            res@ == le_bytes(self.rgb565()),
    {
        let res = match self {
            color::BLACK => [0x00, 0x00],
            color::RED => [0x00, 0xF8],
            color::GREEN => [0xE0, 0x07],
            color::BLUE => [0x1F, 0x00],
            color::WHITE => [0xFF, 0xFF],
            color::GRAY(level) => color::rgb_to_native(255 - level, 255 - level, 255 - level),
            color::NATIVE_COMPONENTS(c1, c2) => [c1, c2],
            color::RGB(r8, g8, b8) => color::rgb_to_native(r8, g8, b8),
        };
        assert(res@ =~= le_bytes(self.rgb565()));
        res
    }

    #[inline]
    fn rgb_to_native(r8: u8, g8: u8, b8: u8) -> (res: [u8; 2])
        ensures
            res@ == le_bytes(encode_rgb8(r8 as int, g8 as int, b8 as int)),
    {
        let r5: u16 = (r8 as u16 + 1) * 0b11111 / 255;
        let g6: u16 = (g8 as u16 + 1) * 0b111111 / 255;
        let b5: u16 = (b8 as u16 + 1) * 0b11111 / 255;
        let rgb565: u16 = r5 << 11 | g6 << 5 | b5;
        assert(rgb565 == r5 * 2048 + g6 * 32 + b5) by (bit_vector)
            requires
                r5 < 32,
                g6 < 64,
                b5 < 32,
                rgb565 == r5 << 11 | g6 << 5 | b5,
        ;
        let lo: u8 = (rgb565 & 0xff) as u8;
        let hi: u8 = (rgb565 >> 8) as u8;
        assert(lo == rgb565 % 256 && hi == rgb565 / 256) by (bit_vector)
            requires
                lo == (rgb565 & 0xff) as u8,
                hi == (rgb565 >> 8) as u8,
        ;
        let res = [lo, hi];
        assert(res@ =~= le_bytes(encode_rgb8(r8 as int, g8 as int, b8 as int)));
        res
    }
}

/// Widening a five-bit channel and narrowing it again gives it back.
proof fn lemma_channel5_round_trip(v: u16)
    by (bit_vector)
    requires
        v < 32,
    ensures
        (v * 255 / 31 + 1) * 31 / 255 == v,
        v * 255 / 31 < 256,
{
}

/// Widening a six-bit channel and narrowing it again gives it back.
proof fn lemma_channel6_round_trip(v: u16)
    by (bit_vector)
    requires
        v < 64,
    ensures
        (v * 255 / 63 + 1) * 63 / 255 == v,
        v * 255 / 63 < 256,
{
}

/// A 16-bit word is its three RGB565 fields put back together.
proof fn lemma_rgb565_fields(w: u16)
    by (bit_vector)
    ensures
        w == (w / 2048) * 2048 + ((w / 32) % 64) * 32 + w % 32,
        w / 2048 < 32,
{
}

/// The two bytes of a little-endian word are found again in it.
proof fn lemma_le_bytes_split(lo: u8, hi: u8)
    by (bit_vector)
    ensures
        (lo + 256 * hi) % 256 == lo,
        (lo + 256 * hi) / 256 == hi,
        lo + 256 * hi < 0x10000,
{
}

/// RGB565 to RGB8 is lossless: the 8-bit channels that
/// `NATIVE_COMPONENTS(lo, hi)` is drawn with, drawn again as an `RGB`
/// colour, are encoded as the bytes `lo` and `hi` once more.
pub proof fn lemma_native_rgb8_round_trip(lo: u8, hi: u8)
    ensures
        ({
            let rgb = color::NATIVE_COMPONENTS(lo, hi).rgb8();
            le_bytes(color::RGB(rgb[0], rgb[1], rgb[2]).rgb565()) == seq![lo, hi]
        }),
{
    lemma_le_bytes_split(lo, hi);
    let w: u16 = (lo + 256 * hi) as u16;
    lemma_rgb565_fields(w);
    let r5 = w / 2048;
    let g6 = (w / 32) % 64;
    let b5 = w % 32;
    lemma_channel5_round_trip(r5);
    lemma_channel6_round_trip(g6);
    lemma_channel5_round_trip(b5);
    let rgb = color::NATIVE_COMPONENTS(lo, hi).rgb8();
    assert(rgb[0] == widen_channel(r5 as int, 31));
    assert(rgb[1] == widen_channel(g6 as int, 63));
    assert(rgb[2] == widen_channel(b5 as int, 31));
    assert(color::RGB(rgb[0], rgb[1], rgb[2]).rgb565() == w);
    assert(le_bytes(w as int) =~= seq![lo, hi]);
}

/// The bytes a `NATIVE_COMPONENTS` colour holds are the bytes it is drawn with.
pub proof fn lemma_native_bytes_round_trip(lo: u8, hi: u8)
    ensures
        le_bytes(color::NATIVE_COMPONENTS(lo, hi).rgb565()) == seq![lo, hi],
{
    lemma_le_bytes_split(lo, hi);
    assert(le_bytes(lo + 256 * hi) =~= seq![lo, hi]);
}

/// The named colours are drawn as the RGB colours of the same name, and a
/// grey level `l` as the RGB colour whose three channels are `255 - l`.
pub proof fn lemma_named_colors_are_rgb(level: u8)
    ensures
        color::BLACK.rgb565() == color::RGB(0, 0, 0).rgb565(),
        color::RED.rgb565() == color::RGB(255, 0, 0).rgb565(),
        color::GREEN.rgb565() == color::RGB(0, 255, 0).rgb565(),
        color::BLUE.rgb565() == color::RGB(0, 0, 255).rgb565(),
        color::WHITE.rgb565() == color::RGB(255, 255, 255).rgb565(),
        color::GRAY(level).rgb565() == color::RGB(
            (255 - level) as u8,
            (255 - level) as u8,
            (255 - level) as u8,
        ).rgb565(),
{
}

/// Narrowing a channel to five or six bits never turns a brighter channel
/// into a darker one.
proof fn lemma_narrow_channel_monotone(v1: int, v2: int, max: int)
    requires
        0 <= v1 <= v2 < 256,
        max == 31 || max == 63,
    ensures
        narrow_channel(v1, max) <= narrow_channel(v2, max),
        0 <= narrow_channel(v2, max) <= max,
{
    assert((v1 + 1) * max <= (v2 + 1) * max) by (nonlinear_arith)
        requires
            v1 <= v2,
            0 < max,
    ;
    lemma_div_is_ordered((v1 + 1) * max, (v2 + 1) * max, 255);
    assert((v2 + 1) * max <= 256 * max) by (nonlinear_arith)
        requires
            v2 < 256,
            0 < max,
    ;
    lemma_div_is_ordered((v2 + 1) * max, 256 * max, 255);
    lemma_div_is_ordered(0, (v2 + 1) * max, 255);
}

/// The three fields of a packed RGB565 word are the channels it was packed
/// from.
proof fn lemma_pack_rgb565_fields(r5: int, g6: int, b5: int)
    requires
        0 <= r5 < 32,
        0 <= g6 < 64,
        0 <= b5 < 32,
    ensures
        pack_rgb565(r5, g6, b5) / 2048 == r5,
        (pack_rgb565(r5, g6, b5) / 32) % 64 == g6,
        pack_rgb565(r5, g6, b5) % 32 == b5,
{
    assert(pack_rgb565(r5, g6, b5) / 2048 == r5) by (nonlinear_arith)
        requires
            0 <= r5 < 32,
            0 <= g6 < 64,
            0 <= b5 < 32,
    ;
    assert(pack_rgb565(r5, g6, b5) / 32 == r5 * 64 + g6) by (nonlinear_arith)
        requires
            0 <= r5 < 32,
            0 <= g6 < 64,
            0 <= b5 < 32,
    ;
    assert((r5 * 64 + g6) % 64 == g6) by (nonlinear_arith)
        requires
            0 <= r5 < 32,
            0 <= g6 < 64,
    ;
    assert(pack_rgb565(r5, g6, b5) % 32 == b5) by (nonlinear_arith)
        requires
            0 <= r5 < 32,
            0 <= g6 < 64,
            0 <= b5 < 32,
    ;
}

/// Encoding is monotone in each channel: raising any 8-bit channel never
/// lowers the red, green or blue field of the RGB565 word it is encoded as.
pub proof fn lemma_encode_rgb8_monotone(r1: u8, g1: u8, b1: u8, r2: u8, g2: u8, b2: u8)
    requires
        r1 <= r2,
        g1 <= g2,
        b1 <= b2,
    ensures
        ({
            let a = encode_rgb8(r1 as int, g1 as int, b1 as int);
            let v = encode_rgb8(r2 as int, g2 as int, b2 as int);
            &&& a / 2048 <= v / 2048
            &&& (a / 32) % 64 <= (v / 32) % 64
            &&& a % 32 <= v % 32
        }),
{
    lemma_narrow_channel_monotone(r1 as int, r2 as int, 31);
    lemma_narrow_channel_monotone(g1 as int, g2 as int, 63);
    lemma_narrow_channel_monotone(b1 as int, b2 as int, 31);
    lemma_narrow_channel_monotone(r1 as int, r1 as int, 31);
    lemma_narrow_channel_monotone(g1 as int, g1 as int, 63);
    lemma_narrow_channel_monotone(b1 as int, b1 as int, 31);
    lemma_pack_rgb565_fields(
        narrow_channel(r1 as int, 31),
        narrow_channel(g1 as int, 63),
        narrow_channel(b1 as int, 31),
    );
    lemma_pack_rgb565_fields(
        narrow_channel(r2 as int, 31),
        narrow_channel(g2 as int, 63),
        narrow_channel(b2 as int, 31),
    );
}

/// `to_rgb8` decodes the word a colour is drawn with: every colour has the
/// 8-bit channels of the raw bytes it encodes to, so two colours encoded
/// alike decode alike, and a grey level `l` decodes as the RGB colour whose
/// channels are `255 - l` (level 0 white, level 255 black).
pub proof fn lemma_rgb8_decodes_rgb565(c: color, d: color, level: u8)
    ensures
        c.rgb8() == color::NATIVE_COMPONENTS(
            le_bytes(c.rgb565())[0],
            le_bytes(c.rgb565())[1],
        ).rgb8(),
        c.rgb565() == d.rgb565() ==> c.rgb8() == d.rgb8(),
        color::GRAY(level).rgb8() == color::RGB(
            (255 - level) as u8,
            (255 - level) as u8,
            (255 - level) as u8,
        ).rgb8(),
        color::GRAY(0).rgb8() == seq![255u8, 255u8, 255u8],
        color::GRAY(255).rgb8() == seq![0u8, 0u8, 0u8],
{
    lemma_rgb565_in_range(c);
    let w = c.rgb565();
    let n = color::NATIVE_COMPONENTS(le_bytes(w)[0], le_bytes(w)[1]);
    assert(n.rgb565() == w);
    assert(color::GRAY(0).rgb565() == 0xFFFF);
    assert(color::GRAY(255).rgb565() == 0);
    assert(color::GRAY(0).rgb8() =~= seq![255u8, 255u8, 255u8]);
    assert(color::GRAY(255).rgb8() =~= seq![0u8, 0u8, 0u8]);
}

/// Every colour is drawn with a word that fits in 16 bits.
pub proof fn lemma_rgb565_in_range(c: color)
    ensures
        0 <= c.rgb565() < 0x10000,
{
}

} // verus!
