//! Native pixel layouts and the decoder that turns a native pixel into a
//! canonical color.
//!
//! A pixel is read as a natural number. A channel that occupies `width` bits
//! from bit `shift` on holds the value `(pixel / 2^shift) % 2^width`, which is
//! brought to eight bits as `value * 256 / 2^width`: channels narrower than
//! eight bits are stretched, wider ones lose their low bits.

use vstd::prelude::*;
use vstd::arithmetic::div_mod::{
    lemma_div_by_multiple, lemma_div_multiples_vanish_quotient, lemma_mod_bound,
    lemma_multiply_divide_lt,
};
use vstd::arithmetic::power2::{lemma2_to64, lemma_pow2_adds, lemma_pow2_pos, pow2};
use vstd::bits::{
    lemma_low_bits_mask_values, lemma_u64_low_bits_mask_is_mod, lemma_u64_shl_is_mul,
    lemma_u64_shr_is_div, low_bits_mask,
};
use crate::color::Bgr8;
use crate::error::CaptureError;
use crate::mask::{
    contiguous_mask, is_contiguous, lemma_contiguous_mask_run, mask_bit_width_and_shift,
    mask_shift, mask_width,
};

verus! {

/// How a native pixel integer encodes color.
#[derive(Debug, Clone, Copy, PartialEq, Eq, Structural)]
pub struct PixelLayout {
    pub red_mask: u64,
    pub green_mask: u64,
    pub blue_mask: u64,
    pub bits_per_pixel: i32,
    pub depth: i32,
}

/// The most a pixel word can hold.
pub const MAX_BITS_PER_PIXEL: i32 = 32;

/// The value of the channel of `width` bits at `shift` inside `pixel`.
pub open spec fn channel_value(pixel: nat, width: nat, shift: nat) -> nat {
    (pixel / pow2(shift)) % pow2(width)
}

/// A channel value of `width` bits, brought to eight bits.
pub open spec fn rescale_to_8(value: nat, width: nat) -> nat {
    value * 256 / pow2(width)
}

/// The mask is one run of one bits that lies inside the low `bits` bits of a
/// pixel word.
pub open spec fn channel_fits(mask: u64, bits: int) -> bool {
    &&& bits <= MAX_BITS_PER_PIXEL
    &&& is_contiguous(mask as nat)
    &&& mask_shift(mask as nat) + mask_width(mask as nat) <= bits
}

impl PixelLayout {
    /// 24 bits of color in a 32-bit pixel, red above green above blue.
    pub open spec fn is_canonical(self) -> bool {
        &&& self.depth == 24
        &&& self.bits_per_pixel == 32
        &&& self.red_mask == 0xFF0000
        &&& self.green_mask == 0xFF00
        &&& self.blue_mask == 0xFF
    }

    /// No channel has a mask: pixels are indices into a colormap.
    pub open spec fn is_indexed(self) -> bool {
        self.red_mask == 0 && self.green_mask == 0 && self.blue_mask == 0
    }

    /// Each channel is one run of bits inside a pixel of at most 32 bits.
    pub open spec fn is_masked(self) -> bool {
        &&& channel_fits(self.red_mask, self.bits_per_pixel as int)
        &&& channel_fits(self.green_mask, self.bits_per_pixel as int)
        &&& channel_fits(self.blue_mask, self.bits_per_pixel as int)
    }

    /// The canonical layout.
    pub fn canonical() -> (layout: PixelLayout)
        ensures
            layout.is_canonical(),
    {
        PixelLayout {
            red_mask: 0xFF0000,
            green_mask: 0xFF00,
            blue_mask: 0xFF,
            bits_per_pixel: 32,
            depth: 24,
        }
    }

    /// Whether this is the canonical layout.
    pub fn matches_canonical(&self) -> (yes: bool)
        ensures
            yes == self.is_canonical(),
    {
        self.depth == 24 && self.bits_per_pixel == 32 && self.red_mask == 0xFF0000
            && self.green_mask == 0xFF00 && self.blue_mask == 0xFF
    }

    /// Whether colors have to be looked up in the display server's colormap,
    /// pixel by pixel.
    pub fn needs_color_lookup(&self) -> (yes: bool)
        ensures
            yes == self.is_indexed(),
    {
        self.red_mask == 0 && self.green_mask == 0 && self.blue_mask == 0
    }
}

/// One color channel of a masked layout.
#[derive(Debug, Clone, Copy, PartialEq, Eq, Structural)]
pub struct Channel {
    pub mask: u64,
    pub shift: u32,
    pub width: u32,
}

/// The channel that `mask` describes.
pub open spec fn channel_of(mask: u64) -> Channel {
    Channel {
        mask,
        shift: mask_shift(mask as nat) as u32,
        width: mask_width(mask as nat) as u32,
    }
}

impl Channel {
    /// The channel is one run of bits inside a 32-bit pixel, and `shift` and
    /// `width` are those of `mask`.
    pub open spec fn wf(self) -> bool {
        &&& self.width >= 1
        &&& self.shift + self.width <= MAX_BITS_PER_PIXEL
        &&& self.mask as nat == contiguous_mask(self.width as nat, self.shift as nat)
    }

    /// The eight-bit value of this channel in `pixel`.
    pub open spec fn spec_extract(self, pixel: u32) -> nat {
        rescale_to_8(
            channel_value(pixel as nat, self.width as nat, self.shift as nat),
            self.width as nat,
        )
    }

    /// Reads `mask` as a channel of a pixel of `bits_per_pixel` bits. `None`
    /// when the mask is empty, is not one run of bits, or reaches beyond the
    /// pixel.
    pub fn from_mask(mask: u64, bits_per_pixel: i32) -> (channel: Option<Channel>)
        ensures
            channel_fits(mask, bits_per_pixel as int) ==> channel == Some(channel_of(mask)),
            !channel_fits(mask, bits_per_pixel as int) ==> channel is None,
            channel matches Some(c) ==> c.wf(),
    {
        let (width, shift) = mask_bit_width_and_shift(mask);
        if mask == 0 || bits_per_pixel > MAX_BITS_PER_PIXEL || (width + shift) as i64
            > bits_per_pixel as i64 {
            return None;
        }
        // width + shift <= 32, so the run can be rebuilt without overflow
        proof {
            lemma_run_as_bits(width, shift);
        }
        let low: u64 = (1u64 << width) - 1;
        let rebuilt: u64 = low << shift;
        if rebuilt == mask {
            Some(Channel { mask, shift, width })
        } else {
            None
        }
    }

    /// Takes this channel out of `pixel` and brings it to eight bits.
    pub fn extract(&self, pixel: u32) -> (value: u8)
        requires
            self.wf(),
        ensures
            value == self.spec_extract(pixel),
    {
        let raw: u64 = ((pixel as u64) & self.mask) >> self.shift;
        proof {
            lemma_masked_shift_is_channel_value(pixel, self.width, self.shift);
            lemma_rescale_as_shifts(raw, self.width);
        }
        if self.width <= 8 {
            (raw << (8 - self.width)) as u8
        } else {
            (raw >> (self.width - 8)) as u8
        }
    }
}

/// For a run inside 32 bits, the bit expression `((1 << width) - 1) << shift`
/// is the contiguous mask of that width and shift.
proof fn lemma_run_as_bits(width: u32, shift: u32)
    requires
        width + shift <= 32,
    ensures
        (1u64 << width) >= 1,
        (((1u64 << width) - 1) as u64) << shift == contiguous_mask(width as nat, shift as nat),
        contiguous_mask(width as nat, shift as nat) <= u32::MAX,
{
    let w = width as u64;
    let s = shift as u64;
    lemma2_to64();
    lemma_pow2_pos(width as nat);
    lemma_pow2_pos(shift as nat);
    lemma_pow2_adds(width as nat, shift as nat);
    // 2^width as a shift
    assert(1 * pow2(width as nat) == pow2(width as nat));
    lemma_pow2_at_most_32(width as nat);
    lemma_pow2_at_most_32(shift as nat);
    lemma_pow2_at_most_32((width + shift) as nat);
    lemma_u64_shl_is_mul(1u64, w);
    assert(1u64 << width == 1u64 << w) by (bit_vector)
        requires
            w == width as u64,
    ;
    let low: u64 = ((1u64 << width) - 1) as u64;
    assert(low == low_bits_mask(width as nat));
    assert(low * pow2(shift as nat) == pow2(width as nat) * pow2(shift as nat) - pow2(shift as nat))
        by (nonlinear_arith)
        requires
            low == pow2(width as nat) - 1,
    ;
    lemma_u64_shl_is_mul(low, s);
    assert(low << shift == low << s) by (bit_vector)
        requires
            s == shift as u64,
    ;
}

/// Powers of two up to `2^32` stay below `2^32 + 1`.
proof fn lemma_pow2_at_most_32(e: nat)
    requires
        e <= 32,
    ensures
        pow2(e) <= 0x1_0000_0000,
{
    lemma2_to64();
    if e < 32 {
        vstd::arithmetic::power2::lemma_pow2_strictly_increases(e, 32);
    }
}

/// Masking a pixel with a run and shifting the run down gives the channel
/// value.
proof fn lemma_masked_shift_is_channel_value(pixel: u32, width: u32, shift: u32)
    requires
        width >= 1,
        width + shift <= 32,
    ensures
        contiguous_mask(width as nat, shift as nat) <= u32::MAX,
        ((pixel as u64) & (contiguous_mask(width as nat, shift as nat) as u64)) >> shift
            == channel_value(pixel as nat, width as nat, shift as nat),
        channel_value(pixel as nat, width as nat, shift as nat) < pow2(width as nat),
        pow2(width as nat) <= 0x1_0000_0000,
{
    let p = pixel as u64;
    let s = shift as u64;
    let low: u64 = ((1u64 << width) - 1) as u64;
    lemma_run_as_bits(width, shift);
    lemma_run_as_bits(width, 0);
    lemma2_to64();
    assert(low == low_bits_mask(width as nat)) by {
        assert(low << 0u32 == low) by (bit_vector);
        assert(low_bits_mask(width as nat) * 1 == low_bits_mask(width as nat));
    }
    assert((p & (low << shift)) >> shift == (p >> s) & low) by (bit_vector)
        requires
            low < 0x1_0000_0000,
            shift <= 32,
            s == shift as u64,
    ;
    lemma_u64_shr_is_div(p, s);
    lemma_u64_low_bits_mask_is_mod(p >> s, width as nat);
    lemma_pow2_pos(width as nat);
    lemma_pow2_at_most_32(width as nat);
    lemma_mod_bound((p >> s) as int, pow2(width as nat) as int);
}

/// The two shifts of `extract` compute `rescale_to_8`, and the result fits
/// in a byte.
proof fn lemma_rescale_as_shifts(raw: u64, width: u32)
    requires
        1 <= width <= 32,
        raw < pow2(width as nat),
    ensures
        rescale_to_8(raw as nat, width as nat) < 256,
        width <= 8 ==> raw << ((8 - width) as u32) == rescale_to_8(raw as nat, width as nat),
        width > 8 ==> raw >> ((width - 8) as u32) == rescale_to_8(raw as nat, width as nat),
{
    let w = width as nat;
    lemma_pow2_pos(w);
    lemma_rescale_by_cases(raw as nat, w);
    assert(raw * 256 < pow2(w) * 256) by (nonlinear_arith)
        requires
            raw < pow2(w),
    ;
    lemma_multiply_divide_lt(raw as int * 256, pow2(w) as int, 256);
    if width <= 8 {
        let up = (8 - width) as u64;
        lemma_u64_shl_is_mul(raw, up);
        assert(raw << ((8 - width) as u32) == raw << up) by (bit_vector)
            requires
                up == (8 - width) as u32 as u64,
        ;
    } else {
        let down = (width - 8) as u64;
        lemma_u64_shr_is_div(raw, down);
        assert(raw >> ((width - 8) as u32) == raw >> down) by (bit_vector)
            requires
                down == (width - 8) as u32 as u64,
        ;
    }
}

/// A pure mapping from a native pixel to a canonical color.
#[derive(Debug, Clone, Copy, PartialEq, Eq, Structural)]
pub enum PixelDecoder {
    /// The pixel already is a canonical record: its bytes are taken as they
    /// are.
    Canonical,
    /// Each channel is taken out by its mask and brought to eight bits.
    Masked { red: Channel, green: Channel, blue: Channel },
}

impl PixelDecoder {
    pub open spec fn wf(self) -> bool {
        match self {
            PixelDecoder::Canonical => true,
            PixelDecoder::Masked { red, green, blue } => red.wf() && green.wf() && blue.wf(),
        }
    }

    /// The color that `pixel` stands for.
    pub open spec fn spec_decode(self, pixel: u32) -> Bgr8 {
        match self {
            PixelDecoder::Canonical => Bgr8 {
                b: (pixel as nat % 256) as u8,
                g: (pixel as nat / 0x100 % 256) as u8,
                r: (pixel as nat / 0x1_0000 % 256) as u8,
                _pad: (pixel as nat / 0x100_0000) as u8,
            },
            PixelDecoder::Masked { red, green, blue } => Bgr8 {
                b: blue.spec_extract(pixel) as u8,
                g: green.spec_extract(pixel) as u8,
                r: red.spec_extract(pixel) as u8,
                _pad: 0,
            },
        }
    }

    /// Decodes one native pixel.
    pub fn decode(&self, pixel: u32) -> (color: Bgr8)
        requires
            self.wf(),
        ensures
            color == self.spec_decode(pixel),
    {
        match self {
            PixelDecoder::Canonical => {
                proof {
                    assert(pixel & 0xFF == pixel % 256) by (bit_vector);
                    assert((pixel >> 8u32) & 0xFF == pixel / 0x100 % 256) by (bit_vector);
                    assert((pixel >> 16u32) & 0xFF == pixel / 0x1_0000 % 256) by (bit_vector);
                    assert(pixel >> 24u32 == pixel / 0x100_0000) by (bit_vector);
                    assert(pixel >> 24u32 < 256) by (bit_vector);
                }
                Bgr8 {
                    b: (pixel & 0xFF) as u8,
                    g: ((pixel >> 8u32) & 0xFF) as u8,
                    r: ((pixel >> 16u32) & 0xFF) as u8,
                    _pad: (pixel >> 24u32) as u8,
                }
            },
            PixelDecoder::Masked { red, green, blue } => Bgr8 {
                b: blue.extract(pixel),
                g: green.extract(pixel),
                r: red.extract(pixel),
                _pad: 0,
            },
        }
    }
}

/// The decoder that fits `layout`, if there is one: the canonical layout is
/// taken as it is, any other layout of three channel runs is decoded by its
/// masks.
pub open spec fn spec_decoder(layout: PixelLayout) -> Option<PixelDecoder> {
    if layout.is_canonical() {
        Some(PixelDecoder::Canonical)
    } else if layout.is_masked() {
        Some(
            PixelDecoder::Masked {
                red: channel_of(layout.red_mask),
                green: channel_of(layout.green_mask),
                blue: channel_of(layout.blue_mask),
            },
        )
    } else {
        None
    }
}

/// Chooses the decoder for `layout`. A layout with an empty mask, a mask
/// that is not one run of bits, or a mask that reaches beyond the pixel is
/// refused.
pub fn build_decoder(layout: PixelLayout) -> (decoder: Result<PixelDecoder, CaptureError>)
    ensures
        decoder == match spec_decoder(layout) {
            Some(d) => Ok::<PixelDecoder, CaptureError>(d),
            None => Err::<PixelDecoder, CaptureError>(CaptureError::WrongPixelLayout),
        },
        decoder matches Ok(d) ==> d.wf(),
{
    if layout.matches_canonical() {
        return Ok(PixelDecoder::Canonical);
    }
    let red = Channel::from_mask(layout.red_mask, layout.bits_per_pixel);
    let green = Channel::from_mask(layout.green_mask, layout.bits_per_pixel);
    let blue = Channel::from_mask(layout.blue_mask, layout.bits_per_pixel);
    match (red, green, blue) {
        (Some(red), Some(green), Some(blue)) => Ok(PixelDecoder::Masked { red, green, blue }),
        _ => Err(CaptureError::WrongPixelLayout),
    }
}

/// On the canonical layout, taking the record as it is and decoding by the
/// masks give the same red, green and blue.
pub proof fn lemma_canonical_agrees_with_masks(pixel: u32)
    ensures
        channel_of(0xFF0000) == (Channel { mask: 0xFF0000, shift: 16, width: 8 }),
        channel_of(0xFF00) == (Channel { mask: 0xFF00, shift: 8, width: 8 }),
        channel_of(0xFF) == (Channel { mask: 0xFF, shift: 0, width: 8 }),
        PixelDecoder::Canonical.spec_decode(pixel).r == channel_of(0xFF0000).spec_extract(pixel),
        PixelDecoder::Canonical.spec_decode(pixel).g == channel_of(0xFF00).spec_extract(pixel),
        PixelDecoder::Canonical.spec_decode(pixel).b == channel_of(0xFF).spec_extract(pixel),
{
    lemma2_to64();
    lemma_low_bits_mask_values();
    lemma_contiguous_mask_run(8, 16);
    lemma_contiguous_mask_run(8, 8);
    lemma_contiguous_mask_run(8, 0);
    assert(contiguous_mask(8, 16) == 0xFF0000);
    assert(contiguous_mask(8, 8) == 0xFF00);
    assert(contiguous_mask(8, 0) == 0xFF);
    let p = pixel as nat;
    assert(rescale_to_8(channel_value(p, 8, 16), 8) == channel_value(p, 8, 16));
    assert(rescale_to_8(channel_value(p, 8, 8), 8) == channel_value(p, 8, 8));
    assert(rescale_to_8(channel_value(p, 8, 0), 8) == channel_value(p, 8, 0));
}

/// Taking a canonical pixel as it is loses nothing: the record, read back as
/// a little-endian word, is the pixel.
pub proof fn lemma_canonical_is_identity(pixel: u32)
    ensures
        PixelDecoder::Canonical.spec_decode(pixel).word() == pixel,
{
}

/// The two readings of the rescaling agree with its definition: a channel of
/// at most eight bits is multiplied by `256 / 2^width`, so a channel of
/// eight bits is used as it is; a wider one is divided by `2^(width - 8)`.
pub proof fn lemma_rescale_by_cases(value: nat, width: nat)
    ensures
        width <= 8 ==> rescale_to_8(value, width) == value * (256nat / pow2(width)),
        width <= 8 ==> 256nat / pow2(width) == pow2((8 - width) as nat),
        width == 8 ==> rescale_to_8(value, width) == value,
        width >= 8 ==> rescale_to_8(value, width) == value / pow2((width - 8) as nat),
{
    lemma2_to64();
    lemma_pow2_pos(width);
    if width <= 8 {
        let up = (8 - width) as nat;
        lemma_pow2_adds(up, width);
        lemma_pow2_pos(up);
        lemma_div_by_multiple(pow2(up) as int, pow2(width) as int);
        assert(value * 256 == (value * pow2(up)) * pow2(width)) by (nonlinear_arith)
            requires
                pow2(up) * pow2(width) == 256,
        ;
        lemma_div_by_multiple(value as int * pow2(up) as int, pow2(width) as int);
    }
    if width >= 8 {
        let down = (width - 8) as nat;
        lemma_pow2_adds(8, down);
        lemma_pow2_pos(down);
        lemma_div_multiples_vanish_quotient(256, value as int, pow2(down) as int);
        assert(value * 256 == 256 * value);
    }
}

/// A channel whose bits are all set keeps full scale: narrower than eight
/// bits it becomes `256 - 2^(8 - width)`, from eight bits on it becomes 255.
pub proof fn lemma_full_channel_rescales_to_full_scale(width: nat)
    requires
        width >= 1,
    ensures
        width <= 8 ==> rescale_to_8(low_bits_mask(width), width) == 256 - pow2((8 - width) as nat),
        width >= 8 ==> rescale_to_8(low_bits_mask(width), width) == 255,
        rescale_to_8(low_bits_mask(width), width) >= 128,
{
    lemma2_to64();
    lemma_pow2_pos(width);
    let full = low_bits_mask(width);
    if width <= 8 {
        let up = (8 - width) as nat;
        lemma_pow2_adds(up, width);
        lemma_pow2_pos(up);
        assert(full * 256 == (256 - pow2(up)) * pow2(width)) by (nonlinear_arith)
            requires
                full == pow2(width) - 1,
                pow2(up) * pow2(width) == 256,
        ;
        assert(pow2(up) <= 128) by {
            if up >= 8 {
                vstd::arithmetic::power2::lemma_pow2_strictly_increases(7, up);
            } else if up < 7 {
                vstd::arithmetic::power2::lemma_pow2_strictly_increases(up, 7);
            }
        }
        lemma_div_by_multiple(256 - pow2(up), pow2(width) as int);
    } else {
        let down = (width - 8) as nat;
        lemma_pow2_adds(8, down);
        lemma_pow2_pos(down);
        // full * 256 = 255 * 2^width + (2^width - 256), and 0 <= 2^width - 256 < 2^width
        vstd::arithmetic::div_mod::lemma_fundamental_div_mod_converse(
            full as int * 256,
            pow2(width) as int,
            255,
            pow2(width) as int - 256,
        );
    }
}

} // verus!
