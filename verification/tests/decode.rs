use x11cap::color::{Bgr8, Rgb16};
use x11cap::error::CaptureError;
use x11cap::mask::mask_bit_width_and_shift;
use x11cap::pixel::{build_decoder, Channel, PixelDecoder, PixelLayout};

fn layout(red: u64, green: u64, blue: u64, bits_per_pixel: i32, depth: i32) -> PixelLayout {
    PixelLayout { red_mask: red, green_mask: green, blue_mask: blue, bits_per_pixel, depth }
}

#[test]
fn mask_of_red_channel() {
    assert_eq!(mask_bit_width_and_shift(0xFF0000), (8, 16));
}

#[test]
fn mask_of_five_low_bits() {
    assert_eq!(mask_bit_width_and_shift(0x1F), (5, 0));
}

#[test]
fn mask_without_bits_gives_zero() {
    assert_eq!(mask_bit_width_and_shift(0), (0, 0));
}

#[test]
fn mask_of_all_bits() {
    assert_eq!(mask_bit_width_and_shift(u64::MAX), (64, 0));
}

#[test]
fn mask_of_top_bit() {
    assert_eq!(mask_bit_width_and_shift(1u64 << 63), (1, 63));
}

#[test]
fn mask_with_a_gap_gives_its_first_run() {
    assert_eq!(mask_bit_width_and_shift(0b1011), (2, 0));
    assert_eq!(mask_bit_width_and_shift(0b1010_0000), (1, 5));
}

#[test]
fn every_contiguous_mask_decodes_to_its_width_and_shift() {
    let mut width: u32 = 1;
    while width <= 64 {
        let mut shift: u32 = 0;
        while width + shift <= 64 {
            let low: u64 = if width == 64 { u64::MAX } else { (1u64 << width) - 1 };
            let mask = low << shift;
            assert_eq!(mask_bit_width_and_shift(mask), (width, shift));
            shift += 1;
        }
        width += 1;
    }
}

#[test]
fn canonical_layout_takes_the_fast_path() {
    let decoder = build_decoder(PixelLayout::canonical());
    assert_eq!(decoder, Ok(PixelDecoder::Canonical));
    assert!(PixelLayout::canonical().matches_canonical());
}

#[test]
fn canonical_pixel_decodes_to_its_bytes() {
    let decoder = build_decoder(layout(0xFF0000, 0xFF00, 0xFF, 32, 24)).unwrap();
    let color = decoder.decode(0x0010_2030);
    assert_eq!(color.r, 0x10);
    assert_eq!(color.g, 0x20);
    assert_eq!(color.b, 0x30);
    assert_eq!(color, Bgr8::new(0x10, 0x20, 0x30));
}

#[test]
fn canonical_decode_keeps_the_fourth_byte() {
    let color = PixelDecoder::Canonical.decode(0xAB10_2030);
    assert_eq!(color._pad, 0xAB);
    assert_eq!(color.to_word(), 0xAB10_2030);
}

#[test]
fn canonical_record_reads_back_as_the_pixel() {
    for pixel in [0u32, 1, 0x00FF_0000, 0x0000_FF00, 0x1234_5678, u32::MAX] {
        assert_eq!(PixelDecoder::Canonical.decode(pixel).to_word(), pixel);
    }
}

#[test]
fn layout_565_rescales_full_channels_to_full_scale() {
    let decoder = build_decoder(layout(0xF800, 0x07E0, 0x001F, 16, 16)).unwrap();
    let white = decoder.decode(0xFFFF);
    assert_eq!(white.r, 248);
    assert_eq!(white.g, 252);
    assert_eq!(white.b, 248);
    assert_ne!(white.r, 31);
    assert_eq!(white._pad, 0);
}

#[test]
fn layout_565_decodes_each_channel_apart() {
    let decoder = build_decoder(layout(0xF800, 0x07E0, 0x001F, 16, 16)).unwrap();
    assert_eq!(decoder.decode(0xF800), Bgr8::new(248, 0, 0));
    assert_eq!(decoder.decode(0x07E0), Bgr8::new(0, 252, 0));
    assert_eq!(decoder.decode(0x001F), Bgr8::new(0, 0, 248));
    assert_eq!(decoder.decode(0x0000), Bgr8::new(0, 0, 0));
    // red 1, green 2, blue 3
    assert_eq!(decoder.decode((1 << 11) | (2 << 5) | 3), Bgr8::new(8, 8, 24));
}

#[test]
fn layout_565_channels_have_width_and_shift() {
    let decoder = build_decoder(layout(0xF800, 0x07E0, 0x001F, 16, 16)).unwrap();
    assert_eq!(
        decoder,
        PixelDecoder::Masked {
            red: Channel { mask: 0xF800, shift: 11, width: 5 },
            green: Channel { mask: 0x07E0, shift: 5, width: 6 },
            blue: Channel { mask: 0x001F, shift: 0, width: 5 },
        }
    );
}

#[test]
fn swapped_masks_decode_by_mask_not_by_position() {
    // red in the low byte, blue in the third
    let decoder = build_decoder(layout(0xFF, 0xFF00, 0xFF0000, 32, 24)).unwrap();
    assert_eq!(decoder.decode(0x0010_2030), Bgr8::new(0x30, 0x20, 0x10));
}

#[test]
fn eight_bit_channels_are_used_as_they_are() {
    // same masks as the canonical layout, but another depth
    let decoder = build_decoder(layout(0xFF0000, 0xFF00, 0xFF, 32, 32)).unwrap();
    assert!(matches!(decoder, PixelDecoder::Masked { .. }));
    assert_eq!(decoder.decode(0xAB10_2030), Bgr8::new(0x10, 0x20, 0x30));
}

#[test]
fn masked_and_canonical_decoders_agree_on_colors() {
    let masked = build_decoder(layout(0xFF0000, 0xFF00, 0xFF, 32, 32)).unwrap();
    for pixel in [0u32, 0x00FF_FFFF, 0x0012_3456, 0xFFFF_FFFF, 0x8000_0001] {
        let a = masked.decode(pixel);
        let b = PixelDecoder::Canonical.decode(pixel);
        assert_eq!((a.r, a.g, a.b), (b.r, b.g, b.b));
    }
}

#[test]
fn ten_bit_channels_lose_their_low_bits() {
    let decoder = build_decoder(layout(0x3FF0_0000, 0x000F_FC00, 0x0000_03FF, 32, 30)).unwrap();
    assert_eq!(decoder.decode(0x3FFF_FFFF), Bgr8::new(255, 255, 255));
    // red 0x200, green 0x004, blue 0x3FB
    let pixel = (0x200 << 20) | (0x004 << 10) | 0x3FB;
    assert_eq!(decoder.decode(pixel), Bgr8::new(0x80, 0x01, 0xFE));
}

#[test]
fn one_bit_channels_become_zero_or_half_scale() {
    let decoder = build_decoder(layout(0b100, 0b010, 0b001, 8, 3)).unwrap();
    assert_eq!(decoder.decode(0b111), Bgr8::new(128, 128, 128));
    assert_eq!(decoder.decode(0b100), Bgr8::new(128, 0, 0));
}

#[test]
fn empty_mask_is_refused() {
    assert_eq!(
        build_decoder(layout(0xFF0000, 0, 0xFF, 32, 24)),
        Err(CaptureError::WrongPixelLayout)
    );
    assert_eq!(build_decoder(layout(0, 0, 0, 8, 8)), Err(CaptureError::WrongPixelLayout));
}

#[test]
fn mask_with_a_gap_is_refused() {
    assert_eq!(
        build_decoder(layout(0xFF0000, 0xF0F0, 0xFF, 32, 24)),
        Err(CaptureError::WrongPixelLayout)
    );
}

#[test]
fn mask_beyond_the_pixel_is_refused() {
    // red needs bits 16..24 of a 16-bit pixel
    assert_eq!(
        build_decoder(layout(0xFF0000, 0xFF00, 0xFF, 16, 16)),
        Err(CaptureError::WrongPixelLayout)
    );
    // a mask above 32 bits
    assert_eq!(
        build_decoder(layout(0xFF_0000_0000, 0xFF00, 0xFF, 32, 24)),
        Err(CaptureError::WrongPixelLayout)
    );
}

#[test]
fn pixel_wider_than_a_word_is_refused() {
    assert_eq!(
        build_decoder(layout(0xFF0000, 0xFF00, 0xFF, 64, 24)),
        Err(CaptureError::WrongPixelLayout)
    );
    assert_eq!(
        build_decoder(layout(0xFF0000, 0xFF00, 0xFF, -1, 24)),
        Err(CaptureError::WrongPixelLayout)
    );
}

#[test]
fn channel_from_mask() {
    assert_eq!(Channel::from_mask(0x07E0, 16), Some(Channel { mask: 0x07E0, shift: 5, width: 6 }));
    assert_eq!(Channel::from_mask(0x07E0, 11), Some(Channel { mask: 0x07E0, shift: 5, width: 6 }));
    assert_eq!(Channel::from_mask(0x07E0, 10), None);
    assert_eq!(Channel::from_mask(0, 32), None);
    assert_eq!(Channel::from_mask(0b101, 32), None);
    assert_eq!(Channel::from_mask(0xFFFF_FFFF, 32), Some(Channel { mask: 0xFFFF_FFFF, shift: 0, width: 32 }));
    assert_eq!(Channel::from_mask(0x1_FFFF_FFFF, 32), None);
    assert_eq!(Channel::from_mask(0xFF, 33), None);
}

#[test]
fn channel_extract_takes_and_rescales() {
    let green = Channel { mask: 0x07E0, shift: 5, width: 6 };
    assert_eq!(green.extract(0x07E0), 252);
    assert_eq!(green.extract(0xF81F), 0);
    assert_eq!(green.extract(1 << 5), 4);
    let whole = Channel { mask: 0xFFFF_FFFF, shift: 0, width: 32 };
    assert_eq!(whole.extract(0xAB00_0000), 0xAB);
    assert_eq!(whole.extract(0x00FF_FFFF), 0);
}

#[test]
fn layout_without_masks_needs_color_lookup() {
    assert!(layout(0, 0, 0, 8, 8).needs_color_lookup());
    assert!(!layout(0, 0, 1, 8, 8).needs_color_lookup());
    assert!(!PixelLayout::canonical().needs_color_lookup());
}

#[test]
fn sixteen_bit_colors_drop_their_low_byte() {
    let color = Bgr8::from_rgb16(Rgb16 { red: 0xFFFF, green: 0x8000, blue: 0x00FF });
    assert_eq!(color, Bgr8::new(255, 128, 0));
    let color = Bgr8::from_rgb16(Rgb16 { red: 0x1234, green: 0x0100, blue: 0xFF00 });
    assert_eq!(color, Bgr8::new(0x12, 0x01, 0xFF));
}

#[test]
fn color_word_is_little_endian() {
    assert_eq!(Bgr8::new(0x10, 0x20, 0x30).to_word(), 0x0010_2030);
    assert_eq!(Bgr8 { b: 1, g: 2, r: 3, _pad: 4 }.to_word(), 0x0403_0201);
}

#[test]
fn capture_errors_have_messages() {
    assert_eq!(CaptureError::WrongPixelLayout.message(), "Wrong layout");
    assert_eq!(CaptureError::RequestFailed.message(), "XGetImage returned null pointer");
    assert_eq!(CaptureError::ShmUnavailable.message(), "No shared memory extension");
    assert_eq!(CaptureError::AllocFailed.message(), "Shared memory allocation failed");
    assert_eq!(CaptureError::AttachFailed.message(), "Shared memory attach failed");
}
