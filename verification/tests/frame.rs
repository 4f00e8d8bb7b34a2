use x11cap::color::{Bgr8, Rgb16};
use x11cap::error::CaptureError;
use x11cap::frame::{capture, Image, NativeImage};
use x11cap::geometry::Geometry;
use x11cap::pixel::PixelLayout;

fn rect(width: u32, height: u32) -> Geometry {
    Geometry { x: 0, y: 0, width, height }
}

fn canonical<'a>(width: i32, height: i32, pixels: &'a [u32]) -> NativeImage<'a> {
    NativeImage { width, height, layout: PixelLayout::canonical(), pixels, colors: &[] }
}

fn layout_565() -> PixelLayout {
    PixelLayout {
        red_mask: 0xF800,
        green_mask: 0x07E0,
        blue_mask: 0x001F,
        bits_per_pixel: 16,
        depth: 16,
    }
}

#[test]
fn canonical_buffer_decodes_to_colors() {
    let pixels = [0x00FF_0000u32, 0x0000_FF00];
    let native = canonical(2, 1, &pixels);
    let frame = capture(Some(&native), &rect(2, 1)).unwrap();
    assert_eq!(frame.as_slice(), &[Bgr8::new(255, 0, 0), Bgr8::new(0, 255, 0)]);
    assert_eq!(frame.get_dimensions(), (2, 1));
}

#[test]
fn frame_has_the_shape_of_the_geometry() {
    let pixels: Vec<u32> = (0..12u32).collect();
    let native = canonical(4, 3, &pixels);
    let frame = capture(Some(&native), &Geometry { x: -7, y: 3, width: 4, height: 3 }).unwrap();
    let (width, height) = frame.get_dimensions();
    assert_eq!((width, height), (4, 3));
    assert_eq!(frame.as_slice().len(), (width * height) as usize);
}

#[test]
fn frame_is_row_major() {
    // two rows of three pixels: blue counts the column, green the row
    let pixels = [0x0000u32, 0x0001, 0x0002, 0x0100, 0x0101, 0x0102];
    let native = canonical(3, 2, &pixels);
    let frame = capture(Some(&native), &rect(3, 2)).unwrap();
    assert_eq!(frame.pixel(0, 0), Some(Bgr8::new(0, 0, 0)));
    assert_eq!(frame.pixel(2, 0), Some(Bgr8::new(0, 0, 2)));
    assert_eq!(frame.pixel(0, 1), Some(Bgr8::new(0, 1, 0)));
    assert_eq!(frame.pixel(2, 1), Some(Bgr8::new(0, 1, 2)));
    assert_eq!(frame.pixel(3, 0), None);
    assert_eq!(frame.pixel(0, 2), None);
    assert_eq!(frame.as_slice()[4], Bgr8::new(0, 1, 1));
}

#[test]
fn no_image_is_a_failed_request() {
    assert_eq!(capture(None, &rect(2, 1)).unwrap_err(), CaptureError::RequestFailed);
}

#[test]
fn image_of_another_size_is_a_failed_request() {
    let pixels = [0u32; 2];
    let native = canonical(2, 1, &pixels);
    assert_eq!(capture(Some(&native), &rect(1, 2)).unwrap_err(), CaptureError::RequestFailed);
    assert_eq!(capture(Some(&native), &rect(2, 2)).unwrap_err(), CaptureError::RequestFailed);
    let native = canonical(-2, -1, &pixels);
    assert_eq!(capture(Some(&native), &rect(2, 1)).unwrap_err(), CaptureError::RequestFailed);
}

#[test]
fn buffer_of_another_length_is_a_wrong_layout() {
    let pixels = [0u32; 3];
    let native = canonical(2, 1, &pixels);
    assert_eq!(capture(Some(&native), &rect(2, 1)).unwrap_err(), CaptureError::WrongPixelLayout);
    let native = canonical(2, 2, &pixels);
    assert_eq!(capture(Some(&native), &rect(2, 2)).unwrap_err(), CaptureError::WrongPixelLayout);
}

#[test]
fn layout_that_cannot_be_decoded_is_a_wrong_layout() {
    let pixels = [0u32; 2];
    let native = NativeImage {
        width: 2,
        height: 1,
        layout: PixelLayout {
            red_mask: 0xFF0000,
            green_mask: 0xF0F0,
            blue_mask: 0xFF,
            bits_per_pixel: 32,
            depth: 24,
        },
        pixels: &pixels,
        colors: &[],
    };
    assert_eq!(capture(Some(&native), &rect(2, 1)).unwrap_err(), CaptureError::WrongPixelLayout);
}

#[test]
fn layout_565_buffer_decodes_every_pixel() {
    let pixels = [0xFFFFu32, 0xF800, 0x07E0, 0x001F];
    let native =
        NativeImage { width: 2, height: 2, layout: layout_565(), pixels: &pixels, colors: &[] };
    let frame = capture(Some(&native), &rect(2, 2)).unwrap();
    assert_eq!(
        frame.as_slice(),
        &[
            Bgr8::new(248, 252, 248),
            Bgr8::new(248, 0, 0),
            Bgr8::new(0, 252, 0),
            Bgr8::new(0, 0, 248),
        ]
    );
}

#[test]
fn indexed_image_takes_the_looked_up_colors() {
    let layout =
        PixelLayout { red_mask: 0, green_mask: 0, blue_mask: 0, bits_per_pixel: 8, depth: 8 };
    let pixels = [3u32, 7];
    let colors = [
        Rgb16 { red: 0xFFFF, green: 0x0000, blue: 0x80FF },
        Rgb16 { red: 0x0100, green: 0x00FF, blue: 0xFE01 },
    ];
    let native = NativeImage { width: 1, height: 2, layout, pixels: &pixels, colors: &colors };
    let frame = capture(Some(&native), &rect(1, 2)).unwrap();
    assert_eq!(frame.as_slice(), &[Bgr8::new(255, 0, 128), Bgr8::new(1, 0, 254)]);
    assert_eq!(frame.get_dimensions(), (1, 2));
}

#[test]
fn indexed_image_without_its_colors_is_a_wrong_layout() {
    let layout =
        PixelLayout { red_mask: 0, green_mask: 0, blue_mask: 0, bits_per_pixel: 8, depth: 8 };
    let pixels = [3u32, 7];
    let colors = [Rgb16 { red: 0, green: 0, blue: 0 }];
    let native = NativeImage { width: 1, height: 2, layout, pixels: &pixels, colors: &colors };
    assert_eq!(capture(Some(&native), &rect(1, 2)).unwrap_err(), CaptureError::WrongPixelLayout);
    let native = NativeImage { width: 1, height: 2, layout, pixels: &pixels, colors: &[] };
    assert_eq!(capture(Some(&native), &rect(1, 2)).unwrap_err(), CaptureError::WrongPixelLayout);
}

#[test]
fn empty_image_gives_an_empty_frame() {
    let native = canonical(0, 5, &[]);
    let frame = capture(Some(&native), &rect(0, 5)).unwrap();
    assert_eq!(frame.as_slice().len(), 0);
    assert_eq!(frame.get_dimensions(), (0, 5));
    assert_eq!(frame.pixel(0, 0), None);
}

#[test]
fn from_native_takes_the_size_of_the_image() {
    let pixels = [0x0012_3456u32; 6];
    let frame = Image::from_native(&canonical(3, 2, &pixels)).unwrap();
    assert_eq!(frame.get_dimensions(), (3, 2));
    assert_eq!(frame.as_slice(), &[Bgr8::new(0x12, 0x34, 0x56); 6]);
}

#[test]
fn from_native_refuses_a_negative_size() {
    assert_eq!(
        Image::from_native(&canonical(-1, -1, &[0])).unwrap_err(),
        CaptureError::WrongPixelLayout
    );
    assert_eq!(
        Image::from_native(&canonical(1, -1, &[])).unwrap_err(),
        CaptureError::WrongPixelLayout
    );
}

#[test]
fn overwrite_replaces_every_pixel_in_place() {
    let first = [0x00FF_0000u32, 0x0000_FF00];
    let second = [0x0000_00FFu32, 0x0012_3456];
    let frame = Image::from_native(&canonical(2, 1, &first)).unwrap();
    let (frame, stored) = frame.overwrite(Some(&canonical(2, 1, &second)));
    assert_eq!(stored, Ok(()));
    assert_eq!(frame.as_slice(), &[Bgr8::new(0, 0, 255), Bgr8::new(0x12, 0x34, 0x56)]);
    assert_eq!(frame.get_dimensions(), (2, 1));
}

#[test]
fn overwrite_that_fails_keeps_the_image() {
    let first = [0x00FF_0000u32, 0x0000_FF00];
    let kept = [Bgr8::new(255, 0, 0), Bgr8::new(0, 255, 0)];
    let frame = Image::from_native(&canonical(2, 1, &first)).unwrap();

    let (frame, stored) = frame.overwrite(None);
    assert_eq!(stored, Err(CaptureError::RequestFailed));
    assert_eq!(frame.as_slice(), &kept);

    let other = [0u32; 2];
    let (frame, stored) = frame.overwrite(Some(&canonical(1, 2, &other)));
    assert_eq!(stored, Err(CaptureError::RequestFailed));
    assert_eq!(frame.as_slice(), &kept);

    let short = [0u32; 1];
    let (frame, stored) = frame.overwrite(Some(&canonical(2, 1, &short)));
    assert_eq!(stored, Err(CaptureError::WrongPixelLayout));
    assert_eq!(frame.as_slice(), &kept);
}

#[test]
fn overwrite_with_looked_up_colors() {
    let first = [0u32, 0];
    let frame = Image::from_native(&canonical(2, 1, &first)).unwrap();
    let layout =
        PixelLayout { red_mask: 0, green_mask: 0, blue_mask: 0, bits_per_pixel: 8, depth: 8 };
    let colors =
        [Rgb16 { red: 0x1000, green: 0x2000, blue: 0x3000 }, Rgb16 { red: 0, green: 0, blue: 0 }];
    let native = NativeImage { width: 2, height: 1, layout, pixels: &first, colors: &colors };
    let (frame, stored) = frame.overwrite(Some(&native));
    assert_eq!(stored, Ok(()));
    assert_eq!(frame.as_slice(), &[Bgr8::new(0x10, 0x20, 0x30), Bgr8::new(0, 0, 0)]);
}
