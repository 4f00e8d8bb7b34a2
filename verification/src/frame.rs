//! Frames: the native image as the display server returns it, and the
//! captured image in canonical colors.

use vstd::prelude::*;
use crate::color::{Bgr8, Rgb16};
use crate::error::CaptureError;
use crate::geometry::Geometry;
use crate::pixel::{build_decoder, spec_decoder, PixelDecoder, PixelLayout};

verus! {

/// An image as the display server returned it: its size, its pixel layout
/// and its pixels as native words, row by row from the top, each row from the
/// left. For a layout without masks, `colors` holds what the colormap gave
/// for each pixel, in the same order.
#[derive(Debug, Clone, Copy)]
pub struct NativeImage<'a> {
    pub width: i32,
    pub height: i32,
    pub layout: PixelLayout,
    pub pixels: &'a [u32],
    pub colors: &'a [Rgb16],
}

/// A captured image: `width * height` canonical colors in row-major order.
#[derive(Debug)]
pub struct Image {
    width: u32,
    height: u32,
    pixels: Vec<Bgr8>,
}

/// Every native pixel decoded by `decoder`.
pub open spec fn decode_pixels(decoder: PixelDecoder, pixels: Seq<u32>) -> Seq<Bgr8> {
    Seq::new(pixels.len(), |i: int| decoder.spec_decode(pixels[i]))
}

/// Every looked-up color scaled down to eight bits per channel.
pub open spec fn lookup_pixels(colors: Seq<Rgb16>) -> Seq<Bgr8> {
    Seq::new(colors.len(), |i: int| Bgr8::spec_from_rgb16(colors[i]))
}

/// The canonical pixels of a native image, or why it cannot be decoded.
pub open spec fn spec_decode_image(image: NativeImage) -> Result<Seq<Bgr8>, CaptureError> {
    let area = image.width as int * image.height as int;
    if image.width < 0 || image.height < 0 {
        Err(CaptureError::WrongPixelLayout)
    } else {
        match spec_decoder(image.layout) {
            Some(decoder) => if image.pixels@.len() == area {
                Ok(decode_pixels(decoder, image.pixels@))
            } else {
                Err(CaptureError::WrongPixelLayout)
            },
            None => if image.layout.is_indexed() && image.colors@.len() == area {
                Ok(lookup_pixels(image.colors@))
            } else {
                Err(CaptureError::WrongPixelLayout)
            },
        }
    }
}

/// The image that a reply holds, if it holds one.
pub open spec fn reply_value<'a>(reply: Option<&NativeImage<'a>>) -> Option<NativeImage<'a>> {
    match reply {
        Some(image) => Some(*image),
        None => None,
    }
}

/// The pixels of the frame that a reply to a request for `width` by `height`
/// pixels gives, or the error it gives.
pub open spec fn spec_capture(reply: Option<NativeImage>, width: u32, height: u32) -> Result<
    Seq<Bgr8>,
    CaptureError,
> {
    match reply {
        None => Err(CaptureError::RequestFailed),
        Some(image) => if image.width != width || image.height != height {
            Err(CaptureError::RequestFailed)
        } else {
            spec_decode_image(image)
        },
    }
}

impl View for Image {
    type V = Seq<Bgr8>;

    closed spec fn view(&self) -> Seq<Bgr8> {
        self.pixels@
    }
}

impl Image {
    #[verifier::type_invariant]
    spec fn shape_holds(self) -> bool {
        self.pixels@.len() == self.width * self.height
    }

    /// Width in pixels.
    pub closed spec fn spec_width(&self) -> u32 {
        self.width
    }

    /// Height in pixels.
    pub closed spec fn spec_height(&self) -> u32 {
        self.height
    }

    /// The pixels, row by row from the top, each row from the left.
    pub fn as_slice(&self) -> (pixels: &[Bgr8])
        ensures
            pixels@ == self@,
            pixels@.len() == self.spec_width() * self.spec_height(),
    {
        proof {
            use_type_invariant(self);
        }
        self.pixels.as_slice()
    }

    /// Width and height, in pixels.
    pub fn get_dimensions(&self) -> (dimensions: (u32, u32))
        ensures
            dimensions.0 == self.spec_width(),
            dimensions.1 == self.spec_height(),
            self@.len() == dimensions.0 * dimensions.1,
    {
        proof {
            use_type_invariant(self);
        }
        (self.width, self.height)
    }

    /// The pixel in column `x` of row `y`, or `None` outside the image.
    pub fn pixel(&self, x: u32, y: u32) -> (color: Option<Bgr8>)
        ensures
            x < self.spec_width() && y < self.spec_height() ==> color == Some(
                self@[y * self.spec_width() + x],
            ),
            !(x < self.spec_width() && y < self.spec_height()) ==> color is None,
    {
        proof {
            use_type_invariant(self);
        }
        let len: usize = self.pixels.len();
        if x < self.width && y < self.height {
            proof {
                lemma_row_major_index(x as int, y as int, self.width as int, self.height as int);
                assert(y * self.width + x < len);
            }
            let index: usize = (y as usize) * (self.width as usize) + (x as usize);
            Some(self.pixels[index])
        } else {
            None
        }
    }

    /// Decodes a native image into an image of its own size.
    pub fn from_native(image: &NativeImage) -> (frame: Result<Image, CaptureError>)
        ensures
            match spec_decode_image(*image) {
                Ok(pixels) => frame matches Ok(f) && f@ == pixels && f.spec_width() == image.width
                    && f.spec_height() == image.height && f@.len() == image.width * image.height,
                Err(e) => frame matches Err(got) && got == e,
            },
    {
        if image.width < 0 || image.height < 0 {
            return Err(CaptureError::WrongPixelLayout);
        }
        let width: u32 = image.width as u32;
        let height: u32 = image.height as u32;
        proof {
            lemma_area_bound(width as int, height as int);
        }
        let area: u64 = (width as u64) * (height as u64);
        match build_decoder(image.layout) {
            Ok(decoder) => {
                if image.pixels.len() as u64 != area {
                    return Err(CaptureError::WrongPixelLayout);
                }
                let n: usize = image.pixels.len();
                let mut pixels: Vec<Bgr8> = Vec::with_capacity(n);
                let mut i: usize = 0;
                while i < n
                    invariant
                        decoder.wf(),
                        n == image.pixels@.len(),
                        i <= n,
                        pixels@.len() == i,
                        forall|j: int|
                            0 <= j < i ==> pixels@[j] == decoder.spec_decode(
                                #[trigger] image.pixels@[j],
                            ),
                    decreases n - i,
                {
                    pixels.push(decoder.decode(image.pixels[i]));
                    i = i + 1;
                }
                assert(pixels@ =~= decode_pixels(decoder, image.pixels@));
                Ok(Image { width, height, pixels })
            },
            Err(_) => {
                if !image.layout.needs_color_lookup() || image.colors.len() as u64 != area {
                    return Err(CaptureError::WrongPixelLayout);
                }
                let n: usize = image.colors.len();
                let mut pixels: Vec<Bgr8> = Vec::with_capacity(n);
                let mut i: usize = 0;
                while i < n
                    invariant
                        n == image.colors@.len(),
                        i <= n,
                        pixels@.len() == i,
                        forall|j: int|
                            0 <= j < i ==> pixels@[j] == Bgr8::spec_from_rgb16(
                                #[trigger] image.colors@[j],
                            ),
                    decreases n - i,
                {
                    pixels.push(Bgr8::from_rgb16(image.colors[i]));
                    i = i + 1;
                }
                assert(pixels@ =~= lookup_pixels(image.colors@));
                Ok(Image { width, height, pixels })
            },
        }
    }

    /// Decodes a native image over this one, pixel by pixel, in the buffer
    /// that this image already has. The native image must have this image's
    /// size; on any error the image comes back as it was.
    pub fn overwrite(self, reply: Option<&NativeImage>) -> (stored: (
        Image,
        Result<(), CaptureError>,
    ))
        ensures
            stored.0.spec_width() == self.spec_width(),
            stored.0.spec_height() == self.spec_height(),
            match spec_capture(
                reply_value(reply),
                self.spec_width(),
                self.spec_height(),
            ) {
                Ok(pixels) => stored.1 is Ok && stored.0@ == pixels,
                Err(e) => stored.1 == Err::<(), CaptureError>(e) && stored.0@ == self@,
            },
    {
        proof {
            use_type_invariant(&self);
        }
        let image = match reply {
            None => {
                return (self, Err(CaptureError::RequestFailed));
            },
            Some(image) => image,
        };
        if image.width < 0 || image.height < 0 || image.width as u32 != self.width
            || image.height as u32 != self.height {
            return (self, Err(CaptureError::RequestFailed));
        }
        let n: usize = self.pixels.len();
        match build_decoder(image.layout) {
            Ok(decoder) => {
                if image.pixels.len() != n {
                    return (self, Err(CaptureError::WrongPixelLayout));
                }
                let Image { width, height, mut pixels } = self;
                let mut i: usize = 0;
                while i < n
                    invariant
                        decoder.wf(),
                        n == image.pixels@.len(),
                        n == pixels@.len(),
                        i <= n,
                        forall|j: int|
                            0 <= j < i ==> pixels@[j] == decoder.spec_decode(
                                #[trigger] image.pixels@[j],
                            ),
                    decreases n - i,
                {
                    pixels.set(i, decoder.decode(image.pixels[i]));
                    i = i + 1;
                }
                assert(pixels@ =~= decode_pixels(decoder, image.pixels@));
                (Image { width, height, pixels }, Ok(()))
            },
            Err(_) => {
                if !image.layout.needs_color_lookup() || image.colors.len() != n {
                    return (self, Err(CaptureError::WrongPixelLayout));
                }
                let Image { width, height, mut pixels } = self;
                let mut i: usize = 0;
                while i < n
                    invariant
                        n == image.colors@.len(),
                        n == pixels@.len(),
                        i <= n,
                        forall|j: int|
                            0 <= j < i ==> pixels@[j] == Bgr8::spec_from_rgb16(
                                #[trigger] image.colors@[j],
                            ),
                    decreases n - i,
                {
                    pixels.set(i, Bgr8::from_rgb16(image.colors[i]));
                    i = i + 1;
                }
                assert(pixels@ =~= lookup_pixels(image.colors@));
                (Image { width, height, pixels }, Ok(()))
            },
        }
    }
}

/// The direct capture strategy: reads the reply to a request for an image of
/// `geometry` and gives the frame in a buffer of its own. No reply, or an
/// image of another size, means that the request failed; an image that
/// cannot be decoded is refused for its layout.
pub fn capture(reply: Option<&NativeImage>, geometry: &Geometry) -> (frame: Result<
    Image,
    CaptureError,
>)
    ensures
        match spec_capture(
            reply_value(reply),
            geometry.width,
            geometry.height,
        ) {
            Ok(pixels) => frame matches Ok(f) && f@ == pixels && f@.len() == geometry.area()
                && f.spec_width() == geometry.width && f.spec_height() == geometry.height,
            Err(e) => frame matches Err(got) && got == e,
        },
{
    match reply {
        None => Err(CaptureError::RequestFailed),
        Some(image) => {
            if image.width < 0 || image.height < 0 || image.width as u32 != geometry.width
                || image.height as u32 != geometry.height {
                return Err(CaptureError::RequestFailed);
            }
            Image::from_native(image)
        },
    }
}

/// Every frame that a capture gives has as many pixels as the rectangle that
/// was asked for, whatever the reply was.
pub proof fn lemma_capture_shape(reply: Option<NativeImage>, width: u32, height: u32)
    ensures
        spec_capture(reply, width, height) matches Ok(pixels) ==> pixels.len() == width * height,
{
}

proof fn lemma_area_bound(width: int, height: int)
    by (nonlinear_arith)
    requires
        0 <= width <= 0x7FFF_FFFF,
        0 <= height <= 0x7FFF_FFFF,
    ensures
        0 <= width * height <= 0x7FFF_FFFF * 0x7FFF_FFFF,
{
}

/// In row-major order the pixel at `(x, y)` lies inside the buffer.
proof fn lemma_row_major_index(x: int, y: int, width: int, height: int)
    by (nonlinear_arith)
    requires
        0 <= x < width,
        0 <= y < height,
    ensures
        0 <= y * width + x < width * height,
        0 <= y * width <= width * height,
{
}

} // verus!
