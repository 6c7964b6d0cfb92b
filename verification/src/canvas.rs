//! The raster canvas the icon is painted on, and its encoding as a PNG
//! file. The canvas is an image buffer of the `image` crate; what is said
//! here of its operations is taken from that crate and not proved.

use vstd::prelude::*;

verus! {

/// The error type of the `image` crate.
#[verifier::external_type_specification]
#[verifier::external_body]
pub struct ExImageError(image::ImageError);

/// An `image::ImageBuffer` of eight-bit RGBA pixels over a `Vec<u8>`.
#[verifier::external_body]
pub struct Canvas {
    buffer: image::ImageBuffer<image::Rgba<u8>, Vec<u8>>,
}

/// The pixels of a canvas: for each column and row within its size, the
/// red, green, blue and alpha sample there.
pub uninterp spec fn canvas_pixels(canvas: Canvas) -> Map<(int, int), (u8, u8, u8, u8)>;

/// The width and the height of a canvas.
pub uninterp spec fn canvas_size(canvas: Canvas) -> (nat, nat);

/// What `ImageBuffer::write_to` writes for the PNG format, given a buffer's
/// pixels, width and height; `None` where it reports an error.
pub uninterp spec fn png_encoding(
    pixels: Map<(int, int), (u8, u8, u8, u8)>,
    width: nat,
    height: nat,
) -> Option<Seq<u8>>;

/// The pixels of a canvas on which nothing has been painted.
pub open spec fn blank_pixels(width: nat, height: nat) -> Map<(int, int), (u8, u8, u8, u8)> {
    Map::new(
        |p: (int, int)| 0 <= p.0 < width && 0 <= p.1 < height,
        |p: (int, int)| (0u8, 0u8, 0u8, 0u8),
    )
}

impl Canvas {
    /// `ImageBuffer::new`: a buffer of the given size in which every sample
    /// of every pixel is zero. It panics where the number of samples is
    /// more than a vector can hold, so that is required not to happen.
    #[verifier::external_body]
    pub(crate) fn blank(width: u32, height: u32) -> (canvas: Canvas)
        requires
            4 * width * height <= isize::MAX,
        ensures
            canvas_size(canvas) == (width as nat, height as nat),
            canvas_pixels(canvas) == blank_pixels(width as nat, height as nat),
    {
        Canvas { buffer: image::ImageBuffer::new(width, height) }
    }

    /// `ImageBuffer::put_pixel`: replaces the pixel at `(x, y)` and leaves
    /// every other pixel and the size as they were. It panics outside the
    /// buffer, so the place is required to lie inside.
    #[verifier::external_body]
    pub(crate) fn put_pixel(&mut self, x: u32, y: u32, pixel: (u8, u8, u8, u8))
        requires
            x < canvas_size(*old(self)).0,
            y < canvas_size(*old(self)).1,
        ensures
            canvas_size(*final(self)) == canvas_size(*old(self)),
            canvas_pixels(*final(self)) == canvas_pixels(*old(self)).insert(
                (x as int, y as int),
                pixel,
            ),
    {
        self.buffer.put_pixel(x, y, image::Rgba([pixel.0, pixel.1, pixel.2, pixel.3]));
    }

    /// `ImageBuffer::write_to` with `ImageFormat::Png`, into memory: the
    /// bytes written, or the crate's error. Both depend on the pixels and
    /// the size alone.
    #[verifier::external_body]
    pub(crate) fn encode_png(&self) -> (outcome: Result<Vec<u8>, image::ImageError>)
        ensures
            match outcome {
                Ok(bytes) => png_encoding(
                    canvas_pixels(*self),
                    canvas_size(*self).0,
                    canvas_size(*self).1,
                ) == Some(bytes@),
                Err(_) => png_encoding(
                    canvas_pixels(*self),
                    canvas_size(*self).0,
                    canvas_size(*self).1,
                ) is None,
            },
    {
        let mut bytes = Vec::new();
        let mut writer = std::io::Cursor::new(&mut bytes);
        match self.buffer.write_to(&mut writer, image::ImageFormat::Png) {
            Ok(()) => Ok(bytes),
            Err(error) => Err(error),
        }
    }
}

} // verus!
