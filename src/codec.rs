//! Pixel buffers, their PNG encoding and decoding, and the errors of both.
use crate::native::{
    decode_gray8, decode_rgba8, encode_gray8, encode_rgba8, png_encoded_gray_of, png_encoded_rgba_of,
    png_gray_of, png_rgba_of,
};
use vstd::prelude::*;

verus! {

/// The layout of one pixel: four 8-bit samples (red, green, blue, alpha) or
/// one 8-bit grey sample.
#[derive(Clone, Copy, Debug, PartialEq, Eq, Structural)]
pub enum PixelFormat {
    Rgba,
    Gray,
}

impl PixelFormat {
    pub open spec fn spec_channels(self) -> nat {
        match self {
            PixelFormat::Rgba => 4,
            PixelFormat::Gray => 1,
        }
    }

    /// The number of samples in one pixel.
    pub fn channels(&self) -> (r: usize)
        ensures
            r == self.spec_channels(),
    {
        match self {
            PixelFormat::Rgba => 4,
            PixelFormat::Gray => 1,
        }
    }
}

/// Why an image could not be read, decoded, encoded or written.
#[derive(Debug, PartialEq, Eq)]
pub enum ImageError {
    /// The encoded bytes could not be read from or written to storage.
    SourceAccess(String),
    /// The codec rejected its input; the message is fixed.
    Codec(String),
    /// The codec reported dimensions that do not fit the samples it returned.
    BufferShape,
}

/// Whether `len` samples make a non-empty image of `width` by `height`
/// pixels in `format`, with dimensions that fit in `u32`.
pub open spec fn shape_fits(width: int, height: int, len: int, format: PixelFormat) -> bool {
    &&& 0 < width <= u32::MAX
    &&& 0 < height <= u32::MAX
    &&& len == width * height * format.spec_channels()
}

/// The image that the PNG stream `png` holds, decoded to `format`.
pub open spec fn decoded_image(png: Seq<u8>, format: PixelFormat) -> Option<(usize, usize, Seq<u8>)> {
    match format {
        PixelFormat::Rgba => png_rgba_of(png),
        PixelFormat::Gray => png_gray_of(png),
    }
}

/// The PNG stream that the codec writes for `width` by `height` pixels of
/// `format` with samples `pixels`.
pub open spec fn encoded_image(pixels: Seq<u8>, width: u32, height: u32, format: PixelFormat) -> Seq<u8> {
    match format {
        PixelFormat::Rgba => png_encoded_rgba_of(pixels, width as usize, height as usize),
        PixelFormat::Gray => png_encoded_gray_of(pixels, width as usize, height as usize),
    }
}

/// Whether an RGBA image of `width` by `height` pixels is too large for the
/// codec's encoder, which counts pixels in `u32`.
pub open spec fn too_large_to_encode(width: u32, height: u32, format: PixelFormat) -> bool {
    format == PixelFormat::Rgba && width * height > u32::MAX
}

/// Whether `png` decodes in `format` to exactly the image of `width` by
/// `height` pixels with samples `pixels`, and that image has a valid shape.
pub open spec fn decodes_to(png: Seq<u8>, format: PixelFormat, width: u32, height: u32, pixels: Seq<u8>) -> bool {
    &&& decoded_image(png, format) == Some((width as usize, height as usize, pixels))
    &&& shape_fits(width as int, height as int, pixels.len() as int, format)
}

/// Whether `png` decodes in `format`, but to an image of invalid shape.
pub open spec fn decodes_misshapen(png: Seq<u8>, format: PixelFormat) -> bool {
    &&& decoded_image(png, format) is Some
    &&& !shape_fits(
        decoded_image(png, format)->Some_0.0 as int,
        decoded_image(png, format)->Some_0.1 as int,
        decoded_image(png, format)->Some_0.2.len() as int,
        format,
    )
}

/// An owned image: `width` by `height` pixels in `format`, stored row by
/// row, top to bottom and left to right, without padding.
#[derive(Debug, PartialEq, Eq)]
pub struct PixelBuffer {
    width: u32,
    height: u32,
    format: PixelFormat,
    data: Vec<u8>,
}

impl View for PixelBuffer {
    /// Width, height, format and samples.
    type V = (u32, u32, PixelFormat, Seq<u8>);

    closed spec fn view(&self) -> (u32, u32, PixelFormat, Seq<u8>) {
        (self.width, self.height, self.format, self.data@)
    }
}

/// The number of samples in `width` by `height` pixels of `format`, where it
/// fits in `usize`.
fn sample_count(width: usize, height: usize, format: PixelFormat) -> (r: Option<usize>)
    ensures
        r is Some <==> width * height * format.spec_channels() <= usize::MAX,
        r is Some ==> r->Some_0 == width * height * format.spec_channels(),
{
    let c = format.channels();
    match width.checked_mul(height) {
        Some(area) => area.checked_mul(c),
        None => {
            assert(width * height * c >= width * height) by (nonlinear_arith)
                requires
                    c >= 1,
                    width * height >= 0,
            ;
            None
        },
    }
}

impl PixelBuffer {
    #[verifier::type_invariant]
    spec fn shape_holds(self) -> bool {
        self.data.len() == self.width * self.height * self.format.spec_channels()
    }

    /// The buffer of `width` by `height` pixels of `format` with samples
    /// `data`, or `None` where `data` does not hold exactly that many samples.
    pub fn from_vec(width: u32, height: u32, format: PixelFormat, data: Vec<u8>) -> (r: Option<PixelBuffer>)
        ensures
            r is Some <==> data@.len() == width * height * format.spec_channels(),
            r is Some ==> r->Some_0@ == (width, height, format, data@),
    {
        match sample_count(width as usize, height as usize, format) {
            Some(n) => {
                if data.len() == n {
                    Some(PixelBuffer { width, height, format, data })
                } else {
                    None
                }
            },
            None => {
                // `data` holds at most `usize::MAX` samples, fewer than asked.
                let _ = data.len();
                None
            },
        }
    }

    /// The buffer that the codec reported: `width` by `height` pixels of
    /// `format` with samples `pixels`. Fails with `BufferShape` unless both
    /// dimensions are positive and fit in `u32` and `pixels` holds exactly
    /// their product times the channel count.
    pub fn from_decoded(format: PixelFormat, width: usize, height: usize, pixels: Vec<u8>) -> (r: Result<
        PixelBuffer,
        ImageError,
    >)
        ensures
            r is Ok <==> shape_fits(width as int, height as int, pixels@.len() as int, format),
            r is Ok ==> r->Ok_0@ == (width as u32, height as u32, format, pixels@),
            r is Err ==> r == Err::<PixelBuffer, ImageError>(ImageError::BufferShape),
    {
        if width == 0 || height == 0 || width > u32::MAX as usize || height > u32::MAX as usize {
            return Err(ImageError::BufferShape);
        }
        match sample_count(width, height, format) {
            Some(n) => {
                if pixels.len() == n {
                    Ok(PixelBuffer { width: width as u32, height: height as u32, format, data: pixels })
                } else {
                    Err(ImageError::BufferShape)
                }
            },
            None => {
                // `pixels` holds at most `usize::MAX` samples, fewer than asked.
                let _ = pixels.len();
                Err(ImageError::BufferShape)
            },
        }
    }

    pub fn width(&self) -> (r: u32)
        ensures
            r == self@.0,
    {
        self.width
    }

    pub fn height(&self) -> (r: u32)
        ensures
            r == self@.1,
    {
        self.height
    }

    pub fn format(&self) -> (r: PixelFormat)
        ensures
            r == self@.2,
    {
        self.format
    }

    /// The samples, row by row.
    pub fn pixels(&self) -> (r: &[u8])
        ensures
            r@ == self@.3,
            r@.len() == self@.0 * self@.1 * self@.2.spec_channels(),
    {
        proof {
            use_type_invariant(self);
        }
        self.data.as_slice()
    }

    /// The samples, row by row, taken out of the buffer.
    pub fn into_pixels(self) -> (r: Vec<u8>)
        ensures
            r@ == self@.3,
    {
        self.data
    }
}

/// What `decode` may return for the PNG stream `png` and `format`.
pub open spec fn decode_ensures(png: Seq<u8>, format: PixelFormat, r: Result<PixelBuffer, ImageError>) -> bool {
    &&& match r {
        Ok(img) => img@.2 == format && decodes_to(png, format, img@.0, img@.1, img@.3),
        Err(ImageError::Codec(m)) => m@ == "Failed to decode png data"@,
        Err(ImageError::BufferShape) => decodes_misshapen(png, format),
        Err(ImageError::SourceAccess(_)) => false,
    }
    &&& decoded_image(png, format) is None ==> r matches Err(ImageError::Codec(_))
}

/// What `encode` may return for `img`.
pub open spec fn encode_ensures(img: PixelBuffer, r: Result<Vec<u8>, ImageError>) -> bool {
    &&& match r {
        Ok(png) => {
            &&& png@ == encoded_image(img@.3, img@.0, img@.1, img@.2)
            &&& img@.0 > 0 && img@.1 > 0 ==> decodes_to(png@, img@.2, img@.0, img@.1, img@.3)
        },
        Err(ImageError::Codec(m)) => m@ == "Failed to encode png data"@,
        Err(_) => false,
    }
    &&& too_large_to_encode(img@.0, img@.1, img@.2) ==> r is Err
}

/// The result of `decode` for what the codec's decoder returned: any
/// decoder failure is a `Codec` error with a fixed message, and a decoded
/// image goes through the shape check of `PixelBuffer::from_decoded`.
pub fn decode_outcome(format: PixelFormat, raw: Result<(usize, usize, Vec<u8>), lodepng::Error>) -> (r: Result<
    PixelBuffer,
    ImageError,
>)
    ensures
        match raw {
            Ok((width, height, pixels)) => {
                &&& r is Ok <==> shape_fits(width as int, height as int, pixels@.len() as int, format)
                &&& r is Ok ==> r->Ok_0@ == (width as u32, height as u32, format, pixels@)
                &&& r is Err ==> r == Err::<PixelBuffer, ImageError>(ImageError::BufferShape)
            },
            Err(_) => r matches Err(ImageError::Codec(m)) && m@ == "Failed to decode png data"@,
        },
{
    match raw {
        Ok((width, height, pixels)) => PixelBuffer::from_decoded(format, width, height, pixels),
        Err(_) => Err(ImageError::Codec(String::from_str("Failed to decode png data"))),
    }
}

/// The result of `encode` for what the codec's encoder returned: its bytes
/// unchanged, or a `Codec` error with a fixed message for any failure.
pub fn encode_outcome(out: Result<Vec<u8>, lodepng::Error>) -> (r: Result<Vec<u8>, ImageError>)
    ensures
        match out {
            Ok(png) => r matches Ok(v) && v@ == png@,
            Err(_) => r matches Err(ImageError::Codec(m)) && m@ == "Failed to encode png data"@,
        },
{
    match out {
        Ok(png) => Ok(png),
        Err(_) => Err(ImageError::Codec(String::from_str("Failed to encode png data"))),
    }
}

/// Decodes the PNG stream `png` to pixels of `format`. Fails with `Codec`
/// where the codec rejects `png` (always where it is not a PNG stream), and
/// with `BufferShape` where the codec's dimensions do not fit its samples.
/// The decoded samples are owned by the result; nothing of the codec's
/// output outlives the call.
pub fn decode(png: &[u8], format: PixelFormat) -> (r: Result<PixelBuffer, ImageError>)
    ensures
        decode_ensures(png@, format, r),
{
    let raw = match format {
        PixelFormat::Rgba => decode_rgba8(png),
        PixelFormat::Gray => decode_gray8(png),
    };
    decode_outcome(format, raw)
}

/// Encodes `img` as a PNG stream in its own pixel format. Fails with
/// `Codec` where the codec refuses it, and without calling the codec where
/// an RGBA image has more than `u32::MAX` pixels; a stream it returns is the
/// codec's output and decodes in that format to `img` again.
pub fn encode(img: &PixelBuffer) -> (r: Result<Vec<u8>, ImageError>)
    ensures
        encode_ensures(*img, r),
{
    proof {
        use_type_invariant(img);
    }
    if img.format == PixelFormat::Rgba && (img.width as u64) * (img.height as u64) > u32::MAX as u64 {
        return Err(ImageError::Codec(String::from_str("Failed to encode png data")));
    }
    let out = match img.format {
        PixelFormat::Rgba => {
            proof {
                let (w, h) = (img.width as int, img.height as int);
                assert(w * h * 4 == 4 * w * h) by (nonlinear_arith);
            }
            encode_rgba8(img.data.as_slice(), img.width as usize, img.height as usize)
        },
        PixelFormat::Gray => encode_gray8(img.data.as_slice(), img.width as usize, img.height as usize),
    };
    encode_outcome(out)
}

/// Round trip: where `encode` turned a non-empty `img` into `png`, `decode`
/// of `png` in the format of `img` returns `img` again, sample for sample,
/// unless the codec itself fails.
pub proof fn lemma_round_trip(img: PixelBuffer, png: Vec<u8>, back: Result<PixelBuffer, ImageError>)
    requires
        img@.0 > 0,
        img@.1 > 0,
        encode_ensures(img, Ok(png)),
        decode_ensures(png@, img@.2, back),
    ensures
        match back {
            Ok(b) => b@ == img@,
            Err(e) => e is Codec,
        },
{
}

/// Shape: every buffer that `decode` returns holds exactly width times
/// height times channel-count samples, with both dimensions positive.
pub proof fn lemma_decoded_shape(png: Seq<u8>, format: PixelFormat, r: Result<PixelBuffer, ImageError>)
    requires
        decode_ensures(png, format, r),
        r is Ok,
    ensures
        r->Ok_0@.0 > 0,
        r->Ok_0@.1 > 0,
        r->Ok_0@.3.len() == r->Ok_0@.0 * r->Ok_0@.1 * format.spec_channels(),
        r->Ok_0@.2 == format,
{
}

} // verus!
