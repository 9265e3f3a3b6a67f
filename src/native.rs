//! The codec entry points of lodepng, each behind a wrapper whose contract
//! states what the crate's source shows of it.
use vstd::prelude::*;

verus! {

#[verifier::external_type_specification]
#[verifier::external_body]
pub struct ExLodepngError(lodepng::Error);

/// The image that lodepng's `decode32` produces from `png`: width, height
/// and 8-bit RGBA samples, or `None` where `png` is not a PNG stream.
pub uninterp spec fn png_rgba_of(png: Seq<u8>) -> Option<(usize, usize, Seq<u8>)>;

/// The image that lodepng's `decode_memory` with 8-bit grey output produces
/// from `png`: width, height and one sample per pixel, or `None` where `png`
/// is not a PNG stream.
pub uninterp spec fn png_gray_of(png: Seq<u8>) -> Option<(usize, usize, Seq<u8>)>;

/// Relies on `lodepng::decode32`: it decodes a PNG stream to 8-bit RGBA.
/// Besides invalid input it fails when an allocation fails, so a failure
/// says nothing of `png`; a success returns the image that `png` holds.
#[verifier::external_body]
pub(crate) fn decode_rgba8(png: &[u8]) -> (r: Result<(usize, usize, Vec<u8>), lodepng::Error>)
    ensures
        r is Ok ==> png_rgba_of(png@) == Some((r->Ok_0.0, r->Ok_0.1, r->Ok_0.2@)),
        png_rgba_of(png@) is None ==> r is Err,
{
    lodepng::decode32(png).map(|bitmap| {
        let bytes: Vec<u8> = bitmap.buffer.iter().flat_map(|p| [p.r, p.g, p.b, p.a]).collect();
        (bitmap.width, bitmap.height, bytes)
    })
}

/// Relies on `lodepng::decode_memory` with colour type GREY and bit depth 8:
/// it decodes a PNG stream to one 8-bit sample per pixel. Besides invalid
/// input it fails when an allocation fails; a success returns the image that
/// `png` holds.
#[verifier::external_body]
pub(crate) fn decode_gray8(png: &[u8]) -> (r: Result<(usize, usize, Vec<u8>), lodepng::Error>)
    ensures
        r is Ok ==> png_gray_of(png@) == Some((r->Ok_0.0, r->Ok_0.1, r->Ok_0.2@)),
        png_gray_of(png@) is None ==> r is Err,
{
    match lodepng::decode_memory(png, lodepng::ColorType::GREY, 8) {
        Ok(lodepng::Image::Grey(bitmap)) => {
            let bytes: Vec<u8> = bitmap.buffer.iter().map(|p| p.value()).collect();
            Ok((bitmap.width, bitmap.height, bytes))
        },
        // GREY at depth 8 always comes back as `Image::Grey`; this arm only
        // completes the match, with the code that `decode32` uses alike.
        Ok(_) => Err(lodepng::Error::new(56)),
        Err(e) => Err(e),
    }
}

/// The PNG stream that lodepng's `encode32` writes for `w` by `h` pixels of
/// 8-bit RGBA samples `pixels`.
pub uninterp spec fn png_encoded_rgba_of(pixels: Seq<u8>, w: usize, h: usize) -> Seq<u8>;

/// The PNG stream that lodepng's `encode_memory` with colour type GREY and
/// bit depth 8 writes for `w` by `h` pixels of one sample each.
pub uninterp spec fn png_encoded_gray_of(pixels: Seq<u8>, w: usize, h: usize) -> Seq<u8>;

/// Relies on `lodepng::encode32`: it encodes `w` by `h` pixels of 8-bit RGBA
/// samples as a PNG stream, which depends on its arguments alone. PNG is
/// lossless: decoding that stream to 8-bit RGBA gives back the same width,
/// height and samples. It may fail when an allocation fails. A sample count
/// other than `4 * w * h` trips a debug assertion in the crate, and so does
/// the pixel count `w * h` in `u32` arithmetic where it is above `u32::MAX`
/// (when choosing a transparent key colour), so callers must rule out both.
#[verifier::external_body]
pub(crate) fn encode_rgba8(pixels: &[u8], w: usize, h: usize) -> (r: Result<Vec<u8>, lodepng::Error>)
    requires
        pixels@.len() == 4 * w * h,
        w * h <= u32::MAX,
    ensures
        r is Ok ==> r->Ok_0@ == png_encoded_rgba_of(pixels@, w, h),
        r is Ok && w > 0 && h > 0 ==> png_rgba_of(r->Ok_0@) == Some((w, h, pixels@)),
{
    lodepng::encode32(pixels, w, h)
}

/// Relies on `lodepng::encode_memory` with colour type GREY and bit depth 8:
/// it encodes `w` by `h` pixels of one 8-bit sample each as a PNG stream,
/// which depends on its arguments alone. PNG is lossless: decoding that stream to 8-bit grey gives back the same
/// width, height and samples. It may fail when an allocation fails. A
/// sample count other than `w * h` trips a debug assertion in the crate, so
/// callers must match it.
#[verifier::external_body]
pub(crate) fn encode_gray8(pixels: &[u8], w: usize, h: usize) -> (r: Result<Vec<u8>, lodepng::Error>)
    requires
        pixels@.len() == w * h,
    ensures
        r is Ok ==> r->Ok_0@ == png_encoded_gray_of(pixels@, w, h),
        r is Ok && w > 0 && h > 0 ==> png_gray_of(r->Ok_0@) == Some((w, h, pixels@)),
{
    lodepng::encode_memory(pixels, w, h, lodepng::ColorType::GREY, 8)
}

} // verus!
