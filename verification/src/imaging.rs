//! The image codecs and encoders the pipeline calls: decoding to RGB
//! or luminance pixels, nearest-neighbor resampling, PNG encoding,
//! base64, and percent-encoding. Each outside call sits behind one
//! trusted wrapper whose contract names its result; everything that
//! consumes the results is verified against those names.

use vstd::prelude::*;

use base64::Engine;

verus! {

/// What decoding a byte string to 8-bit RGB yields: the pixel rows in
/// row-major order, three bytes per pixel, with the image's width and
/// height; nothing when the bytes are not a supported image.
pub uninterp spec fn spec_rgb_decode(bytes: Seq<u8>) -> Option<(Seq<u8>, u32, u32)>;

/// What decoding a byte string to 8-bit luminance yields: one byte per
/// pixel, with the image's width and height.
pub uninterp spec fn spec_luma_decode(bytes: Seq<u8>) -> Option<(Seq<u8>, u32, u32)>;

/// What nearest-neighbor resampling of three-channel pixels yields.
pub uninterp spec fn spec_resize3(
    pixels: Seq<u8>,
    src_w: u32,
    src_h: u32,
    dst_w: u32,
    dst_h: u32,
) -> Option<Seq<u8>>;

/// What nearest-neighbor resampling of single-channel pixels yields.
pub uninterp spec fn spec_resize1(
    pixels: Seq<u8>,
    src_w: u32,
    src_h: u32,
    dst_w: u32,
    dst_h: u32,
) -> Option<Seq<u8>>;

/// What PNG-encoding a three-channel RGB buffer yields.
pub uninterp spec fn spec_png_rgb(pixels: Seq<u8>, w: u32, h: u32) -> Option<Seq<u8>>;

/// What PNG-encoding a single-channel luminance buffer yields.
pub uninterp spec fn spec_png_luma(pixels: Seq<u8>, w: u32, h: u32) -> Option<Seq<u8>>;

/// What PNG-encoding a four-channel RGBA buffer yields.
pub uninterp spec fn spec_png_rgba(pixels: Seq<u8>, w: u32, h: u32) -> Option<Seq<u8>>;

/// What base64-encoding a byte string with the standard padded
/// alphabet yields.
pub uninterp spec fn spec_base64(bytes: Seq<u8>) -> Seq<char>;

/// What percent-encoding a string yields.
pub uninterp spec fn spec_url_encoded(s: Seq<char>) -> Seq<char>;

/// Relies on image's ImageReader (format sniffed from the byte
/// prefix), DynamicImage::to_rgb8 and ImageBuffer::into_raw: a
/// supported image decodes to a row-major RGB8 buffer of exactly
/// 3 * width * height bytes; the result depends on the bytes alone.
#[verifier::external_body]
pub(crate) fn decode_rgb8(bytes: &Vec<u8>) -> (r: Result<(Vec<u8>, u32, u32), ()>)
    ensures
        r is Ok <==> spec_rgb_decode(bytes@) is Some,
        r is Ok ==> Some((r->Ok_0.0@, r->Ok_0.1, r->Ok_0.2)) == spec_rgb_decode(bytes@),
        r is Ok ==> r->Ok_0.0@.len() == 3 * r->Ok_0.1 * r->Ok_0.2,
{
    let reader = image::ImageReader::new(std::io::Cursor::new(bytes.as_slice()));
    let guessed = match reader.with_guessed_format() {
        Ok(g) => g,
        Err(_) => return Err(()),
    };
    match guessed.decode() {
        Ok(img) => {
            let rgb = img.to_rgb8();
            let (w, h) = rgb.dimensions();
            Ok((rgb.into_raw(), w, h))
        },
        Err(_) => Err(()),
    }
}

/// Relies on image's ImageReader, DynamicImage::to_luma8 and
/// ImageBuffer::into_raw: a supported image decodes to a row-major
/// luminance buffer of exactly width * height bytes; the result
/// depends on the bytes alone.
#[verifier::external_body]
pub(crate) fn decode_luma8(bytes: &Vec<u8>) -> (r: Result<(Vec<u8>, u32, u32), ()>)
    ensures
        r is Ok <==> spec_luma_decode(bytes@) is Some,
        r is Ok ==> Some((r->Ok_0.0@, r->Ok_0.1, r->Ok_0.2)) == spec_luma_decode(bytes@),
        r is Ok ==> r->Ok_0.0@.len() == r->Ok_0.1 * r->Ok_0.2,
{
    let reader = image::ImageReader::new(std::io::Cursor::new(bytes.as_slice()));
    let guessed = match reader.with_guessed_format() {
        Ok(g) => g,
        Err(_) => return Err(()),
    };
    match guessed.decode() {
        Ok(img) => {
            let luma = img.to_luma8();
            let (w, h) = luma.dimensions();
            Ok((luma.into_raw(), w, h))
        },
        Err(_) => Err(()),
    }
}

/// Relies on fast_image_resize's Resizer with ResizeAlg::Nearest on
/// U8x3 images: the destination buffer holds 3 * dst_w * dst_h bytes
/// and depends on the source pixels and the four dimensions alone.
#[verifier::external_body]
pub(crate) fn resize_nearest_rgb(
    pixels: Vec<u8>,
    src_w: u32,
    src_h: u32,
    dst_w: u32,
    dst_h: u32,
) -> (r: Result<Vec<u8>, ()>)
    requires
        pixels@.len() == 3 * src_w * src_h,
        src_w >= 1,
        src_h >= 1,
        dst_w >= 1,
        dst_h >= 1,
    ensures
        r is Ok <==> spec_resize3(pixels@, src_w, src_h, dst_w, dst_h) is Some,
        r is Ok ==> Some(r->Ok_0@) == spec_resize3(pixels@, src_w, src_h, dst_w, dst_h),
        r is Ok ==> r->Ok_0@.len() == 3 * dst_w * dst_h,
{
    let pixel_type = fast_image_resize::PixelType::U8x3;
    let src = match fast_image_resize::images::Image::from_vec_u8(src_w, src_h, pixels, pixel_type)
        {
        Ok(s) => s,
        Err(_) => return Err(()),
    };
    let mut dst = fast_image_resize::images::Image::new(dst_w, dst_h, pixel_type);
    let options = fast_image_resize::ResizeOptions::new().resize_alg(
        fast_image_resize::ResizeAlg::Nearest,
    );
    match fast_image_resize::Resizer::new().resize(&src, &mut dst, &options) {
        Ok(()) => Ok(dst.buffer().to_vec()),
        Err(_) => Err(()),
    }
}

/// Relies on fast_image_resize's Resizer with ResizeAlg::Nearest on U8
/// images: the destination buffer holds dst_w * dst_h bytes and
/// depends on the source pixels and the four dimensions alone.
#[verifier::external_body]
pub(crate) fn resize_nearest_luma(
    pixels: Vec<u8>,
    src_w: u32,
    src_h: u32,
    dst_w: u32,
    dst_h: u32,
) -> (r: Result<Vec<u8>, ()>)
    requires
        pixels@.len() == src_w * src_h,
        src_w >= 1,
        src_h >= 1,
        dst_w >= 1,
        dst_h >= 1,
    ensures
        r is Ok <==> spec_resize1(pixels@, src_w, src_h, dst_w, dst_h) is Some,
        r is Ok ==> Some(r->Ok_0@) == spec_resize1(pixels@, src_w, src_h, dst_w, dst_h),
        r is Ok ==> r->Ok_0@.len() == dst_w * dst_h,
{
    let pixel_type = fast_image_resize::PixelType::U8;
    let src = match fast_image_resize::images::Image::from_vec_u8(src_w, src_h, pixels, pixel_type)
        {
        Ok(s) => s,
        Err(_) => return Err(()),
    };
    let mut dst = fast_image_resize::images::Image::new(dst_w, dst_h, pixel_type);
    let options = fast_image_resize::ResizeOptions::new().resize_alg(
        fast_image_resize::ResizeAlg::Nearest,
    );
    match fast_image_resize::Resizer::new().resize(&src, &mut dst, &options) {
        Ok(()) => Ok(dst.buffer().to_vec()),
        Err(_) => Err(()),
    }
}

/// Relies on image's PngEncoder::write_image with Rgb8 pixels: the
/// encoded bytes depend on the buffer and dimensions alone.
#[verifier::external_body]
pub(crate) fn png_encode_rgb(pixels: &Vec<u8>, w: u32, h: u32) -> (r: Result<Vec<u8>, ()>)
    requires
        pixels@.len() == 3 * w * h,
    ensures
        r is Ok <==> spec_png_rgb(pixels@, w, h) is Some,
        r is Ok ==> Some(r->Ok_0@) == spec_png_rgb(pixels@, w, h),
{
    let mut out: Vec<u8> = Vec::new();
    let encoder = image::codecs::png::PngEncoder::new(&mut out);
    match image::ImageEncoder::write_image(
        encoder,
        pixels.as_slice(),
        w,
        h,
        image::ExtendedColorType::Rgb8,
    ) {
        Ok(()) => Ok(out),
        Err(_) => Err(()),
    }
}

/// Relies on image's PngEncoder::write_image with L8 pixels: the
/// encoded bytes depend on the buffer and dimensions alone.
#[verifier::external_body]
pub(crate) fn png_encode_luma(pixels: &Vec<u8>, w: u32, h: u32) -> (r: Result<Vec<u8>, ()>)
    requires
        pixels@.len() == w * h,
    ensures
        r is Ok <==> spec_png_luma(pixels@, w, h) is Some,
        r is Ok ==> Some(r->Ok_0@) == spec_png_luma(pixels@, w, h),
{
    let mut out: Vec<u8> = Vec::new();
    let encoder = image::codecs::png::PngEncoder::new(&mut out);
    match image::ImageEncoder::write_image(
        encoder,
        pixels.as_slice(),
        w,
        h,
        image::ExtendedColorType::L8,
    ) {
        Ok(()) => Ok(out),
        Err(_) => Err(()),
    }
}

/// Relies on image's PngEncoder::write_image with Rgba8 pixels: the
/// encoded bytes depend on the buffer and dimensions alone.
#[verifier::external_body]
pub(crate) fn png_encode_rgba(pixels: &Vec<u8>, w: u32, h: u32) -> (r: Result<Vec<u8>, ()>)
    requires
        pixels@.len() == 4 * w * h,
    ensures
        r is Ok <==> spec_png_rgba(pixels@, w, h) is Some,
        r is Ok ==> Some(r->Ok_0@) == spec_png_rgba(pixels@, w, h),
{
    let mut out: Vec<u8> = Vec::new();
    let encoder = image::codecs::png::PngEncoder::new(&mut out);
    match image::ImageEncoder::write_image(
        encoder,
        pixels.as_slice(),
        w,
        h,
        image::ExtendedColorType::Rgba8,
    ) {
        Ok(()) => Ok(out),
        Err(_) => Err(()),
    }
}

/// Relies on base64's STANDARD engine (padded): four output characters
/// for every started group of three input bytes, a function of the
/// bytes alone.
#[verifier::external_body]
pub(crate) fn base64_encode(bytes: &Vec<u8>) -> (r: String)
    ensures
        r@ == spec_base64(bytes@),
        r@.len() == 4 * ((bytes@.len() + 2) / 3),
{
    base64::engine::general_purpose::STANDARD.encode(bytes.as_slice())
}

/// Relies on urlencoding::encode: percent-encodes every byte except
/// ASCII alphanumerics and `-`, `_`, `.`, `~`; a function of the
/// string alone, and the empty string stays empty.
#[verifier::external_body]
pub(crate) fn url_encode(s: &str) -> (r: String)
    ensures
        r@ == spec_url_encoded(s@),
        s@.len() == 0 ==> r@.len() == 0,
{
    urlencoding::encode(s).into_owned()
}

} // verus!
