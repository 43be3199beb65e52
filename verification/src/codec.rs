//! The wire-format stages of the pipeline: PNG decode, nearest-neighbor
//! resample, and PNG re-encode, each through the `image` crate behind a
//! trusted wrapper, with the surrounding logic verified.

use vstd::prelude::*;

use image::ImageEncoder;

verus! {

use crate::ThumbError;
use crate::geometry::{compute_dimensions, target_height, valid_geometry};
use crate::pixels::{ImageView, PixelImage};
use vstd::arithmetic::div_mod::{lemma_div_is_ordered_by_denominator, lemma_div_multiples_vanish};

/// The RGBA8 pixel grid that the `image` crate decodes from `bytes` read
/// as PNG, or `None` where it rejects the bytes. Decoding is a function of
/// the bytes alone.
pub uninterp spec fn png_decoded(bytes: Seq<u8>) -> Option<ImageView>;

/// The RGBA8 samples of the nearest-neighbor resample of `img` to
/// `width x height`, a function of the input pixels and dimensions alone.
pub uninterp spec fn nearest_resampled(img: ImageView, width: int, height: int) -> Seq<u8>;

/// The PNG bytes that the `image` crate's encoder produces for the pixel
/// grid `img`, a function of the grid alone.
pub uninterp spec fn png_encoded(img: ImageView) -> Seq<u8>;

/// True when the RGBA8 buffer of `img`, with one extra row of headroom
/// for the decoder's own line buffer, fits the decoder's default
/// 512 MiB allocation limit. Bytes encoded from such a grid decode back;
/// a larger grid still encodes, but the decoder refuses its output.
pub open spec fn within_decode_limit(img: ImageView) -> bool {
    4 * img.width * (img.height + 1) <= 536870912
}

/// Relies on `image::load_from_memory_with_format` with `ImageFormat::Png`
/// and `DynamicImage::to_rgba8`: whether the bytes decode, and to which
/// pixels, depends on the bytes alone, and a returned image carries exactly
/// four bytes per pixel of its reported dimensions.
#[verifier::external_body]
fn decode_png(raw: &[u8]) -> (r: Option<PixelImage>)
    ensures
        r matches Some(img) ==> img.wf() && png_decoded(raw@) == Some(img@),
        r is None ==> png_decoded(raw@) is None,
{
    match image::load_from_memory_with_format(raw, image::ImageFormat::Png) {
        Ok(decoded) => {
            let rgba = decoded.to_rgba8();
            let width = rgba.width();
            let height = rgba.height();
            Some(PixelImage { width, height, pixels: rgba.into_raw() })
        },
        Err(_) => None,
    }
}

/// Relies on `image::imageops::resize` with `FilterType::Nearest` on an
/// RGBA8 buffer: the output buffer has the requested dimensions in the
/// same layout, and its samples depend only on the input pixels and the
/// two dimension pairs.
#[verifier::external_body]
fn resize_png(img: &PixelImage, width: u32, height: u32) -> (r: PixelImage)
    requires
        img.wf(),
        1 <= width <= img.width,
        1 <= height <= img.height,
    ensures
        r.width == width,
        r.height == height,
        r.wf(),
        r@.pixels == nearest_resampled(img@, width as int, height as int),
{
    let buffer = image::RgbaImage::from_raw(img.width, img.height, img.pixels.clone())
        .expect("a well-formed pixel grid fills its buffer exactly");
    let resized = image::imageops::resize(
        &buffer,
        width,
        height,
        image::imageops::FilterType::Nearest,
    );
    PixelImage { width, height, pixels: resized.into_raw() }
}

/// Relies on `image::codecs::png::PngEncoder::write_image` with
/// `ExtendedColorType::Rgba8`. It writes into a growable in-memory
/// buffer, so no I/O can fail, and its only error paths reject a zero
/// dimension or a buffer whose length does not match the dimensions, both
/// ruled out here: on every admitted grid it succeeds, with bytes that
/// are a function of the grid alone. PNG stores RGBA8 losslessly, so the
/// bytes decode back to exactly the encoded grid, provided the grid
/// (plus one row for the decoder's line buffer) fits the decoder's fixed
/// default allocation limit.
#[verifier::external_body]
fn encode_png(img: &PixelImage) -> (r: Vec<u8>)
    requires
        img.wf(),
        img.width >= 1,
        img.height >= 1,
    ensures
        r@ == png_encoded(img@),
        within_decode_limit(img@) ==> png_decoded(r@) == Some(img@),
{
    let mut bytes: Vec<u8> = Vec::new();
    let encoder = image::codecs::png::PngEncoder::new(&mut bytes);
    encoder
        .write_image(&img.pixels, img.width, img.height, image::ExtendedColorType::Rgba8)
        .expect("a nonempty well-formed RGBA8 grid always encodes");
    bytes
}

/// Decodes `raw` as a PNG image into the library's pixel grid, failing
/// with `DecodeFailure` exactly on bytes the decoder rejects.
pub fn decode(raw: &[u8]) -> (r: Result<PixelImage, ThumbError>)
    ensures
        png_decoded(raw@) matches Some(v) ==> (r matches Ok(img) && img@ == v && img.wf()),
        png_decoded(raw@) is None ==> r == Err::<PixelImage, ThumbError>(ThumbError::DecodeFailure),
{
    match decode_png(raw) {
        Some(img) => Ok(img),
        None => Err(ThumbError::DecodeFailure),
    }
}

/// The pixel grid that resizing `img` to `target_width` produces: the
/// image itself when the computed target dimensions are the current ones,
/// and the nearest-neighbor resample otherwise.
pub open spec fn resized_view(img: ImageView, target_width: int) -> ImageView {
    let h = target_height(img.width, img.height, target_width);
    if target_width == img.width && h == img.height {
        img
    } else {
        ImageView { width: target_width, height: h, pixels: nearest_resampled(img, target_width, h) }
    }
}

/// Resizing an image that is already at the target width is a no-op: the
/// geometry is valid, the computed dimensions are the current ones, and
/// the pixel grid is kept unchanged. In particular a second resize of an
/// already-resized image to the same target width changes nothing.
pub proof fn lemma_resize_idempotent(img: ImageView, target_width: int)
    requires
        img.width == target_width,
        0 < target_width,
        img.height >= 1,
    ensures
        valid_geometry(img.width, img.height, target_width),
        resized_view(img, target_width) == img,
{
    lemma_div_multiples_vanish(1, target_width);
    assert(crate::geometry::width_ratio(img.width, target_width) == 1);
    lemma_div_multiples_vanish(img.height, 1);
    assert(target_height(img.width, img.height, target_width) == img.height);
}

/// Resizes a decoded image to `target_width`, scaling the height by the
/// flooring-ratio policy. Degenerate geometry is rejected explicitly; an
/// image already at the target dimensions is copied unchanged, so resizing
/// an already-resized image to the same width is a no-op.
pub fn resize_image(img: &PixelImage, target_width: u32) -> (r: Result<PixelImage, ThumbError>)
    requires
        img.wf(),
    ensures
        valid_geometry(img@.width, img@.height, target_width as int) ==> (r matches Ok(out)
            && out.wf() && out@ == resized_view(img@, target_width as int)),
        !valid_geometry(img@.width, img@.height, target_width as int) ==> r == Err::<
            PixelImage,
            ThumbError,
        >(ThumbError::DegenerateGeometry),
{
    match compute_dimensions(img.width, img.height, target_width) {
        Err(e) => Err(e),
        Ok((width, height)) => {
            if width == img.width && height == img.height {
                let out = img.duplicate();
                Ok(out)
            } else {
                proof {
                    crate::geometry::lemma_ratio_at_least_one(img@.width, target_width as int);
                    lemma_div_is_ordered_by_denominator(
                        img@.height,
                        1,
                        img@.width / target_width as int,
                    );
                    lemma_div_multiples_vanish(img@.height, 1);
                }
                let out = resize_png(img, width, height);
                assert(out@ =~= resized_view(img@, target_width as int));
                Ok(out)
            }
        },
    }
}

/// The Resizer stage as the router runs it: decodes the fetched bytes as
/// PNG and resizes the image to `target_width`, reporting the failing
/// stage's error.
pub fn resize(raw: &[u8], target_width: u32) -> (r: Result<PixelImage, ThumbError>)
    ensures
        png_decoded(raw@) is None ==> r == Err::<PixelImage, ThumbError>(ThumbError::DecodeFailure),
        png_decoded(raw@) matches Some(img) ==> (!valid_geometry(
            img.width,
            img.height,
            target_width as int,
        ) ==> r == Err::<PixelImage, ThumbError>(ThumbError::DegenerateGeometry)),
        png_decoded(raw@) matches Some(img) ==> (valid_geometry(
            img.width,
            img.height,
            target_width as int,
        ) ==> (r matches Ok(out) && out.wf() && out@ == resized_view(img, target_width as int))),
{
    let img = match decode(raw) {
        Ok(img) => img,
        Err(e) => {
            return Err(e);
        },
    };
    resize_image(&img, target_width)
}

/// Re-encodes a resized pixel grid as PNG. Encoding a nonempty
/// well-formed grid always succeeds, and the produced bytes are a
/// function of the grid alone; within the decoder's allocation limit
/// they decode back to exactly the encoded grid (round-trip fidelity of
/// the lossless format).
pub fn encode(image: &PixelImage) -> (r: Vec<u8>)
    requires
        image.wf(),
        image@.width >= 1,
        image@.height >= 1,
    ensures
        r@ == png_encoded(image@),
        within_decode_limit(image@) ==> png_decoded(r@) == Some(image@),
{
    encode_png(image)
}

/// Encode/decode round trip: the bytes that `encode` returns for a pixel
/// grid within the decoder's allocation limit decode back to exactly
/// that grid, dimensions and pixels alike; `decode`, in turn, returns
/// exactly what the bytes decode to. A grid over the limit (its RGBA
/// buffer near or beyond 512 MiB) still encodes, but the decoder refuses
/// the result, so the round trip is stated without those grids.
pub proof fn lemma_encode_decode_round_trip(img: PixelImage, bytes: Vec<u8>)
    requires
        call_ensures(encode, (&img,), bytes),
        within_decode_limit(img@),
    ensures
        png_decoded(bytes@) == Some(img@),
{
}

/// The whole per-request compute pipeline on fetched bytes: decode as
/// PNG, resize to `target_width`, re-encode as PNG. A decode or geometry
/// failure is reported as that stage's error; on every decodable input
/// with valid geometry the pipeline succeeds, and its bytes are the PNG
/// encoding of the resized grid, a function of the input bytes and the
/// target width alone.
pub fn make_thumbnail(raw: &[u8], target_width: u32) -> (r: Result<Vec<u8>, ThumbError>)
    ensures
        png_decoded(raw@) is None ==> r == Err::<Vec<u8>, ThumbError>(ThumbError::DecodeFailure),
        png_decoded(raw@) matches Some(img) ==> !valid_geometry(
            img.width,
            img.height,
            target_width as int,
        ) ==> r == Err::<Vec<u8>, ThumbError>(ThumbError::DegenerateGeometry),
        png_decoded(raw@) matches Some(img) ==> valid_geometry(
            img.width,
            img.height,
            target_width as int,
        ) ==> (r matches Ok(bytes) && bytes@ == png_encoded(
            resized_view(img, target_width as int),
        )),
        png_decoded(raw@) matches Some(img) ==> valid_geometry(
            img.width,
            img.height,
            target_width as int,
        ) && within_decode_limit(resized_view(img, target_width as int)) ==> (r matches Ok(bytes)
            && png_decoded(bytes@) == Some(resized_view(img, target_width as int))),
{
    let resized = match resize(raw, target_width) {
        Ok(resized) => resized,
        Err(e) => {
            return Err(e);
        },
    };
    Ok(encode(&resized))
}

} // verus!
