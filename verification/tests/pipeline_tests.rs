use thumbnailer::codec::{decode, encode, make_thumbnail, resize, resize_image};
use thumbnailer::geometry::compute_dimensions;
use thumbnailer::pixels::PixelImage;
use thumbnailer::ThumbError;

/// A well-formed RGBA8 test image with a deterministic pixel pattern.
fn patterned_image(width: u32, height: u32) -> PixelImage {
    let len = (4 * width * height) as usize;
    let mut pixels = Vec::with_capacity(len);
    for i in 0..len {
        pixels.push((i % 251) as u8);
    }
    PixelImage {
        width,
        height,
        pixels,
    }
}

#[test]
fn dimensions_exact_when_width_divides_evenly() {
    assert_eq!(compute_dimensions(200, 200, 100), Ok((100, 100)));
    // 600 / 150 == 4, 400 / 4 == 100, and 400 * 150 / 600 == 100 exactly.
    assert_eq!(compute_dimensions(600, 400, 150), Ok((150, 100)));
    assert_eq!(400 * 150 / 600, 100);
    assert_eq!(compute_dimensions(7, 7, 7), Ok((7, 7)));
}

#[test]
fn dimensions_floor_on_uneven_ratio() {
    // ratio = 200 / 90 == 2 (floored), height = 100 / 2 == 50.
    assert_eq!(compute_dimensions(200, 100, 90), Ok((90, 50)));
}

#[test]
fn dimensions_reject_degenerate_geometry() {
    assert_eq!(
        compute_dimensions(200, 200, 0),
        Err(ThumbError::DegenerateGeometry)
    );
    assert_eq!(
        compute_dimensions(100, 100, 200),
        Err(ThumbError::DegenerateGeometry)
    );
    // ratio = 100 / 10 == 10, height = 1 / 10 == 0: degenerate.
    assert_eq!(
        compute_dimensions(100, 1, 10),
        Err(ThumbError::DegenerateGeometry)
    );
}

#[test]
fn encode_then_decode_reproduces_the_pixel_grid() {
    let img = patterned_image(13, 7);
    let bytes = encode(&img);
    let back = decode(&bytes).unwrap();
    assert_eq!(back.width, img.width);
    assert_eq!(back.height, img.height);
    assert_eq!(back.pixels, img.pixels);
}

#[test]
fn encode_output_differs_from_raw_pixels() {
    let img = patterned_image(13, 7);
    let bytes = encode(&img);
    assert_ne!(bytes, img.pixels);
}

#[test]
fn encode_is_a_function_of_the_grid_alone() {
    let a = encode(&patterned_image(9, 5));
    let b = encode(&patterned_image(9, 5));
    assert_eq!(a, b);
    let thumb_a = make_thumbnail(&a, 3).unwrap();
    let thumb_b = make_thumbnail(&b, 3).unwrap();
    assert_eq!(thumb_a, thumb_b);
}

#[test]
fn resize_halves_a_square_image() {
    let img = patterned_image(200, 200);
    let out = resize_image(&img, 100).unwrap();
    assert_eq!(out.width, 100);
    assert_eq!(out.height, 100);
    assert_eq!(out.pixels.len(), 4 * 100 * 100);
}

#[test]
fn resize_to_same_width_is_a_no_op() {
    let img = patterned_image(200, 200);
    let once = resize_image(&img, 100).unwrap();
    let twice = resize_image(&once, 100).unwrap();
    assert_eq!(twice.width, once.width);
    assert_eq!(twice.height, once.height);
    assert_eq!(twice.pixels, once.pixels);
}

#[test]
fn resize_rejects_zero_width() {
    let img = patterned_image(8, 8);
    assert_eq!(
        resize_image(&img, 0).unwrap_err(),
        ThumbError::DegenerateGeometry
    );
}

#[test]
fn resize_from_bytes_decodes_and_resizes() {
    let img = patterned_image(200, 100);
    let png = encode(&img);
    // ratio = 200 / 50 == 4, height = 100 / 4 == 25.
    let out = resize(&png, 50).unwrap();
    assert_eq!(out.width, 50);
    assert_eq!(out.height, 25);
    assert_eq!(out.pixels.len(), 4 * 50 * 25);
    assert_eq!(resize(&[1, 2], 50).unwrap_err(), ThumbError::DecodeFailure);
}

#[test]
fn thumbnail_pipeline_produces_a_decodable_thumbnail() {
    let img = patterned_image(200, 200);
    let png = encode(&img);
    let thumb = make_thumbnail(&png, 100).unwrap();
    let out = decode(&thumb).unwrap();
    assert_eq!(out.width, 100);
    assert_eq!(out.height, 100);
}

#[test]
fn thumbnail_pipeline_is_idempotent_at_the_same_width() {
    let img = patterned_image(200, 200);
    let png = encode(&img);
    let once = make_thumbnail(&png, 100).unwrap();
    let twice = make_thumbnail(&once, 100).unwrap();
    let a = decode(&once).unwrap();
    let b = decode(&twice).unwrap();
    assert_eq!(a.width, b.width);
    assert_eq!(a.height, b.height);
    assert_eq!(a.pixels, b.pixels);
}

#[test]
fn thumbnail_pipeline_rejects_undecodable_bytes() {
    assert_eq!(
        make_thumbnail(&[0x13, 0x37, 0x00, 0x42], 100),
        Err(ThumbError::DecodeFailure)
    );
    assert_eq!(make_thumbnail(&[], 100), Err(ThumbError::DecodeFailure));
}

#[test]
fn thumbnail_pipeline_rejects_degenerate_widths() {
    let png = encode(&patterned_image(100, 100));
    assert_eq!(
        make_thumbnail(&png, 0),
        Err(ThumbError::DegenerateGeometry)
    );
    assert_eq!(
        make_thumbnail(&png, 400),
        Err(ThumbError::DegenerateGeometry)
    );
}
