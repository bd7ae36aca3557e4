use base64::Engine;
use nocojs::placeholder_image::{
    compute_target_size, create_blurred_preview_url, process_image, wrap_with_svg,
    PlaceholderImageOutputKind, ProcessImageError,
};
use nocojs::transform::PreviewOptions;

fn options(kind: PlaceholderImageOutputKind, width: Option<u32>, height: Option<u32>) -> PreviewOptions {
    PreviewOptions {
        width,
        height,
        output_kind: kind,
        replace_function_call: true,
        cache: true,
        wrap_with_svg: true,
    }
}

fn solid_png(w: u32, h: u32, color: [u8; 3]) -> Vec<u8> {
    let img = image::RgbImage::from_pixel(w, h, image::Rgb(color));
    let mut cursor = std::io::Cursor::new(Vec::new());
    img.write_to(&mut cursor, image::ImageFormat::Png).unwrap();
    cursor.into_inner()
}

fn decode_png_data_url(url: &str) -> image::DynamicImage {
    let payload = url.strip_prefix("data:image/png;base64,").unwrap();
    let bytes = base64::engine::general_purpose::STANDARD
        .decode(payload)
        .unwrap();
    image::load_from_memory(&bytes).unwrap()
}

#[test]
fn sizing_default_width_sixteen() {
    assert_eq!(compute_target_size(320, 200, None, None), (16, 10));
}

#[test]
fn sizing_width_only_derives_height() {
    assert_eq!(compute_target_size(320, 200, Some(8), None), (8, 5));
    // round(10 * 200 / 320) = round(6.25) = 6
    assert_eq!(compute_target_size(320, 200, Some(10), None), (10, 6));
}

#[test]
fn sizing_height_only_derives_width() {
    assert_eq!(compute_target_size(320, 200, None, Some(10)), (16, 10));
    // round(7 * 320 / 200) = round(11.2) = 11
    assert_eq!(compute_target_size(320, 200, None, Some(7)), (11, 7));
}

#[test]
fn sizing_both_given_used_as_is() {
    assert_eq!(compute_target_size(320, 200, Some(3), Some(9)), (3, 9));
}

#[test]
fn sizing_saturates_at_the_largest_dimension() {
    // A one-pixel-wide, very tall source with the widest possible
    // request: the derived height tops out instead of wrapping.
    assert_eq!(
        compute_target_size(1, u32::MAX, Some(u32::MAX), None),
        (u32::MAX, u32::MAX)
    );
    assert_eq!(compute_target_size(1, 1, Some(u32::MAX), None), (u32::MAX, u32::MAX));
}

#[test]
fn normal_placeholder_from_png() {
    let bytes = solid_png(320, 200, [10, 20, 30]);
    let o = options(PlaceholderImageOutputKind::Normal, None, None);
    let out = process_image(&bytes, &o).unwrap();
    assert_eq!(out.width, 16);
    assert_eq!(out.height, 10);
    assert_eq!(out.original_width, 320);
    assert_eq!(out.original_height, 200);
    assert!(out.base64_str.starts_with("data:image/png;base64,"));
    let img = decode_png_data_url(&out.base64_str);
    let rgb = img.to_rgb8();
    assert_eq!(rgb.dimensions(), (16, 10));
    for p in rgb.pixels() {
        assert_eq!(p.0, [10, 20, 30]);
    }
}

#[test]
fn average_color_is_uniform() {
    let bytes = solid_png(320, 200, [10, 20, 30]);
    let o = options(PlaceholderImageOutputKind::AverageColor, Some(8), None);
    let out = process_image(&bytes, &o).unwrap();
    assert_eq!(out.width, 8);
    assert_eq!(out.height, 5);
    let img = decode_png_data_url(&out.base64_str).to_rgba8();
    assert_eq!(img.dimensions(), (8, 5));
    for p in img.pixels() {
        assert_eq!(p.0, [10, 20, 30, 255]);
    }
}

#[test]
fn dominant_color_ties_break_to_first() {
    // Two pixels, two colors, equal counts: the first encountered wins.
    let mut img = image::RgbImage::new(2, 1);
    img.put_pixel(0, 0, image::Rgb([200, 0, 0]));
    img.put_pixel(1, 0, image::Rgb([0, 0, 200]));
    let mut cursor = std::io::Cursor::new(Vec::new());
    img.write_to(&mut cursor, image::ImageFormat::Png).unwrap();
    let bytes = cursor.into_inner();
    let o = options(PlaceholderImageOutputKind::DominantColor, Some(2), Some(1));
    let out = process_image(&bytes, &o).unwrap();
    let rect = decode_png_data_url(&out.base64_str).to_rgba8();
    for p in rect.pixels() {
        assert_eq!(p.0, [200, 0, 0, 255]);
    }
}

#[test]
fn dominant_color_majority_wins() {
    let mut img = image::RgbImage::from_pixel(3, 1, image::Rgb([0, 0, 200]));
    img.put_pixel(0, 0, image::Rgb([200, 0, 0]));
    let mut cursor = std::io::Cursor::new(Vec::new());
    img.write_to(&mut cursor, image::ImageFormat::Png).unwrap();
    let bytes = cursor.into_inner();
    let o = options(PlaceholderImageOutputKind::DominantColor, Some(3), Some(1));
    let out = process_image(&bytes, &o).unwrap();
    let rect = decode_png_data_url(&out.base64_str).to_rgba8();
    for p in rect.pixels() {
        assert_eq!(p.0, [0, 0, 200, 255]);
    }
}

#[test]
fn transparent_pixels_have_zero_alpha() {
    let bytes = solid_png(320, 200, [10, 20, 30]);
    let o = options(PlaceholderImageOutputKind::Transparent, None, None);
    let out = process_image(&bytes, &o).unwrap();
    let img = decode_png_data_url(&out.base64_str).to_rgba8();
    assert_eq!(img.dimensions(), (16, 10));
    for p in img.pixels() {
        assert_eq!(p.0, [0, 0, 0, 0]);
    }
}

#[test]
fn grayscale_uses_luminance() {
    let bytes = solid_png(32, 32, [50, 50, 50]);
    let o = options(PlaceholderImageOutputKind::Grayscale, Some(4), Some(4));
    let out = process_image(&bytes, &o).unwrap();
    assert!(out.base64_str.starts_with("data:image/png;base64,"));
    let img = decode_png_data_url(&out.base64_str).to_luma8();
    assert_eq!(img.dimensions(), (4, 4));
    for p in img.pixels() {
        assert_eq!(p.0, [50]);
    }
}

#[test]
fn blurred_is_an_svg_data_url() {
    let bytes = solid_png(320, 200, [10, 20, 30]);
    let o = options(PlaceholderImageOutputKind::Blurred, None, None);
    let out = process_image(&bytes, &o).unwrap();
    assert!(out.base64_str.starts_with("data:image/svg+xml,"));
    assert!(out.base64_str.contains("%3Csvg"));
}

#[test]
fn unparseable_bytes_are_a_decode_error() {
    let o = options(PlaceholderImageOutputKind::Normal, None, None);
    let r = process_image(&b"definitely not an image".to_vec(), &o);
    assert_eq!(r.unwrap_err(), ProcessImageError::Decode);
}

#[test]
fn zero_target_dimension_is_an_encode_error() {
    let bytes = solid_png(16, 16, [1, 2, 3]);
    let o = options(PlaceholderImageOutputKind::Normal, Some(0), Some(4));
    let r = process_image(&bytes, &o);
    assert_eq!(r.unwrap_err(), ProcessImageError::Encode);
}

#[test]
fn wrap_matches_template_substitution() {
    let data = "data:image/png;base64,QUJD";
    let out = wrap_with_svg(data.to_string(), 320, 200);
    let svg = format!(
        "<svg xmlns='http://www.w3.org/2000/svg' viewBox='0 0 {w} {h}' width='{w}' height='{h}'><image width='100%' height='100%' x='0' y='0' preserveAspectRatio='none' href='___DATA___'/></svg>",
        w = 320,
        h = 200
    );
    let expected =
        format!("data:image/svg+xml,{}", urlencoding::encode(&svg)).replace("___DATA___", data);
    assert_eq!(out, expected);
}

#[test]
fn blur_matches_template_substitution() {
    let data = "QUJD";
    let out = create_blurred_preview_url(data, 320, 200);
    let d = (320f32 * 0.05).round();
    let svg = format!(
        "<svg xmlns='http://www.w3.org/2000/svg' viewBox='0 0 {w} {h}' width='{w}' height='{h}'><filter id='b' color-interpolation-filters='sRGB'><feGaussianBlur stdDeviation='{d}'/><feColorMatrix values='1 0 0 0 0 0 1 0 0 0 0 0 1 0 0 0 0 0 100 -1' result='s'/><feFlood x='0' y='0' width='100%' height='100%'/><feComposite operator='out' in='s'/><feComposite in2='SourceGraphic'/><feGaussianBlur stdDeviation='{d}'/></filter><image width='100%' height='100%' x='0' y='0' preserveAspectRatio='none' style='filter: url(#b);' href='data:image/png;base64,___DATA___'/></svg>",
        w = 320,
        h = 200,
        d = d as u32
    );
    let expected =
        format!("data:image/svg+xml,{}", urlencoding::encode(&svg)).replace("___DATA___", data);
    assert_eq!(out, expected);
}

#[test]
fn remote_normal_scenario_end_to_end() {
    // A 320x200 source rendered with the defaults and delivered with
    // the SVG wrap: the call site's replacement string starts as an
    // SVG data URL wrapping a sixteen-by-ten PNG.
    let bytes = solid_png(320, 200, [99, 88, 77]);
    let o = options(PlaceholderImageOutputKind::Normal, None, None);
    let out = process_image(&bytes, &o).unwrap();
    let delivered = wrap_with_svg(out.base64_str.clone(), out.original_width, out.original_height);
    assert!(delivered.starts_with("data:image/svg+xml,"));
    let inner = decode_png_data_url(&out.base64_str);
    assert_eq!(inner.to_rgb8().dimensions(), (16, 10));
}
