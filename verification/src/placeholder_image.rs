//! The placeholder pipeline: output kinds, target sizing, recoloring,
//! and assembly of the data URLs and SVG wrappers that stand in for the
//! real image at a call site.

use vstd::prelude::*;

use vstd::arithmetic::div_mod::lemma_fundamental_div_mod;

use crate::imaging::{
    base64_encode, decode_luma8, decode_rgb8, png_encode_luma, png_encode_rgb, png_encode_rgba,
    resize_nearest_luma, resize_nearest_rgb, spec_base64, spec_luma_decode, spec_png_luma,
    spec_png_rgb, spec_png_rgba, spec_resize1, spec_resize3, spec_rgb_decode, spec_url_encoded,
    url_encode,
};
use crate::text::{dec_str_of, str_eq, u32_to_string};
use crate::transform::PreviewOptions;

verus! {

/// The enumerated rendering modes of a placeholder.
#[derive(Debug, Clone, Copy, PartialEq, Eq, Structural)]
pub enum PlaceholderImageOutputKind {
    Normal,
    Blurred,
    Grayscale,
    DominantColor,
    AverageColor,
    Transparent,
}

/// The canonical lowercase-hyphenated token of an output kind, used as
/// the persistence token and inside cache keys; a stable contract.
pub open spec fn kind_token(kind: PlaceholderImageOutputKind) -> Seq<char> {
    match kind {
        PlaceholderImageOutputKind::Normal => "normal"@,
        PlaceholderImageOutputKind::Blurred => "blurred"@,
        PlaceholderImageOutputKind::Grayscale => "grayscale"@,
        PlaceholderImageOutputKind::DominantColor => "dominant-color"@,
        PlaceholderImageOutputKind::AverageColor => "average-color"@,
        PlaceholderImageOutputKind::Transparent => "transparent"@,
    }
}

/// The output kind a token names; anything unrecognized reads as `Normal`.
pub open spec fn spec_kind_from(s: Seq<char>) -> PlaceholderImageOutputKind {
    if s == "normal"@ {
        PlaceholderImageOutputKind::Normal
    } else if s == "blurred"@ {
        PlaceholderImageOutputKind::Blurred
    } else if s == "grayscale"@ {
        PlaceholderImageOutputKind::Grayscale
    } else if s == "dominant-color"@ {
        PlaceholderImageOutputKind::DominantColor
    } else if s == "average-color"@ {
        PlaceholderImageOutputKind::AverageColor
    } else if s == "transparent"@ {
        PlaceholderImageOutputKind::Transparent
    } else {
        PlaceholderImageOutputKind::Normal
    }
}

impl PlaceholderImageOutputKind {
    /// The canonical token of this kind.
    pub fn get_string_name(&self) -> (r: String)
        ensures
            r@ == kind_token(*self),
    {
        match self {
            PlaceholderImageOutputKind::Normal => "normal".to_owned(),
            PlaceholderImageOutputKind::Blurred => "blurred".to_owned(),
            PlaceholderImageOutputKind::Grayscale => "grayscale".to_owned(),
            PlaceholderImageOutputKind::DominantColor => "dominant-color".to_owned(),
            PlaceholderImageOutputKind::AverageColor => "average-color".to_owned(),
            PlaceholderImageOutputKind::Transparent => "transparent".to_owned(),
        }
    }

    /// Parse a kind token; unrecognized tokens fall back to `Normal`.
    pub fn from_string(s: &str) -> (r: PlaceholderImageOutputKind)
        ensures
            r == spec_kind_from(s@),
    {
        if str_eq(s, "normal") {
            PlaceholderImageOutputKind::Normal
        } else if str_eq(s, "blurred") {
            PlaceholderImageOutputKind::Blurred
        } else if str_eq(s, "grayscale") {
            PlaceholderImageOutputKind::Grayscale
        } else if str_eq(s, "dominant-color") {
            PlaceholderImageOutputKind::DominantColor
        } else if str_eq(s, "average-color") {
            PlaceholderImageOutputKind::AverageColor
        } else if str_eq(s, "transparent") {
            PlaceholderImageOutputKind::Transparent
        } else {
            PlaceholderImageOutputKind::Normal
        }
    }
}

/// The result of running the pipeline on one image: the finished data
/// URL together with the rendered and the source dimensions.
#[derive(Debug)]
pub struct ProcessImageOutput {
    pub base64_str: String,
    pub width: u32,
    pub height: u32,
    pub original_width: u32,
    pub original_height: u32,
}

/// How the pipeline fails: the bytes are no supported image, or the
/// rendering of the placeholder itself fails.
#[derive(Debug, Clone, Copy, PartialEq, Eq, Structural)]
pub enum ProcessImageError {
    Decode,
    Encode,
}

/// Division rounded to the nearest integer, halves rounding up.
pub open spec fn spec_round_div(a: int, b: int) -> int
    recommends
        b >= 1,
{
    (a + b / 2) / b
}

/// Derived dimensions above the largest storable value saturate.
pub open spec fn spec_cap_u32(v: int) -> int {
    if v > u32::MAX as int {
        u32::MAX as int
    } else {
        v
    }
}

/// Target dimensions per the sizing policy: both given are used as
/// is; one given derives the other from the source aspect ratio,
/// rounded to nearest; neither given renders sixteen pixels wide.
pub open spec fn spec_target_dims(
    src_w: u32,
    src_h: u32,
    want_w: Option<u32>,
    want_h: Option<u32>,
) -> (int, int)
    recommends
        src_w >= 1,
        src_h >= 1,
{
    match (want_w, want_h) {
        (Some(w), Some(h)) => (w as int, h as int),
        (Some(w), None) => (
            w as int,
            spec_cap_u32(spec_round_div(w as int * src_h as int, src_w as int)),
        ),
        (None, Some(h)) => (
            spec_cap_u32(spec_round_div(h as int * src_w as int, src_h as int)),
            h as int,
        ),
        (None, None) => (16, spec_cap_u32(spec_round_div(16 * src_h as int, src_w as int))),
    }
}

/// Scale `a` by `num / den`, rounded to nearest, saturating at the
/// u32 range.
fn derive_dim(a: u32, num: u32, den: u32) -> (r: u32)
    requires
        den >= 1,
    ensures
        r as int == spec_cap_u32(spec_round_div(a as int * num as int, den as int)),
{
    proof {
        assert((a as int) * (num as int) <= 0xFFFF_FFFFu64 * 0xFFFF_FFFFu64) by (nonlinear_arith)
            requires
                a <= 0xFFFF_FFFFu64,
                num <= 0xFFFF_FFFFu64,
        ;
    }
    let product: u64 = (a as u64) * (num as u64);
    let rounded: u64 = (product + (den as u64) / 2) / (den as u64);
    if rounded > 0xFFFF_FFFF {
        u32::MAX
    } else {
        rounded as u32
    }
}

/// The target dimensions of one rendering request.
pub fn compute_target_size(
    src_w: u32,
    src_h: u32,
    want_w: Option<u32>,
    want_h: Option<u32>,
) -> (r: (u32, u32))
    requires
        src_w >= 1,
        src_h >= 1,
    ensures
        (r.0 as int, r.1 as int) == spec_target_dims(src_w, src_h, want_w, want_h),
{
    match (want_w, want_h) {
        (Some(w), Some(h)) => (w, h),
        (Some(w), None) => (w, derive_dim(w, src_h, src_w)),
        (None, Some(h)) => (derive_dim(h, src_w, src_h), h),
        (None, None) => (16, derive_dim(16, src_h, src_w)),
    }
}

/// Sum of one channel over the first `n` pixels of a three-channel
/// row-major buffer.
pub open spec fn spec_channel_sum(p: Seq<u8>, c: int, n: int) -> int
    recommends
        0 <= c < 3,
        3 * n <= p.len(),
    decreases n,
{
    if n <= 0 {
        0
    } else {
        spec_channel_sum(p, c, n - 1) + p[3 * (n - 1) + c]
    }
}

/// Channel sums lie between zero and 255 per pixel.
proof fn lemma_channel_sum_bound(p: Seq<u8>, c: int, n: int)
    requires
        0 <= c < 3,
        0 <= n,
        3 * n <= p.len(),
    ensures
        0 <= spec_channel_sum(p, c, n) <= 255 * n,
    decreases n,
{
    if n > 0 {
        lemma_channel_sum_bound(p, c, n - 1);
        assert(p[3 * (n - 1) + c] <= 255);
        assert(spec_channel_sum(p, c, n) == spec_channel_sum(p, c, n - 1) + p[3 * (n - 1) + c]);
    }
}

/// The color of pixel `i` of a three-channel row-major buffer.
pub open spec fn spec_color_at(p: Seq<u8>, i: int) -> (u8, u8, u8) {
    (p[3 * i], p[3 * i + 1], p[3 * i + 2])
}

/// How many of the first `n` pixels carry exactly the given color.
pub open spec fn spec_color_count(p: Seq<u8>, color: (u8, u8, u8), n: int) -> int
    decreases n,
{
    if n <= 0 {
        0
    } else {
        spec_color_count(p, color, n - 1) + if spec_color_at(p, n - 1) == color {
            1int
        } else {
            0int
        }
    }
}

/// The per-channel arithmetic mean over all pixels, truncated.
fn average_color(pixels: &Vec<u8>) -> (r: (u8, u8, u8))
    requires
        pixels@.len() % 3 == 0,
        pixels@.len() >= 3,
    ensures
        ({
            let n = pixels@.len() as int / 3;
            &&& r.0 == spec_channel_sum(pixels@, 0, n) / n
            &&& r.1 == spec_channel_sum(pixels@, 1, n) / n
            &&& r.2 == spec_channel_sum(pixels@, 2, n) / n
        }),
{
    let n = pixels.len() / 3;
    proof {
        lemma_fundamental_div_mod(pixels@.len() as int, 3);
    }
    let mut red_sum: u128 = 0;
    let mut green_sum: u128 = 0;
    let mut blue_sum: u128 = 0;
    let mut i: usize = 0;
    while i < n
        invariant
            3 * n == pixels@.len(),
            i <= n,
            n <= pixels@.len(),
            pixels@.len() == pixels.len(),
            red_sum == spec_channel_sum(pixels@, 0, i as int),
            green_sum == spec_channel_sum(pixels@, 1, i as int),
            blue_sum == spec_channel_sum(pixels@, 2, i as int),
            red_sum <= 255 * i,
            green_sum <= 255 * i,
            blue_sum <= 255 * i,
        decreases n - i,
    {
        red_sum = red_sum + pixels[3 * i] as u128;
        green_sum = green_sum + pixels[3 * i + 1] as u128;
        blue_sum = blue_sum + pixels[3 * i + 2] as u128;
        i = i + 1;
    }
    proof {
        lemma_channel_sum_bound(pixels@, 0, n as int);
        lemma_channel_sum_bound(pixels@, 1, n as int);
        lemma_channel_sum_bound(pixels@, 2, n as int);
        assert(red_sum / (n as u128) <= 255) by (nonlinear_arith)
            requires
                n >= 1,
                red_sum <= 255 * n,
        ;
        assert(green_sum / (n as u128) <= 255) by (nonlinear_arith)
            requires
                n >= 1,
                green_sum <= 255 * n,
        ;
        assert(blue_sum / (n as u128) <= 255) by (nonlinear_arith)
            requires
                n >= 1,
                blue_sum <= 255 * n,
        ;
    }
    let red = (red_sum / n as u128) as u8;
    let green = (green_sum / n as u128) as u8;
    let blue = (blue_sum / n as u128) as u8;
    (red, green, blue)
}

/// How many of the buffer's pixels carry exactly the given color.
fn count_color(pixels: &Vec<u8>, color: (u8, u8, u8)) -> (r: usize)
    requires
        pixels@.len() % 3 == 0,
    ensures
        r == spec_color_count(pixels@, color, pixels@.len() as int / 3),
{
    let n = pixels.len() / 3;
    proof {
        lemma_fundamental_div_mod(pixels@.len() as int, 3);
    }
    let mut count: usize = 0;
    let mut i: usize = 0;
    while i < n
        invariant
            3 * n == pixels@.len(),
            i <= n,
            pixels@.len() == pixels.len(),
            count <= i,
            count == spec_color_count(pixels@, color, i as int),
        decreases n - i,
    {
        if pixels[3 * i] == color.0 && pixels[3 * i + 1] == color.1 && pixels[3 * i + 2]
            == color.2 {
            count = count + 1;
        }
        i = i + 1;
    }
    count
}

/// The exact color that pixel `j` holds is dominant with first
/// occurrence at `j`: its count is maximal, and every earlier pixel's
/// color counts strictly fewer occurrences.
pub open spec fn spec_dominant_at(p: Seq<u8>, n: int, j: int) -> bool {
    &&& 0 <= j < n
    &&& forall|k: int|
        0 <= k < n ==> spec_color_count(p, #[trigger] spec_color_at(p, k), n) <= spec_color_count(
            p,
            spec_color_at(p, j),
            n,
        )
    &&& forall|k: int|
        0 <= k < j ==> spec_color_count(p, #[trigger] spec_color_at(p, k), n) < spec_color_count(
            p,
            spec_color_at(p, j),
            n,
        )
}

/// The most frequent exact color, ties broken by first occurrence.
pub open spec fn spec_dominant_color(p: Seq<u8>, n: int) -> (u8, u8, u8) {
    spec_color_at(p, choose|j: int| spec_dominant_at(p, n, j))
}

/// The most frequent exact color of the buffer; among equally
/// frequent colors the one encountered first wins.
fn dominant_color(pixels: &Vec<u8>) -> (r: (u8, u8, u8))
    requires
        pixels@.len() % 3 == 0,
        pixels@.len() >= 3,
    ensures
        ({
            let n = pixels@.len() as int / 3;
            exists|j: int| spec_dominant_at(pixels@, n, j) && r == spec_color_at(pixels@, j)
        }),
{
    let n = pixels.len() / 3;
    proof {
        lemma_fundamental_div_mod(pixels@.len() as int, 3);
    }
    let mut best = (pixels[0], pixels[1], pixels[2]);
    let mut best_count = count_color(pixels, best);
    let ghost mut best_j: int = 0;
    proof {
        assert(spec_color_at(pixels@, 0) == best);
    }
    let mut i: usize = 1;
    while i < n
        invariant
            3 * n == pixels@.len(),
            pixels@.len() == pixels.len(),
            1 <= i <= n,
            n >= 1,
            0 <= best_j < i,
            best == spec_color_at(pixels@, best_j),
            best_count == spec_color_count(pixels@, best, n as int),
            forall|k: int|
                0 <= k < i ==> spec_color_count(pixels@, #[trigger] spec_color_at(pixels@, k), n as int)
                    <= best_count,
            forall|k: int|
                0 <= k < best_j ==> spec_color_count(
                    pixels@,
                    #[trigger] spec_color_at(pixels@, k),
                    n as int,
                ) < best_count,
        decreases n - i,
    {
        let candidate = (pixels[3 * i], pixels[3 * i + 1], pixels[3 * i + 2]);
        proof {
            assert(spec_color_at(pixels@, i as int) == candidate);
        }
        let candidate_count = count_color(pixels, candidate);
        if candidate_count > best_count {
            best = candidate;
            best_count = candidate_count;
            proof {
                best_j = i as int;
            }
        }
        i = i + 1;
    }
    proof {
        assert(spec_dominant_at(pixels@, n as int, best_j));
    }
    best
}

/// A solid four-channel buffer: every pixel carries the given color.
pub open spec fn spec_solid_rgba(w: u32, h: u32, color: (u8, u8, u8, u8)) -> Seq<u8> {
    Seq::new(
        (4 * w * h) as nat,
        |i: int|
            if i % 4 == 0 {
                color.0
            } else if i % 4 == 1 {
                color.1
            } else if i % 4 == 2 {
                color.2
            } else {
                color.3
            },
    )
}

/// Fill a four-channel buffer with one color.
fn solid_rgba_buffer(w: u32, h: u32, color: (u8, u8, u8, u8)) -> (r: Vec<u8>)
    requires
        4 * w * h <= usize::MAX,
    ensures
        r@ == spec_solid_rgba(w, h, color),
{
    proof {
        assert((4 * (w as int)) * (h as int) == 4 * ((w as int) * (h as int)) && (w as int) * (
        h as int) >= 0 && (w as int) * (h as int) <= 0xFFFF_FFFFu64 * 0xFFFF_FFFFu64)
            by (nonlinear_arith)
            requires
                w <= 0xFFFF_FFFFu64,
                h <= 0xFFFF_FFFFu64,
        ;
    }
    let pixel_total: u64 = (w as u64) * (h as u64);
    let count: usize = pixel_total as usize;
    let ghost target = spec_solid_rgba(w, h, color);
    proof {
        assert(target.len() == 4 * count);
    }
    let mut out: Vec<u8> = Vec::new();
    let mut i: usize = 0;
    while i < count
        invariant
            4 * count <= usize::MAX,
            target == spec_solid_rgba(w, h, color),
            target.len() == 4 * count,
            i <= count,
            out@.len() == 4 * i,
            forall|k: int| 0 <= k < 4 * i ==> out@[k] == target[k],
        decreases count - i,
    {
        let ghost before = out@;
        out.push(color.0);
        out.push(color.1);
        out.push(color.2);
        out.push(color.3);
        proof {
            let base = 4 * (i as int);
            assert(out@[base] == color.0);
            assert(out@[base + 1] == color.1);
            assert(out@[base + 2] == color.2);
            assert(out@[base + 3] == color.3);
            assert(base % 4 == 0 && (base + 1) % 4 == 1 && (base + 2) % 4 == 2 && (base + 3) % 4
                == 3) by (nonlinear_arith)
                requires
                    base == 4 * (i as int),
                    i >= 0,
            ;
            assert forall|k: int| 0 <= k < 4 * (i + 1) implies out@[k] == target[k] by {
                if k < base {
                    assert(out@[k] == before[k]);
                }
            }
        }
        i = i + 1;
    }
    proof {
        assert(out@ =~= target);
    }
    out
}

/// A transparent rendering is transparent everywhere: in the buffer
/// behind a `Transparent` placeholder, every pixel's alpha byte is
/// zero (as are its color channels).
pub proof fn lemma_transparent_buffer_alpha_zero(w: u32, h: u32)
    ensures
        forall|i: int|
            0 <= i < (w as int) * (h as int) ==> #[trigger] spec_solid_rgba(
                w,
                h,
                (0u8, 0u8, 0u8, 0u8),
            )[4 * i + 3] == 0,
{
    assert forall|i: int| 0 <= i < (w as int) * (h as int) implies #[trigger] spec_solid_rgba(
        w,
        h,
        (0u8, 0u8, 0u8, 0u8),
    )[4 * i + 3] == 0 by {
        assert((4 * i + 3) % 4 == 3 && 4 * i + 3 < 4 * ((w as int) * (h as int)) && (4 * (
        w as int)) * (h as int) == 4 * ((w as int) * (h as int))) by (nonlinear_arith)
            requires
                0 <= i < (w as int) * (h as int),
        ;
    }
}

/// A solid rectangle rendered as a PNG data URL; nothing when the
/// pixel count would not even fit in memory or the encoder fails.
pub open spec fn spec_rect_url(w: u32, h: u32, color: (u8, u8, u8, u8)) -> Option<Seq<char>> {
    if (w as int) * (h as int) > usize::MAX as int / 4 {
        None
    } else {
        match spec_png_rgba(spec_solid_rgba(w, h, color), w, h) {
            None => None,
            Some(png) => Some("data:image/png;base64,"@ + spec_base64(png)),
        }
    }
}

/// Render a solid rectangle of the given color as a PNG data URL.
fn create_base64_rectangle(w: u32, h: u32, color: (u8, u8, u8, u8)) -> (r: Result<String, ()>)
    ensures
        r is Ok <==> spec_rect_url(w, h, color) is Some,
        r is Ok ==> Some(r->Ok_0@) == spec_rect_url(w, h, color),
{
    proof {
        assert((4 * (w as int)) * (h as int) == 4 * ((w as int) * (h as int)) && (w as int) * (
        h as int) >= 0 && (w as int) * (h as int) <= 0xFFFF_FFFFu64 * 0xFFFF_FFFFu64)
            by (nonlinear_arith)
            requires
                w <= 0xFFFF_FFFFu64,
                h <= 0xFFFF_FFFFu64,
        ;
    }
    let pixel_total: u64 = (w as u64) * (h as u64);
    let limit: u64 = (usize::MAX / 4) as u64;
    if pixel_total > limit {
        return Err(());
    }
    let buffer = solid_rgba_buffer(w, h, color);
    match png_encode_rgba(&buffer, w, h) {
        Ok(png) => {
            let encoded = base64_encode(&png);
            let mut out = "data:image/png;base64,".to_owned();
            out.append(encoded.as_str());
            proof {
                assert(out@ =~= spec_rect_url(w, h, color)->Some_0);
            }
            Ok(out)
        },
        Err(_) => Err(()),
    }
}

/// The tail every SVG wrapper ends with, after the embedded data.
pub open spec fn spec_svg_suffix() -> Seq<char> {
    "'/></svg>"@
}

/// The blur SVG up to the point where the base64 payload is embedded:
/// the canvas at the source dimensions, a gaussian blur filter whose
/// deviation is a twentieth of the width rounded to nearest, and the
/// opening of the embedded PNG data URL.
pub open spec fn spec_blur_svg_prefix(w: u32, h: u32) -> Seq<char> {
    "<svg xmlns='http://www.w3.org/2000/svg' viewBox='0 0 "@ + dec_str_of(w as int) + " "@
        + dec_str_of(h as int) + "' width='"@ + dec_str_of(w as int) + "' height='"@ + dec_str_of(
        h as int,
    ) + "'><filter id='b' color-interpolation-filters='sRGB'><feGaussianBlur stdDeviation='"@
        + dec_str_of(spec_round_div(w as int, 20))
        + "'/><feColorMatrix values='1 0 0 0 0 0 1 0 0 0 0 0 1 0 0 0 0 0 100 -1' result='s'/><feFlood x='0' y='0' width='100%' height='100%'/><feComposite operator='out' in='s'/><feComposite in2='SourceGraphic'/><feGaussianBlur stdDeviation='"@
        + dec_str_of(spec_round_div(w as int, 20))
        + "'/></filter><image width='100%' height='100%' x='0' y='0' preserveAspectRatio='none' style='filter: url(#b);' href='data:image/png;base64,"@
}

/// A blurred preview: the percent-encoded blur SVG with the raw
/// base64 payload spliced in unencoded. Percent-encoding works byte
/// by byte, so encoding the SVG around the payload and splicing
/// equals encoding a template and substituting a placeholder token:
/// the payload itself is never percent-escaped.
pub open spec fn spec_blurred_url(data: Seq<char>, w: u32, h: u32) -> Seq<char> {
    "data:image/svg+xml,"@ + spec_url_encoded(spec_blur_svg_prefix(w, h)) + data
        + spec_url_encoded(spec_svg_suffix())
}

/// Build the blur SVG data URL around a base64 PNG payload; `width`
/// and `height` are the source image's dimensions.
pub fn create_blurred_preview_url(data_src: &str, width: u32, height: u32) -> (r: String)
    ensures
        r@ == spec_blurred_url(data_src@, width, height),
{
    let deviation: u32 = (((width as u64) + 10) / 20) as u32;
    let width_text = u32_to_string(width);
    let height_text = u32_to_string(height);
    let deviation_text = u32_to_string(deviation);
    let mut svg = "<svg xmlns='http://www.w3.org/2000/svg' viewBox='0 0 ".to_owned();
    svg.append(width_text.as_str());
    svg.append(" ");
    svg.append(height_text.as_str());
    svg.append("' width='");
    svg.append(width_text.as_str());
    svg.append("' height='");
    svg.append(height_text.as_str());
    svg.append("'><filter id='b' color-interpolation-filters='sRGB'><feGaussianBlur stdDeviation='");
    svg.append(deviation_text.as_str());
    svg.append(
        "'/><feColorMatrix values='1 0 0 0 0 0 1 0 0 0 0 0 1 0 0 0 0 0 100 -1' result='s'/><feFlood x='0' y='0' width='100%' height='100%'/><feComposite operator='out' in='s'/><feComposite in2='SourceGraphic'/><feGaussianBlur stdDeviation='",
    );
    svg.append(deviation_text.as_str());
    svg.append(
        "'/></filter><image width='100%' height='100%' x='0' y='0' preserveAspectRatio='none' style='filter: url(#b);' href='data:image/png;base64,",
    );
    proof {
        assert(svg@ =~= spec_blur_svg_prefix(width, height));
    }
    let encoded_prefix = url_encode(svg.as_str());
    let encoded_suffix = url_encode("'/></svg>");
    let mut out = "data:image/svg+xml,".to_owned();
    out.append(encoded_prefix.as_str());
    out.append(data_src);
    out.append(encoded_suffix.as_str());
    proof {
        assert(out@ =~= spec_blurred_url(data_src@, width, height));
    }
    out
}

/// The generic SVG wrapper up to the point where the data URL is
/// embedded: a canvas at the source dimensions around one image tag.
pub open spec fn spec_wrap_svg_prefix(w: u32, h: u32) -> Seq<char> {
    "<svg xmlns='http://www.w3.org/2000/svg' viewBox='0 0 "@ + dec_str_of(w as int) + " "@
        + dec_str_of(h as int) + "' width='"@ + dec_str_of(w as int) + "' height='"@ + dec_str_of(
        h as int,
    )
        + "'><image width='100%' height='100%' x='0' y='0' preserveAspectRatio='none' href='"@
}

/// A data URL wrapped in an SVG at the original dimensions, so the
/// placeholder keeps the true aspect ratio. The payload is spliced in
/// after percent-encoding the SVG around it, as with the blur SVG.
pub open spec fn spec_wrapped_url(data: Seq<char>, w: u32, h: u32) -> Seq<char> {
    "data:image/svg+xml,"@ + spec_url_encoded(spec_wrap_svg_prefix(w, h)) + data
        + spec_url_encoded(spec_svg_suffix())
}

/// Wrap a data URL in an SVG sized at the original dimensions.
pub fn wrap_with_svg(data_src: String, width: u32, height: u32) -> (r: String)
    ensures
        r@ == spec_wrapped_url(data_src@, width, height),
{
    let width_text = u32_to_string(width);
    let height_text = u32_to_string(height);
    let mut svg = "<svg xmlns='http://www.w3.org/2000/svg' viewBox='0 0 ".to_owned();
    svg.append(width_text.as_str());
    svg.append(" ");
    svg.append(height_text.as_str());
    svg.append("' width='");
    svg.append(width_text.as_str());
    svg.append("' height='");
    svg.append(height_text.as_str());
    svg.append(
        "'><image width='100%' height='100%' x='0' y='0' preserveAspectRatio='none' href='",
    );
    proof {
        assert(svg@ =~= spec_wrap_svg_prefix(width, height));
    }
    let encoded_prefix = url_encode(svg.as_str());
    let encoded_suffix = url_encode("'/></svg>");
    let mut out = "data:image/svg+xml,".to_owned();
    out.append(encoded_prefix.as_str());
    out.append(data_src.as_str());
    out.append(encoded_suffix.as_str());
    proof {
        assert(out@ =~= spec_wrapped_url(data_src@, width, height));
    }
    out
}

/// Two first occurrences of a dominant color coincide.
proof fn lemma_dominant_unique(p: Seq<u8>, n: int, j1: int, j2: int)
    requires
        spec_dominant_at(p, n, j1),
        spec_dominant_at(p, n, j2),
    ensures
        j1 == j2,
{
    if j1 < j2 {
        assert(spec_color_count(p, spec_color_at(p, j1), n) < spec_color_count(
            p,
            spec_color_at(p, j2),
            n,
        ));
    }
    if j2 < j1 {
        assert(spec_color_count(p, spec_color_at(p, j2), n) < spec_color_count(
            p,
            spec_color_at(p, j1),
            n,
        ));
    }
}

/// What decoding yields under the working color model of a kind:
/// single-channel luminance for grayscale, three-channel RGB else.
pub open spec fn spec_decoded(bytes: Seq<u8>, kind: PlaceholderImageOutputKind) -> Option<
    (Seq<u8>, u32, u32),
> {
    if kind == PlaceholderImageOutputKind::Grayscale {
        spec_luma_decode(bytes)
    } else {
        spec_rgb_decode(bytes)
    }
}

/// What resampling yields under the working color model of a kind.
pub open spec fn spec_resized(
    pixels: Seq<u8>,
    w: u32,
    h: u32,
    tw: u32,
    th: u32,
    kind: PlaceholderImageOutputKind,
) -> Option<Seq<u8>> {
    if kind == PlaceholderImageOutputKind::Grayscale {
        spec_resize1(pixels, w, h, tw, th)
    } else {
        spec_resize3(pixels, w, h, tw, th)
    }
}

/// The whole pipeline on one image, as a function of the bytes and
/// the options: decode under the kind's color model, derive the
/// target size, resample, and render the kind's data URL. `Decode`
/// when the bytes are no supported image; `Encode` when any dimension
/// comes out zero or a rendering step fails.
pub open spec fn spec_process(bytes: Seq<u8>, options: PreviewOptions) -> Result<
    (Seq<char>, u32, u32, u32, u32),
    ProcessImageError,
> {
    match spec_decoded(bytes, options.output_kind) {
        None => Err(ProcessImageError::Decode),
        Some((pixels, w, h)) => {
            if w < 1 || h < 1 {
                Err(ProcessImageError::Encode)
            } else {
                let dims = spec_target_dims(w, h, options.width, options.height);
                if dims.0 < 1 || dims.1 < 1 {
                    Err(ProcessImageError::Encode)
                } else {
                    let tw = dims.0 as u32;
                    let th = dims.1 as u32;
                    match spec_resized(pixels, w, h, tw, th, options.output_kind) {
                        None => Err(ProcessImageError::Encode),
                        Some(rp) => spec_render(rp, tw, th, w, h, options.output_kind),
                    }
                }
            }
        },
    }
}

/// The output rendering of one kind over the resampled buffer.
pub open spec fn spec_render(
    rp: Seq<u8>,
    tw: u32,
    th: u32,
    w: u32,
    h: u32,
    kind: PlaceholderImageOutputKind,
) -> Result<(Seq<char>, u32, u32, u32, u32), ProcessImageError> {
    match kind {
        PlaceholderImageOutputKind::Normal => match spec_png_rgb(rp, tw, th) {
            None => Err(ProcessImageError::Encode),
            Some(png) => Ok(("data:image/png;base64,"@ + spec_base64(png), tw, th, w, h)),
        },
        PlaceholderImageOutputKind::Grayscale => match spec_png_luma(rp, tw, th) {
            None => Err(ProcessImageError::Encode),
            Some(png) => Ok(("data:image/png;base64,"@ + spec_base64(png), tw, th, w, h)),
        },
        PlaceholderImageOutputKind::Blurred => match spec_png_rgb(rp, tw, th) {
            None => Err(ProcessImageError::Encode),
            Some(png) => Ok((spec_blurred_url(spec_base64(png), w, h), tw, th, w, h)),
        },
        PlaceholderImageOutputKind::AverageColor => {
            let n = (tw as int) * (th as int);
            let color = (
                (spec_channel_sum(rp, 0, n) / n) as u8,
                (spec_channel_sum(rp, 1, n) / n) as u8,
                (spec_channel_sum(rp, 2, n) / n) as u8,
                255u8,
            );
            match spec_rect_url(tw, th, color) {
                None => Err(ProcessImageError::Encode),
                Some(url) => Ok((url, tw, th, w, h)),
            }
        },
        PlaceholderImageOutputKind::DominantColor => {
            let n = (tw as int) * (th as int);
            let dominant = spec_dominant_color(rp, n);
            match spec_rect_url(tw, th, (dominant.0, dominant.1, dominant.2, 255u8)) {
                None => Err(ProcessImageError::Encode),
                Some(url) => Ok((url, tw, th, w, h)),
            }
        },
        PlaceholderImageOutputKind::Transparent => match spec_rect_url(
            tw,
            th,
            (0u8, 0u8, 0u8, 0u8),
        ) {
            None => Err(ProcessImageError::Encode),
            Some(url) => Ok((url, tw, th, w, h)),
        },
    }
}

/// Run the pipeline on raw image bytes: decode under the kind's color
/// model, resample to the target size with nearest-neighbor, render
/// the kind's output, and return the data URL with the rendered and
/// source dimensions.
pub fn process_image(bytes: &Vec<u8>, options: &PreviewOptions) -> (r: Result<
    ProcessImageOutput,
    ProcessImageError,
>)
    ensures
        r is Ok <==> spec_process(bytes@, *options) is Ok,
        r is Ok ==> ({
            let out = spec_process(bytes@, *options)->Ok_0;
            &&& r->Ok_0.base64_str@ == out.0
            &&& r->Ok_0.width == out.1
            &&& r->Ok_0.height == out.2
            &&& r->Ok_0.original_width == out.3
            &&& r->Ok_0.original_height == out.4
        }),
        r is Err ==> r->Err_0 == spec_process(bytes@, *options)->Err_0,
{
    let is_gray = matches!(options.output_kind, PlaceholderImageOutputKind::Grayscale);
    let decoded = if is_gray {
        decode_luma8(bytes)
    } else {
        decode_rgb8(bytes)
    };
    let (pixels, w, h) = match decoded {
        Ok(t) => t,
        Err(_) => {
            return Err(ProcessImageError::Decode);
        },
    };
    if w < 1 || h < 1 {
        return Err(ProcessImageError::Encode);
    }
    let (tw, th) = compute_target_size(w, h, options.width, options.height);
    if tw < 1 || th < 1 {
        return Err(ProcessImageError::Encode);
    }
    let resized = if is_gray {
        resize_nearest_luma(pixels, w, h, tw, th)
    } else {
        resize_nearest_rgb(pixels, w, h, tw, th)
    };
    let rp = match resized {
        Ok(v) => v,
        Err(_) => {
            return Err(ProcessImageError::Encode);
        },
    };
    proof {
        if options.output_kind != PlaceholderImageOutputKind::Grayscale {
            let x = (tw as int) * (th as int);
            assert((3 * (tw as int)) * (th as int) == 3 * x && x >= 1) by (nonlinear_arith)
                requires
                    tw >= 1,
                    th >= 1,
                    x == (tw as int) * (th as int),
            ;
            vstd::arithmetic::div_mod::lemma_div_multiples_vanish(x, 3);
            vstd::arithmetic::div_mod::lemma_mod_multiples_basic(x, 3);
        }
    }
    let url = match options.output_kind {
        PlaceholderImageOutputKind::Normal => {
            let png = match png_encode_rgb(&rp, tw, th) {
                Ok(p) => p,
                Err(_) => {
                    return Err(ProcessImageError::Encode);
                },
            };
            let encoded = base64_encode(&png);
            let mut out = "data:image/png;base64,".to_owned();
            out.append(encoded.as_str());
            out
        },
        PlaceholderImageOutputKind::Grayscale => {
            let png = match png_encode_luma(&rp, tw, th) {
                Ok(p) => p,
                Err(_) => {
                    return Err(ProcessImageError::Encode);
                },
            };
            let encoded = base64_encode(&png);
            let mut out = "data:image/png;base64,".to_owned();
            out.append(encoded.as_str());
            out
        },
        PlaceholderImageOutputKind::Blurred => {
            let png = match png_encode_rgb(&rp, tw, th) {
                Ok(p) => p,
                Err(_) => {
                    return Err(ProcessImageError::Encode);
                },
            };
            let encoded = base64_encode(&png);
            create_blurred_preview_url(encoded.as_str(), w, h)
        },
        PlaceholderImageOutputKind::AverageColor => {
            let color = average_color(&rp);
            match create_base64_rectangle(tw, th, (color.0, color.1, color.2, 255)) {
                Ok(u) => u,
                Err(_) => {
                    return Err(ProcessImageError::Encode);
                },
            }
        },
        PlaceholderImageOutputKind::DominantColor => {
            let color = dominant_color(&rp);
            proof {
                let n = (tw as int) * (th as int);
                let jw = choose|j: int| spec_dominant_at(rp@, n, j) && color == spec_color_at(
                    rp@,
                    j,
                );
                let jc = choose|j: int| spec_dominant_at(rp@, n, j);
                lemma_dominant_unique(rp@, n, jw, jc);
                assert(spec_dominant_color(rp@, n) == color);
            }
            match create_base64_rectangle(tw, th, (color.0, color.1, color.2, 255)) {
                Ok(u) => u,
                Err(_) => {
                    return Err(ProcessImageError::Encode);
                },
            }
        },
        PlaceholderImageOutputKind::Transparent => {
            match create_base64_rectangle(tw, th, (0, 0, 0, 0)) {
                Ok(u) => u,
                Err(_) => {
                    return Err(ProcessImageError::Encode);
                },
            }
        },
    };
    Ok(
        ProcessImageOutput {
            base64_str: url,
            width: tw,
            height: th,
            original_width: w,
            original_height: h,
        },
    )
}

} // verus!
