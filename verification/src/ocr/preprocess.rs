//! Preparation of an image for recognition: grey levels with their contrast stretched.

use vstd::prelude::*;

use crate::ocr::engine::{error, error_with, OcrError};

verus! {

/// An image of grey levels, row by row.
#[derive(Debug, Clone)]
pub struct GrayImage {
    pub width: u32,
    pub height: u32,
    pub pixels: Vec<u8>,
}

impl GrayImage {
    /// There is one grey level for each pixel.
    pub open spec fn wf(&self) -> bool {
        self.pixels@.len() == self.width * self.height
    }
}

/// An image of red, green and blue, row by row.
#[derive(Debug, Clone)]
pub struct RgbImage {
    pub width: u32,
    pub height: u32,
    pub pixels: Vec<u8>,
}

/// The lowest grey level; the highest possible one where there is none.
pub open spec fn lowest(pixels: Seq<u8>) -> u8
    decreases pixels.len(),
{
    if pixels.len() == 0 {
        255
    } else if pixels.last() < lowest(pixels.drop_last()) {
        pixels.last()
    } else {
        lowest(pixels.drop_last())
    }
}

/// The highest grey level; zero where there is none.
pub open spec fn highest(pixels: Seq<u8>) -> u8
    decreases pixels.len(),
{
    if pixels.len() == 0 {
        0
    } else if pixels.last() > highest(pixels.drop_last()) {
        pixels.last()
    } else {
        highest(pixels.drop_last())
    }
}

/// The quotient of `n` and `d`, rounded to the nearest integer and upwards in the middle.
pub open spec fn rounded(n: int, d: int) -> int {
    (2 * n + d) / (2 * d)
}

/// The grey level that `v` becomes when the levels from `lo` to `hi` are spread over
/// all levels.
pub open spec fn spread(v: u8, lo: u8, hi: u8) -> u8 {
    rounded(255 * (v - lo), hi - lo) as u8
}

/// The grey levels, spread over all levels. Where there is only one level, or the
/// levels reach from end to end already, they stay.
pub open spec fn stretched(pixels: Seq<u8>) -> Seq<u8> {
    if lowest(pixels) >= highest(pixels) {
        pixels
    } else {
        Seq::new(pixels.len(), |i: int| spread(pixels[i], lowest(pixels), highest(pixels)))
    }
}

/// Each grey level three times over.
pub open spec fn tripled(pixels: Seq<u8>) -> Seq<u8> {
    Seq::new(3 * pixels.len(), |i: int| pixels[i / 3])
}

proof fn lemma_extremes(pixels: Seq<u8>)
    ensures
        forall|i: int|
            0 <= i < pixels.len() ==> lowest(pixels) <= #[trigger] pixels[i] <= highest(pixels),
        pixels.len() > 0 ==> exists|i: int|
            0 <= i < pixels.len() && #[trigger] pixels[i] == lowest(pixels),
        pixels.len() > 0 ==> exists|i: int|
            0 <= i < pixels.len() && #[trigger] pixels[i] == highest(pixels),
    decreases pixels.len(),
{
    if pixels.len() > 0 {
        let front = pixels.drop_last();
        let n = pixels.len() - 1;
        lemma_extremes(front);
        assert forall|i: int| 0 <= i < pixels.len() implies lowest(pixels) <= #[trigger] pixels[i]
            <= highest(pixels) by {
            if i < n {
                assert(front[i] == pixels[i]);
            }
        }
        assert(pixels[n] == pixels.last());
        if front.len() > 0 {
            let a = choose|i: int| 0 <= i < front.len() && #[trigger] front[i] == lowest(front);
            let b = choose|i: int| 0 <= i < front.len() && #[trigger] front[i] == highest(front);
            assert(pixels[a] == lowest(front));
            assert(pixels[b] == highest(front));
        }
    }
}

proof fn lemma_spread(d: int, r: int)
    requires
        0 <= d <= r,
        0 < r <= 255,
    ensures
        0 <= rounded(255 * d, r) <= 255,
        d == 0 ==> rounded(255 * d, r) == 0,
        d == r ==> rounded(255 * d, r) == 255,
        r == 255 ==> rounded(255 * d, r) == d,
{
    let n = 2 * (255 * d) + r;
    let q = n / (2 * r);
    vstd::arithmetic::div_mod::lemma_fundamental_div_mod(n, 2 * r);
    vstd::arithmetic::div_mod::lemma_mod_bound(n, 2 * r);
    assert(n == (2 * r) * q + n % (2 * r));
    assert(0 <= q <= 255) by (nonlinear_arith)
        requires
            n == (2 * r) * q + n % (2 * r),
            0 <= n % (2 * r) < 2 * r,
            n == 2 * (255 * d) + r,
            0 <= d <= r,
            0 < r,
    ;
    if d == 0 {
        assert(q == 0) by (nonlinear_arith)
            requires
                n == (2 * r) * q + n % (2 * r),
                0 <= n % (2 * r) < 2 * r,
                n == r,
                0 < r,
                0 <= q,
        ;
    }
    if d == r {
        assert(q == 255) by (nonlinear_arith)
            requires
                n == (2 * r) * q + n % (2 * r),
                0 <= n % (2 * r) < 2 * r,
                n == 511 * r,
                0 < r,
                0 <= q <= 255,
        ;
    }
    if r == 255 {
        assert(q == d) by (nonlinear_arith)
            requires
                n == (2 * r) * q + n % (2 * r),
                0 <= n % (2 * r) < 2 * r,
                n == 2 * (255 * d) + r,
                r == 255,
        ;
    }
}

/// The lowest and the highest grey level.
fn extremes(pixels: &Vec<u8>) -> (r: (u8, u8))
    ensures
        r == (lowest(pixels@), highest(pixels@)),
{
    let mut lo: u8 = 255;
    let mut hi: u8 = 0;
    let n: usize = pixels.len();
    let mut i: usize = 0;
    while i < n
        invariant
            i <= n,
            n == pixels@.len(),
            lo == lowest(pixels@.take(i as int)),
            hi == highest(pixels@.take(i as int)),
        decreases n - i,
    {
        let v: u8 = pixels[i];
        assert(pixels@.take(i + 1).drop_last() =~= pixels@.take(i as int));
        if v < lo {
            lo = v;
        }
        if v > hi {
            hi = v;
        }
        i += 1;
    }
    assert(pixels@.take(n as int) =~= pixels@);
    (lo, hi)
}

/// Spreads the grey levels of an image over all levels, the lowest to black and the
/// highest to white.
pub fn contrast_stretch(gray: &GrayImage) -> (out: GrayImage)
    ensures
        out.width == gray.width,
        out.height == gray.height,
        out.pixels@ == stretched(gray.pixels@),
{
    let (lo, hi) = extremes(&gray.pixels);
    let mut pixels: Vec<u8> = Vec::new();
    let n: usize = gray.pixels.len();
    let mut i: usize = 0;
    proof {
        lemma_extremes(gray.pixels@);
    }
    while i < n
        invariant
            i <= n,
            n == gray.pixels@.len(),
            lo == lowest(gray.pixels@),
            hi == highest(gray.pixels@),
            forall|k: int| 0 <= k < n ==> lo <= #[trigger] gray.pixels@[k] <= hi,
            pixels@.len() == i,
            forall|k: int|
                0 <= k < i ==> #[trigger] pixels@[k] == (if lo >= hi {
                    gray.pixels@[k]
                } else {
                    spread(gray.pixels@[k], lo, hi)
                }),
        decreases n - i,
    {
        let v: u8 = gray.pixels[i];
        if lo >= hi || hi - lo == 255 {
            proof {
                if lo < hi {
                    lemma_spread(v - lo, hi - lo);
                }
            }
            pixels.push(v);
        } else {
            let d: u32 = (v - lo) as u32;
            let r: u32 = (hi - lo) as u32;
            proof {
                lemma_spread(d as int, r as int);
            }
            let level: u32 = (510 * d + r) / (2 * r);
            assert(level == rounded(255 * d, r as int));
            pixels.push(level as u8);
        }
        i += 1;
    }
    assert(pixels@ =~= stretched(gray.pixels@));
    GrayImage { width: gray.width, height: gray.height, pixels }
}

/// Prepares an image of grey levels: stretches its contrast, and gives red, green and
/// blue the grey level of each pixel.
pub fn preprocess_for_ocr(gray: &GrayImage) -> (out: RgbImage)
    ensures
        out.width == gray.width,
        out.height == gray.height,
        out.pixels@ == tripled(stretched(gray.pixels@)),
{
    let stretch = contrast_stretch(gray);
    let mut pixels: Vec<u8> = Vec::new();
    let n: usize = stretch.pixels.len();
    let mut i: usize = 0;
    while i < n
        invariant
            i <= n,
            n == stretch.pixels@.len(),
            pixels@.len() == 3 * i,
            forall|k: int| 0 <= k < 3 * i ==> #[trigger] pixels@[k] == stretch.pixels@[k / 3],
        decreases n - i,
    {
        let v: u8 = stretch.pixels[i];
        pixels.push(v);
        pixels.push(v);
        pixels.push(v);
        i += 1;
    }
    assert(pixels@ =~= tripled(stretch.pixels@));
    RgbImage { width: gray.width, height: gray.height, pixels }
}

// ---------------------------------------------------------------------------
// Decoding
// ---------------------------------------------------------------------------

/// The width and height that `image::load_from_memory` finds in these bytes; `None` where
/// it returns an error. No decoding hook is registered with the image crate.
pub uninterp spec fn decoded_size(bytes: Seq<u8>) -> Option<(u32, u32)>;

/// `text` is how an error reads that `image::load_from_memory` returns for these bytes,
/// while no decoding hook is registered with the image crate.
pub uninterp spec fn refused_with(bytes: Seq<u8>, text: Seq<char>) -> bool;

/// `pixels` are grey levels that `image::load_from_memory` and then
/// `DynamicImage::to_luma8` make of these bytes on some processor, while no decoding
/// hook is registered with the image crate.
pub uninterp spec fn decodes_to(bytes: Seq<u8>, pixels: Seq<u8>) -> bool;

/// Calls `image::load_from_memory` and then `DynamicImage::to_luma8`.
///
/// Claimed of them: whether the bytes are an image and what size it has depends on the
/// bytes alone, and there is one grey level for each pixel. This holds while no decoding
/// hook is registered with the image crate, and neither the library nor the application
/// registers one. The grey levels come from the bytes, but which they are is left open:
/// they are computed in floating point, with fused or separate multiplication and
/// addition as the processor offers it. The text of the error comes from the bytes too,
/// but is left open: a file that is damaged in several places may be read by several
/// threads, and the first of them to fail gives the text.
#[verifier::external_body]
fn decode_luma(bytes: &[u8]) -> (r: Result<GrayImage, String>)
    ensures
        match r {
            Ok(gray) => decoded_size(bytes@) == Some((gray.width, gray.height)) && gray.wf()
                && decodes_to(bytes@, gray.pixels@),
            Err(e) => decoded_size(bytes@) is None && refused_with(bytes@, e@),
        },
{
    match image::load_from_memory(bytes) {
        Ok(picture) => {
            let gray = picture.to_luma8();
            Ok(GrayImage { width: gray.width(), height: gray.height(), pixels: gray.into_raw() })
        },
        Err(e) => Err(e.to_string()),
    }
}

/// What becomes of bytes that have been decoded to `decoded`.
pub fn prepare_decoded(decoded: Result<GrayImage, String>) -> (r: Result<RgbImage, OcrError>)
    ensures
        match decoded {
            Err(e) => r matches Err(x) && x@ == "解码 OCR 输入图片失败: "@ + e@,
            Ok(gray) => if gray.width == 0 || gray.height == 0 {
                r matches Err(x) && x@ == "OCR 输入图片为空"@
            } else {
                r matches Ok(rgb) && {
                    &&& rgb.width == gray.width
                    &&& rgb.height == gray.height
                    &&& rgb.pixels@ == tripled(stretched(gray.pixels@))
                }
            },
        },
{
    match decoded {
        Err(e) => Err(error_with("解码 OCR 输入图片失败: ", e.as_str())),
        Ok(gray) => {
            let rgb = preprocess_for_ocr(&gray);
            if rgb.width == 0 || rgb.height == 0 {
                Err(error("OCR 输入图片为空"))
            } else {
                Ok(rgb)
            }
        },
    }
}

/// `rgb` is what the grey levels of the image in `bytes` become.
pub open spec fn prepared(rgb: RgbImage, bytes: Seq<u8>, width: u32, height: u32) -> bool {
    &&& rgb.width == width
    &&& rgb.height == height
    &&& exists|gray: Seq<u8>| #[trigger]
        decodes_to(bytes, gray) && gray.len() == width * height && rgb.pixels@ == tripled(
            stretched(gray),
        )
}

/// `message` tells that `bytes` are no image, and why.
pub open spec fn tells_refusal(message: Seq<char>, bytes: Seq<u8>) -> bool {
    exists|text: Seq<char>| #[trigger]
        refused_with(bytes, text) && message == "解码 OCR 输入图片失败: "@ + text
}

/// Decodes an image and prepares it for recognition. Bytes that are no image are an
/// error, and so is an image without pixels.
pub fn prepare_image(bytes: &[u8]) -> (r: Result<RgbImage, OcrError>)
    ensures
        match decoded_size(bytes@) {
            None => r matches Err(x) && tells_refusal(x@, bytes@),
            Some((width, height)) => if width == 0 || height == 0 {
                r matches Err(x) && x@ == "OCR 输入图片为空"@
            } else {
                r matches Ok(rgb) && prepared(rgb, bytes@, width, height)
            },
        },
{
    let decoded = decode_luma(bytes);
    let ghost gray = decoded->Ok_0.pixels@;
    let r = prepare_decoded(decoded);
    assert(r matches Ok(rgb) ==> rgb.pixels@ == tripled(stretched(gray)));
    r
}

// ---------------------------------------------------------------------------
// Laws
// ---------------------------------------------------------------------------

/// Stretching takes the lowest grey level to black and the highest to white, and never
/// makes a darker pixel the brighter one.
pub proof fn law_stretching_spans_all_levels(pixels: Seq<u8>, i: int, j: int)
    requires
        lowest(pixels) < highest(pixels),
        0 <= i < pixels.len(),
        0 <= j < pixels.len(),
    ensures
        pixels[i] == lowest(pixels) ==> stretched(pixels)[i] == 0,
        pixels[i] == highest(pixels) ==> stretched(pixels)[i] == 255,
        pixels[i] <= pixels[j] ==> stretched(pixels)[i] <= stretched(pixels)[j],
{
    lemma_extremes(pixels);
    let lo = lowest(pixels);
    let r = highest(pixels) - lo;
    lemma_spread(pixels[i] - lo, r);
    lemma_spread(pixels[j] - lo, r);
    if pixels[i] <= pixels[j] {
        vstd::arithmetic::div_mod::lemma_div_is_ordered(
            2 * (255 * (pixels[i] - lo)) + r,
            2 * (255 * (pixels[j] - lo)) + r,
            2 * r,
        );
    }
}

/// Stretching what has been stretched changes nothing.
pub proof fn law_stretching_is_idempotent(pixels: Seq<u8>)
    ensures
        stretched(stretched(pixels)) == stretched(pixels),
{
    let out = stretched(pixels);
    if lowest(pixels) < highest(pixels) {
        lemma_extremes(pixels);
        assert(pixels.len() > 0);
        let a = choose|i: int| 0 <= i < pixels.len() && #[trigger] pixels[i] == lowest(pixels);
        let b = choose|i: int| 0 <= i < pixels.len() && #[trigger] pixels[i] == highest(pixels);
        law_stretching_spans_all_levels(pixels, a, b);
        law_stretching_spans_all_levels(pixels, b, a);
        lemma_extremes(out);
        assert(out[a] == 0 && out[b] == 255);
        assert forall|i: int| 0 <= i < out.len() implies #[trigger] stretched(out)[i]
            == out[i] by {
            lemma_spread(out[i] - lowest(out), highest(out) - lowest(out));
        }
        assert(stretched(out) =~= out);
    }
}

/// What stretching makes of each pixel, given a darkest one and a brightest one: the
/// number out of 255 that is nearest to its share of the way from the one to the other,
/// the greater one of two that are equally near. A picture of one level stays as it is.
pub proof fn law_each_level_is_spread_by_its_share(pixels: Seq<u8>, a: int, b: int, i: int)
    requires
        0 <= a < pixels.len(),
        0 <= b < pixels.len(),
        0 <= i < pixels.len(),
        forall|k: int| 0 <= k < pixels.len() ==> pixels[a] <= #[trigger] pixels[k] <= pixels[b],
    ensures
        stretched(pixels).len() == pixels.len(),
        pixels[a] == pixels[b] ==> stretched(pixels) == pixels,
        pixels[a] < pixels[b] ==> {
            let share = 255 * (pixels[i] - pixels[a]);
            let range = pixels[b] - pixels[a];
            -range <= 2 * (share - stretched(pixels)[i] * range) < range
        },
{
    lemma_extremes(pixels);
    let low = choose|k: int| 0 <= k < pixels.len() && #[trigger] pixels[k] == lowest(pixels);
    let high = choose|k: int| 0 <= k < pixels.len() && #[trigger] pixels[k] == highest(pixels);
    assert(pixels[a] <= pixels[low] && pixels[high] <= pixels[b]);
    if pixels[a] < pixels[b] {
        let d = pixels[i] - pixels[a];
        let r = pixels[b] - pixels[a];
        lemma_spread(d, r);
        let n = 2 * (255 * d) + r;
        let q = n / (2 * r);
        vstd::arithmetic::div_mod::lemma_fundamental_div_mod(n, 2 * r);
        vstd::arithmetic::div_mod::lemma_mod_bound(n, 2 * r);
        assert((2 * r) * q == 2 * (q * r)) by (nonlinear_arith);
        assert(stretched(pixels)[i] == q);
    }
}

/// Red, green and blue of each pixel are its grey level.
pub proof fn law_channels_are_the_grey_level(pixels: Seq<u8>, i: int)
    requires
        0 <= i < pixels.len(),
    ensures
        tripled(pixels).len() == 3 * pixels.len(),
        tripled(pixels)[3 * i] == pixels[i],
        tripled(pixels)[3 * i + 1] == pixels[i],
        tripled(pixels)[3 * i + 2] == pixels[i],
{
}

/// A prepared image has the size of the one that was decoded, and each of its pixels is
/// the stretched grey level of the pixel in the same place.
pub proof fn law_prepared_image_keeps_the_pixels(
    rgb: RgbImage,
    bytes: Seq<u8>,
    width: u32,
    height: u32,
)
    requires
        prepared(rgb, bytes, width, height),
    ensures
        rgb.width == width && rgb.height == height,
        rgb.pixels@.len() == 3 * (width * height),
        exists|gray: Seq<u8>| #[trigger]
            decodes_to(bytes, gray) && gray.len() == width * height && (forall|i: int|
                0 <= i < gray.len() ==> rgb.pixels@[3 * i] == #[trigger] stretched(gray)[i]
                    && rgb.pixels@[3 * i + 1] == stretched(gray)[i] && rgb.pixels@[3 * i + 2]
                    == stretched(gray)[i]),
{
    let gray = choose|gray: Seq<u8>| #[trigger]
        decodes_to(bytes, gray) && gray.len() == width * height && rgb.pixels@ == tripled(
            stretched(gray),
        );
    assert(stretched(gray).len() == gray.len());
    assert forall|i: int| 0 <= i < gray.len() implies rgb.pixels@[3 * i] == #[trigger] stretched(
        gray,
    )[i] && rgb.pixels@[3 * i + 1] == stretched(gray)[i] && rgb.pixels@[3 * i + 2] == stretched(
        gray,
    )[i] by {
        law_channels_are_the_grey_level(stretched(gray), i);
    }
}

/// A refusal names the failure first and ends with the text of the error.
pub proof fn law_refusal_is_told(message: Seq<char>, bytes: Seq<u8>)
    requires
        tells_refusal(message, bytes),
    ensures
        exists|text: Seq<char>| #[trigger]
            refused_with(bytes, text) && message == "解码 OCR 输入图片失败: "@ + text,
{
}

} // verus!
