//! Icon pipeline: validation and normalization of native icon payloads to
//! the RGBA8 raster model, and resizing to a configured target size.
//!
//! Native payloads arrive either as ARGB32 words (width/height header
//! followed by one word per pixel, alpha in the high byte) or as BGRA byte
//! quadruples; both are normalized to row-major RGBA8 with straight alpha.

use vstd::prelude::*;
use crate::config::IconConfig;
use crate::error::FerrousFocusError;

verus! {

/// An RGBA8 raster image: row-major, 8-bit channels, straight alpha.
/// Invariant (carried by the contracts): `pixels.len() == width * height * 4`.
#[derive(Debug)]
pub struct RasterImage {
    pub(crate) width: u32,
    pub(crate) height: u32,
    pub(crate) pixels: Vec<u8>,
}

/// Mathematical model of a raster: the dimensions plus the byte sequence.
#[verifier::ext_equal]
pub struct RasterView {
    pub width: u32,
    pub height: u32,
    pub pixels: Seq<u8>,
}

impl View for RasterImage {
    type V = RasterView;

    closed spec fn view(&self) -> RasterView {
        RasterView { width: self.width, height: self.height, pixels: self.pixels@ }
    }
}

/// Well-formedness: the buffer holds exactly `width * height` RGBA quadruples.
pub open spec fn raster_wf(v: RasterView) -> bool {
    v.pixels.len() == v.width as nat * v.height as nat * 4
}

/// Copy a byte buffer; the copy holds the same bytes.
fn clone_bytes(v: &Vec<u8>) -> (r: Vec<u8>)
    ensures
        r@ == v@,
{
    let r = v.clone();
    proof {
        assert forall|i: int| 0 <= i < v@.len() implies r@[i] == v@[i] by {
            assert(cloned::<u8>(v@[i], r@[i]));
        }
        assert(r@ =~= v@);
    }
    r
}

impl Clone for RasterImage {
    /// A clone models the same raster.
    fn clone(&self) -> (r: Self)
        ensures
            r@ == self@,
    {
        RasterImage { width: self.width, height: self.height, pixels: clone_bytes(&self.pixels) }
    }
}

impl RasterImage {
    /// Construct a raster from raw RGBA8 bytes; succeeds exactly when the
    /// buffer length matches the dimensions.
    pub fn from_raw(width: u32, height: u32, pixels: Vec<u8>) -> (r: Option<RasterImage>)
        ensures
            r is Some <==> pixels@.len() == width as nat * height as nat * 4,
            r matches Some(img) ==> img@ == (RasterView { width, height, pixels: pixels@ }),
            r matches Some(img) ==> raster_wf(img@),
    {
        proof {
            assert(width as nat * height as nat * 4 <= u128::MAX as nat) by (nonlinear_arith)
                requires
                    width <= u32::MAX,
                    height <= u32::MAX,
            ;
        }
        let expected: u128 = (width as u128) * (height as u128) * 4;
        if (pixels.len() as u128) == expected {
            Some(RasterImage { width, height, pixels })
        } else {
            None
        }
    }

    /// The width in pixels.
    pub fn width(&self) -> (r: u32)
        ensures
            r == self@.width,
    {
        self.width
    }

    /// The height in pixels.
    pub fn height(&self) -> (r: u32)
        ensures
            r == self@.height,
    {
        self.height
    }

    /// The underlying RGBA8 byte buffer.
    pub fn as_raw(&self) -> (r: &Vec<u8>)
        ensures
            r@ == self@.pixels,
    {
        &self.pixels
    }
}

/// Alpha channel of an ARGB32 word: the high byte.
pub open spec fn argb_alpha(w: u32) -> u8 {
    ((w >> 24) & 0xFF) as u8
}

/// Red channel of an ARGB32 word.
pub open spec fn argb_red(w: u32) -> u8 {
    ((w >> 16) & 0xFF) as u8
}

/// Green channel of an ARGB32 word.
pub open spec fn argb_green(w: u32) -> u8 {
    ((w >> 8) & 0xFF) as u8
}

/// Blue channel of an ARGB32 word: the low byte.
pub open spec fn argb_blue(w: u32) -> u8 {
    (w & 0xFF) as u8
}

/// A well-formed ARGB32 icon payload: a width/height header of nonzero
/// dimensions whose pixel count (and byte count) fits in `usize`, followed
/// by at least `width * height` pixel words.
pub open spec fn argb_payload_ok(words: Seq<u32>) -> bool {
    &&& words.len() >= 2
    &&& words[0] > 0
    &&& words[1] > 0
    &&& words[0] as nat * words[1] as nat <= usize::MAX as nat
    &&& words[0] as nat * words[1] as nat * 4 <= usize::MAX as nat
    &&& words.len() - 2 >= words[0] as nat * words[1] as nat
}

/// The RGBA8 bytes a well-formed ARGB32 payload converts to: pixel `p`
/// becomes the four bytes red, green, blue, alpha of word `words[2 + p]`.
pub open spec fn argb_pixel_bytes(words: Seq<u32>) -> Seq<u8> {
    Seq::new(
        words[0] as nat * words[1] as nat * 4,
        |i: int|
            {
                let w = words[2 + i / 4];
                if i % 4 == 0 {
                    argb_red(w)
                } else if i % 4 == 1 {
                    argb_green(w)
                } else if i % 4 == 2 {
                    argb_blue(w)
                } else {
                    argb_alpha(w)
                }
            },
    )
}

/// The raster a well-formed ARGB32 payload normalizes to.
pub open spec fn argb_raster(words: Seq<u32>) -> RasterView {
    RasterView { width: words[0], height: words[1], pixels: argb_pixel_bytes(words) }
}

/// Normalize an ARGB32 icon payload (`_NET_WM_ICON`-style: width, height,
/// then one word per pixel) to an RGBA8 raster. Succeeds exactly on
/// well-formed payloads; an empty payload means "no icon here"
/// (`Unsupported`), any other malformation is a data-integrity error
/// (`Platform`), never a panic.
pub fn icon_from_argb_words(words: &Vec<u32>) -> (r: Result<RasterImage, FerrousFocusError>)
    ensures
        r is Ok <==> argb_payload_ok(words@),
        r matches Ok(img) ==> img@ == argb_raster(words@) && raster_wf(img@),
        words@.len() == 0 ==> r matches Err(FerrousFocusError::Unsupported),
        !argb_payload_ok(words@) && words@.len() > 0 ==> r is Err && !(r->Err_0 is Unsupported)
            && r->Err_0 is Platform,
{
    if words.len() == 0 {
        return Err(FerrousFocusError::Unsupported);
    }
    if words.len() < 2 {
        return Err(
            FerrousFocusError::Platform("Invalid icon data: missing width/height".to_string()),
        );
    }
    let width = words[0];
    let height = words[1];
    if width == 0 || height == 0 {
        return Err(FerrousFocusError::Platform("Invalid icon dimensions".to_string()));
    }
    proof {
        assert(width as nat * height as nat * 4 <= u128::MAX as nat) by (nonlinear_arith)
            requires
                width <= u32::MAX,
                height <= u32::MAX,
        ;
    }
    let expected_wide: u128 = (width as u128) * (height as u128);
    if expected_wide > (usize::MAX as u128) || expected_wide * 4 > (usize::MAX as u128) {
        return Err(FerrousFocusError::Platform("Icon dimensions overflow".to_string()));
    }
    let expected: usize = expected_wide as usize;
    if words.len() - 2 < expected {
        return Err(
            FerrousFocusError::Platform(
                "Insufficient pixel data for the declared dimensions".to_string(),
            ),
        );
    }
    let mut pixels: Vec<u8> = Vec::new();
    let mut p: usize = 0;
    while p < expected
        invariant
            0 <= p <= expected,
            expected == words@[0] as nat * words@[1] as nat,
            expected * 4 <= usize::MAX as nat,
            words@.len() >= 2 + expected,
            width == words@[0],
            height == words@[1],
            argb_payload_ok(words@),
            pixels@.len() == 4 * p,
            forall|i: int|
                0 <= i < 4 * p ==> pixels@[i] == #[trigger] argb_pixel_bytes(words@)[i],
        decreases expected - p,
    {
        let word = words[2 + p];
        pixels.push(((word >> 16) & 0xFF) as u8);
        pixels.push(((word >> 8) & 0xFF) as u8);
        pixels.push((word & 0xFF) as u8);
        pixels.push(((word >> 24) & 0xFF) as u8);
        proof {
            assert forall|i: int| 0 <= i < 4 * (p + 1) implies pixels@[i]
                == #[trigger] argb_pixel_bytes(words@)[i] by {
                if i >= 4 * p {
                    assert(i / 4 == p);
                }
            }
        }
        p = p + 1;
    }
    proof {
        assert(pixels@ =~= argb_pixel_bytes(words@));
    }
    Ok(RasterImage { width, height, pixels })
}

/// The RGBA8 bytes a BGRA byte buffer converts to: within every quadruple
/// the first and third byte change places.
pub open spec fn bgra_swapped(bytes: Seq<u8>) -> Seq<u8> {
    Seq::new(
        bytes.len(),
        |i: int|
            if i % 4 == 0 {
                bytes[i + 2]
            } else if i % 4 == 2 {
                bytes[i - 2]
            } else {
                bytes[i]
            },
    )
}

/// Normalize a BGRA8 byte buffer (as read back from a native bitmap copy)
/// to RGBA8 by swapping the blue and red channel of every pixel.
pub fn bgra_to_rgba(bytes: &Vec<u8>) -> (r: Vec<u8>)
    requires
        bytes@.len() % 4 == 0,
    ensures
        r@ == bgra_swapped(bytes@),
{
    let n = bytes.len();
    let mut out: Vec<u8> = Vec::new();
    let mut p: usize = 0;
    while p * 4 < n
        invariant
            bytes@.len() == n,
            n % 4 == 0,
            0 <= p * 4 <= n + 3,
            out@.len() == 4 * p,
            forall|i: int| 0 <= i < 4 * p ==> out@[i] == #[trigger] bgra_swapped(bytes@)[i],
        decreases n - p * 4,
    {
        out.push(bytes[p * 4 + 2]);
        out.push(bytes[p * 4 + 1]);
        out.push(bytes[p * 4]);
        out.push(bytes[p * 4 + 3]);
        proof {
            assert forall|i: int| 0 <= i < 4 * (p + 1) implies out@[i]
                == #[trigger] bgra_swapped(bytes@)[i] by {
                if i >= 4 * p {
                    assert(i / 4 == p);
                }
            }
        }
        p = p + 1;
    }
    proof {
        assert(out@ =~= bgra_swapped(bytes@));
    }
    out
}

/// Relies on `image::imageops::resize` with `FilterType::Lanczos3` (and on
/// `image::RgbaImage::from_raw` / `into_raw` to move the bytes in and out):
/// resampling an RGBA8 image of the given dimensions to `target x target`
/// yields an RGBA8 buffer of exactly `target * target` pixels.
#[verifier::external_body]
fn resample_rgba(pixels: &Vec<u8>, width: u32, height: u32, target: u32) -> (r: Vec<u8>)
    requires
        pixels@.len() == width as nat * height as nat * 4,
        0 < width,
        0 < height,
        0 < target <= 512,
    ensures
        r@.len() == target as nat * target as nat * 4,
{
    let img = image::RgbaImage::from_raw(width, height, pixels.clone())
        .expect("buffer length matches the dimensions");
    image::imageops::resize(&img, target, target, image::imageops::FilterType::Lanczos3).into_raw()
}

/// Resize a raster to `target_size x target_size` with a Lanczos-class
/// filter. A raster already at the target size is returned unchanged —
/// byte-identical, no resampling artifacts.
pub fn resize_icon(image: RasterImage, target_size: u32) -> (r: RasterImage)
    requires
        raster_wf(image@),
        0 < image@.width,
        0 < image@.height,
        0 < target_size <= 512,
    ensures
        raster_wf(r@),
        r@.width == target_size,
        r@.height == target_size,
        image@.width == target_size && image@.height == target_size ==> r@ == image@,
{
    if image.width() == target_size && image.height() == target_size {
        return image;
    }
    let pixels = resample_rgba(&image.pixels, image.width, image.height, target_size);
    RasterImage { width: target_size, height: target_size, pixels }
}

/// The raster that a well-formed ARGB32 payload yields under the given icon
/// configuration: the normalized raster, resized to the configured target
/// size when one is set and the raster is not already that size.
pub open spec fn processed_ok(words: Seq<u32>, cfg: IconConfig, v: RasterView) -> bool {
    let parsed = argb_raster(words);
    match cfg.size {
        None => v == parsed,
        Some(t) => {
            &&& v.width == t
            &&& v.height == t
            &&& raster_wf(v)
            &&& (parsed.width == t && parsed.height == t ==> v == parsed)
        },
    }
}

/// Normalize an ARGB32 icon payload and apply the configured resize: the
/// whole in-memory part of the icon acquisition for one window.
pub fn process_icon(words: &Vec<u32>, icon_config: &IconConfig) -> (r: Result<
    RasterImage,
    FerrousFocusError,
>)
    requires
        crate::config::icon_config_wf(*icon_config),
    ensures
        r is Ok <==> argb_payload_ok(words@),
        r matches Ok(img) ==> processed_ok(words@, *icon_config, img@) && raster_wf(img@),
        words@.len() == 0 ==> r matches Err(FerrousFocusError::Unsupported),
        !argb_payload_ok(words@) && words@.len() > 0 ==> r is Err && r->Err_0 is Platform,
{
    let img = icon_from_argb_words(words)?;
    match icon_config.size {
        Some(target) => Ok(resize_icon(img, target)),
        None => Ok(img),
    }
}

} // verus!
