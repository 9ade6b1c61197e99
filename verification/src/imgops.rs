//! The trusted boundary around the image crate: the decoded-image type,
//! names for what its pure transforms return, and one wrapper per call
//! the pipeline makes. Everything the contracts say about an image goes
//! through its dimensions, its color type, and its raw pixel bytes: the
//! raw bytes alone do not determine how a transform interprets them (two
//! color types can share a byte layout), so the color type stands beside
//! the pixels in every name.

use vstd::prelude::*;
use crate::filter::FilterKind;
use image::DynamicImage;

verus! {

#[verifier::external_type_specification]
#[verifier::external_body]
pub struct ExDynamicImage(DynamicImage);

/// The raw pixel bytes of a decoded image, as its buffer holds them.
pub uninterp spec fn img_pixels(img: DynamicImage) -> Seq<u8>;

/// The width of a decoded image, in pixels.
pub uninterp spec fn img_width(img: DynamicImage) -> u32;

/// The height of a decoded image, in pixels.
pub uninterp spec fn img_height(img: DynamicImage) -> u32;

/// A discriminant of a decoded image's color type: which of the crate's
/// pixel representations the raw bytes are read as. Every transform the
/// pipeline calls keeps it unchanged.
pub uninterp spec fn img_color(img: DynamicImage) -> int;

/// What an aspect-preserving resize returns as dimensions where the
/// requested ratio is not exact: the crate's rounding of the largest fit
/// within the bounds, a function of the dimensions alone.
pub uninterp spec fn resize_fit_dims(w: u32, h: u32, nw: u32, nh: u32) -> (u32, u32);

/// The dimensions of an aspect-preserving fit into `(nw, nh)`. Where one
/// bound is free and the other scales the source by an exact ratio, the
/// result is that exact scaling; everywhere else, the crate's rounding,
/// named.
pub open spec fn spec_fit_dims(ow: u32, oh: u32, nw: u32, nh: u32) -> (u32, u32) {
    if nh == u32::MAX && 0 < ow && 0 < oh && (nw * oh) % (ow as int) == 0 && 1 <= (nw * oh) / (
    ow as int) <= u32::MAX {
        (nw, ((nw * oh) / (ow as int)) as u32)
    } else if nw == u32::MAX && 0 < ow && 0 < oh && (nh * ow) % (oh as int) == 0 && 1 <= (nh * ow)
        / (oh as int) <= u32::MAX {
        (((nh * ow) / (oh as int)) as u32, nh)
    } else {
        resize_fit_dims(ow, oh, nw, nh)
    }
}

/// What an aspect-preserving resize returns for its pixels, a function of
/// the source pixels, its dimensions, its color type, the bounds and the
/// filter alone.
pub uninterp spec fn resize_fit_pixels(
    pixels: Seq<u8>,
    w: u32,
    h: u32,
    color: int,
    nw: u32,
    nh: u32,
    f: FilterKind,
) -> Seq<u8>;

/// What an exact resize returns for its pixels, a function of the source
/// pixels, its dimensions, its color type, the target dimensions and the
/// filter alone.
pub uninterp spec fn resize_exact_pixels(
    pixels: Seq<u8>,
    w: u32,
    h: u32,
    color: int,
    nw: u32,
    nh: u32,
    f: FilterKind,
) -> Seq<u8>;

/// What a crop returns for its pixels: the rectangle's cut-out, a
/// function of the source pixels, its dimensions and the rectangle alone
/// (whole pixels move uninterpreted, so no color type is needed).
pub uninterp spec fn crop_pixels(
    pixels: Seq<u8>,
    w: u32,
    h: u32,
    x: u32,
    y: u32,
    cw: u32,
    ch: u32,
) -> Seq<u8>;

/// What a Gaussian blur returns for its pixels, a function of the source
/// pixels, its dimensions, its color type and the level alone.
pub uninterp spec fn blur_pixels(pixels: Seq<u8>, w: u32, h: u32, color: int, level: u32) -> Seq<
    u8,
>;

/// Relies on image's `DynamicImage::width`: the width of the image.
#[verifier::external_body]
pub(crate) fn img_w(img: &DynamicImage) -> (r: u32)
    ensures
        r == img_width(*img),
{
    img.width()
}

/// Relies on image's `DynamicImage::height`: the height of the image.
#[verifier::external_body]
pub(crate) fn img_h(img: &DynamicImage) -> (r: u32)
    ensures
        r == img_height(*img),
{
    img.height()
}

/// Relies on image's `DynamicImage::as_bytes`: the image's raw pixel
/// buffer as one byte slice.
#[verifier::external_body]
pub(crate) fn raw_pixel_bytes(img: &DynamicImage) -> (r: Vec<u8>)
    ensures
        r@ == img_pixels(*img),
{
    img.as_bytes().to_vec()
}

/// Relies on image's `DynamicImage::resize`: an aspect-preserving scale
/// into the bounds, keeping the color type. The dimensions follow the
/// crate's fit rounding, which is the requested exact scaling whenever
/// one bound is free and the ratio divides exactly; bounds equal to the
/// image's own dimensions return the image unchanged.
#[verifier::external_body]
pub(crate) fn do_resize_fit(img: &DynamicImage, nw: u32, nh: u32, f: FilterKind) -> (r:
    DynamicImage)
    ensures
        (img_width(r), img_height(r)) == resize_fit_dims(
            img_width(*img),
            img_height(*img),
            nw,
            nh,
        ),
        (img_width(r), img_height(r)) == spec_fit_dims(img_width(*img), img_height(*img), nw, nh),
        img_pixels(r) == resize_fit_pixels(
            img_pixels(*img),
            img_width(*img),
            img_height(*img),
            img_color(*img),
            nw,
            nh,
            f,
        ),
        img_color(r) == img_color(*img),
        nw == img_width(*img) && nh == img_height(*img) ==> img_pixels(r) == img_pixels(*img),
{
    let ft = match f {
        FilterKind::Nearest => image::imageops::FilterType::Nearest,
        FilterKind::Gaussian => image::imageops::FilterType::Gaussian,
        FilterKind::CatmullRom => image::imageops::FilterType::CatmullRom,
        FilterKind::Lanczos3 => image::imageops::FilterType::Lanczos3,
        FilterKind::Triangle => image::imageops::FilterType::Triangle,
    };
    img.resize(nw, nh, ft)
}

/// Relies on image's `DynamicImage::resize_exact`: the result has exactly
/// the requested dimensions and keeps the color type; the pixels are a
/// function of the inputs alone.
#[verifier::external_body]
pub(crate) fn do_resize_exact(img: &DynamicImage, nw: u32, nh: u32, f: FilterKind) -> (r:
    DynamicImage)
    ensures
        img_width(r) == nw,
        img_height(r) == nh,
        img_pixels(r) == resize_exact_pixels(
            img_pixels(*img),
            img_width(*img),
            img_height(*img),
            img_color(*img),
            nw,
            nh,
            f,
        ),
        img_color(r) == img_color(*img),
{
    let ft = match f {
        FilterKind::Nearest => image::imageops::FilterType::Nearest,
        FilterKind::Gaussian => image::imageops::FilterType::Gaussian,
        FilterKind::CatmullRom => image::imageops::FilterType::CatmullRom,
        FilterKind::Lanczos3 => image::imageops::FilterType::Lanczos3,
        FilterKind::Triangle => image::imageops::FilterType::Triangle,
    };
    img.resize_exact(nw, nh, ft)
}

/// Relies on image's `DynamicImage::crop_imm`: a rectangle that lies
/// within the image is cut out as it stands, with exactly its own
/// dimensions and the same color type; the pixels are a function of the
/// inputs alone.
#[verifier::external_body]
pub(crate) fn do_crop(img: &DynamicImage, x: u32, y: u32, cw: u32, ch: u32) -> (r: DynamicImage)
    requires
        x + cw <= img_width(*img),
        y + ch <= img_height(*img),
    ensures
        img_width(r) == cw,
        img_height(r) == ch,
        img_pixels(r) == crop_pixels(
            img_pixels(*img),
            img_width(*img),
            img_height(*img),
            x,
            y,
            cw,
            ch,
        ),
        img_color(r) == img_color(*img),
{
    img.crop_imm(x, y, cw, ch)
}

/// Relies on image's `DynamicImage::blur`: a Gaussian blur keeps the
/// image's dimensions and color type; the pixels are a function of the
/// image and the level alone. The crate's blur filter reads the first and
/// last row and column unconditionally and cannot take an image with a
/// zero dimension, so the wrapper demands both dimensions positive.
#[verifier::external_body]
pub(crate) fn do_blur(img: &DynamicImage, level: u32) -> (r: DynamicImage)
    requires
        0 < img_width(*img),
        0 < img_height(*img),
    ensures
        img_width(r) == img_width(*img),
        img_height(r) == img_height(*img),
        img_pixels(r) == blur_pixels(
            img_pixels(*img),
            img_width(*img),
            img_height(*img),
            img_color(*img),
            level,
        ),
        img_color(r) == img_color(*img),
{
    img.blur(level as _)
}

/// The dimensions of a decoded image, width then height.
pub fn image_size(img: &DynamicImage) -> (r: (u32, u32))
    ensures
        r.0 == img_width(*img),
        r.1 == img_height(*img),
{
    (img_w(img), img_h(img))
}

/// The raw pixel bytes of a decoded image; two images are pixel-identical
/// exactly when these are equal.
pub fn pixel_bytes(img: &DynamicImage) -> (r: Vec<u8>)
    ensures
        r@ == img_pixels(*img),
{
    raw_pixel_bytes(img)
}

} // verus!
