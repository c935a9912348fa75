//! The calls into the `image` crate: cutting out a rectangle and turning a
//! buffer by quarter turns. Each function builds the crate's image over the
//! samples, makes the call, and hands the samples of the result back. The
//! contracts say what the crate's functions do; they are not proved here.

use vstd::prelude::*;
use image::{DynamicImage, GrayAlphaImage, GrayImage, RgbImage, RgbaImage};
use crate::raster::{as_view, PixelKind};

verus! {

/// `image::DynamicImage::crop_imm`: the rectangle is clipped to the buffer,
/// and the result holds at `(i, j)` the pixel that the buffer holds at
/// `(x + i, y + j)`.
#[verifier::external_body]
pub(crate) fn crop_samples(
    kind: PixelKind,
    width: u32,
    height: u32,
    data: &Vec<u8>,
    x: u32,
    y: u32,
    w: u32,
    h: u32,
) -> (out: Vec<u8>)
    requires
        as_view(kind, width, height, data@).wf(),
    ensures
        out@ == as_view(kind, width, height, data@).crop(x as nat, y as nat, w as nat, h as nat).samples,
{
    let img = match kind {
        PixelKind::Luma8 => DynamicImage::ImageLuma8(GrayImage::from_raw(width, height, data.clone()).unwrap()),
        PixelKind::LumaA8 => DynamicImage::ImageLumaA8(GrayAlphaImage::from_raw(width, height, data.clone()).unwrap()),
        PixelKind::Rgb8 => DynamicImage::ImageRgb8(RgbImage::from_raw(width, height, data.clone()).unwrap()),
        PixelKind::Rgba8 => DynamicImage::ImageRgba8(RgbaImage::from_raw(width, height, data.clone()).unwrap()),
    };
    img.crop_imm(x, y, w, h).into_bytes()
}

/// `image::DynamicImage::rotate90`: the result has the dimensions swapped, and
/// the pixel that the buffer holds at `(x, y)` stands at `(height - 1 - y, x)`.
#[verifier::external_body]
pub(crate) fn rotate90_samples(kind: PixelKind, width: u32, height: u32, data: &Vec<u8>) -> (out: Vec<u8>)
    requires
        as_view(kind, width, height, data@).wf(),
    ensures
        out@ == as_view(kind, width, height, data@).rotate90().samples,
{
    let img = match kind {
        PixelKind::Luma8 => DynamicImage::ImageLuma8(GrayImage::from_raw(width, height, data.clone()).unwrap()),
        PixelKind::LumaA8 => DynamicImage::ImageLumaA8(GrayAlphaImage::from_raw(width, height, data.clone()).unwrap()),
        PixelKind::Rgb8 => DynamicImage::ImageRgb8(RgbImage::from_raw(width, height, data.clone()).unwrap()),
        PixelKind::Rgba8 => DynamicImage::ImageRgba8(RgbaImage::from_raw(width, height, data.clone()).unwrap()),
    };
    img.rotate90().into_bytes()
}

/// `image::DynamicImage::rotate180`: the result has the same dimensions, and the
/// pixel that the buffer holds at `(x, y)` stands at
/// `(width - 1 - x, height - 1 - y)`.
#[verifier::external_body]
pub(crate) fn rotate180_samples(kind: PixelKind, width: u32, height: u32, data: &Vec<u8>) -> (out: Vec<u8>)
    requires
        as_view(kind, width, height, data@).wf(),
    ensures
        out@ == as_view(kind, width, height, data@).rotate180().samples,
{
    let img = match kind {
        PixelKind::Luma8 => DynamicImage::ImageLuma8(GrayImage::from_raw(width, height, data.clone()).unwrap()),
        PixelKind::LumaA8 => DynamicImage::ImageLumaA8(GrayAlphaImage::from_raw(width, height, data.clone()).unwrap()),
        PixelKind::Rgb8 => DynamicImage::ImageRgb8(RgbImage::from_raw(width, height, data.clone()).unwrap()),
        PixelKind::Rgba8 => DynamicImage::ImageRgba8(RgbaImage::from_raw(width, height, data.clone()).unwrap()),
    };
    img.rotate180().into_bytes()
}

/// `image::DynamicImage::rotate270`: the result has the dimensions swapped, and
/// the pixel that the buffer holds at `(x, y)` stands at `(y, width - 1 - x)`.
#[verifier::external_body]
pub(crate) fn rotate270_samples(kind: PixelKind, width: u32, height: u32, data: &Vec<u8>) -> (out: Vec<u8>)
    requires
        as_view(kind, width, height, data@).wf(),
    ensures
        out@ == as_view(kind, width, height, data@).rotate270().samples,
{
    let img = match kind {
        PixelKind::Luma8 => DynamicImage::ImageLuma8(GrayImage::from_raw(width, height, data.clone()).unwrap()),
        PixelKind::LumaA8 => DynamicImage::ImageLumaA8(GrayAlphaImage::from_raw(width, height, data.clone()).unwrap()),
        PixelKind::Rgb8 => DynamicImage::ImageRgb8(RgbImage::from_raw(width, height, data.clone()).unwrap()),
        PixelKind::Rgba8 => DynamicImage::ImageRgba8(RgbaImage::from_raw(width, height, data.clone()).unwrap()),
    };
    img.rotate270().into_bytes()
}

} // verus!
