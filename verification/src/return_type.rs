//! How written tiles are encoded.

use vstd::prelude::*;
use vstd::arithmetic::div_mod::lemma_fundamental_div_mod_converse;
use crate::raster::{Raster, RasterView};

verus! {

/// The raster encodings that a tile file can have.
#[derive(Clone, Copy, Debug, PartialEq, Eq, Structural)]
pub enum RasterFormat {
    Png,
    Jpeg,
    Bmp,
    Tiff,
    /// Any other encoding; its files get no extension.
    Other,
}

/// The order of the samples in a raw binary tile.
#[derive(Clone, Copy, Debug, PartialEq, Eq, Structural)]
pub enum ImgLayout {
    /// One plane per channel.
    ColorChannel,
    /// The channels of one pixel side by side.
    HumanReadable,
}

/// The output format: raw binary in batches, or an encoded raster.
#[derive(Clone, Copy, Debug, PartialEq, Eq, Structural)]
pub enum ImgFormat {
    Binary { batch_size: usize },
    Img(RasterFormat),
}

impl ImgFormat {
    /// The file extension of the format, dot included; empty for raw binary
    /// and for encodings without a known extension.
    pub open spec fn extension(self) -> Seq<char> {
        match self {
            ImgFormat::Img(RasterFormat::Png) => seq!['.', 'p', 'n', 'g'],
            ImgFormat::Img(RasterFormat::Jpeg) => seq!['.', 'j', 'p', 'g'],
            ImgFormat::Img(RasterFormat::Bmp) => seq!['.', 'b', 'm', 'p'],
            ImgFormat::Img(RasterFormat::Tiff) => seq!['.', 't', 'i', 'f'],
            _ => Seq::empty(),
        }
    }

    pub fn extension_str(&self) -> (ext: &'static str)
        ensures
            ext@ == self.extension(),
    {
        proof {
            reveal_strlit(".png");
            reveal_strlit(".jpg");
            reveal_strlit(".bmp");
            reveal_strlit(".tif");
            reveal_strlit("");
        }
        let ext = match self {
            ImgFormat::Img(RasterFormat::Png) => ".png",
            ImgFormat::Img(RasterFormat::Jpeg) => ".jpg",
            ImgFormat::Img(RasterFormat::Bmp) => ".bmp",
            ImgFormat::Img(RasterFormat::Tiff) => ".tif",
            _ => "",
        };
        ext
    }
}

/// A sample order together with an output format.
#[derive(Clone, Copy, Debug)]
pub struct ReturnType {
    layout: ImgLayout,
    format: ImgFormat,
}

impl ReturnType {
    pub closed spec fn spec_layout(self) -> ImgLayout {
        self.layout
    }

    pub closed spec fn spec_format(self) -> ImgFormat {
        self.format
    }

    pub fn new(layout: ImgLayout, format: ImgFormat) -> (made: ReturnType)
        ensures
            made.spec_layout() == layout,
            made.spec_format() == format,
    {
        ReturnType { layout, format }
    }

    pub fn get_format(&self) -> (format: &ImgFormat)
        ensures
            *format == self.spec_format(),
    {
        &self.format
    }

    pub fn get_layout(&self) -> (layout: &ImgLayout)
        ensures
            *layout == self.spec_layout(),
    {
        &self.layout
    }
}

/// The samples of a raster plane by plane: first the first channel of
/// every pixel, then the second channel of every pixel, and so on.
pub open spec fn planar(v: RasterView) -> Seq<u8> {
    Seq::new(
        v.samples.len(),
        |i: int|
            v.samples[(i % (v.pixel_count() as int)) * v.kind.channel_count() + i / (
            v.pixel_count() as int)],
    )
}

/// The samples of a raster in the order of a layout.
pub open spec fn encoded(v: RasterView, layout: ImgLayout) -> Seq<u8> {
    match layout {
        ImgLayout::ColorChannel => planar(v),
        ImgLayout::HumanReadable => v.samples,
    }
}

/// The samples of a raster in the order of a layout: plane by plane for
/// `ColorChannel`, pixel by pixel for `HumanReadable`.
pub fn encode_samples(raster: &Raster, layout: ImgLayout) -> (out: Vec<u8>)
    ensures
        out@ == encoded(raster@, layout),
{
    let data = raster.samples();
    match layout {
        ImgLayout::HumanReadable => {
            let out = data.clone();
            out
        },
        ImgLayout::ColorChannel => {
            let total = raster.pixel_count();
            let channels = raster.kind().channels();
            let len = data.len();
            let ghost goal = planar(raster@);
            let mut out: Vec<u8> = Vec::new();
            let mut c: usize = 0;
            while c < channels
                invariant
                    c <= channels,
                    len == data@.len(),
                    data@ == raster@.samples,
                    raster@.wf(),
                    total == raster@.pixel_count(),
                    channels == raster@.kind.channel_count(),
                    goal == planar(raster@),
                    out@ == goal.take(c * total),
                decreases channels - c,
            {
                proof {
                    assert(0 <= c * total && c * total + total <= channels * total)
                        by (nonlinear_arith)
                        requires
                            0 <= c < channels,
                            0 <= total,
                    ;
                }
                let mut p: usize = 0;
                while p < total
                    invariant
                        p <= total,
                        c < channels,
                        len == data@.len(),
                        data@ == raster@.samples,
                        raster@.wf(),
                        total == raster@.pixel_count(),
                        channels == raster@.kind.channel_count(),
                        goal == planar(raster@),
                        0 <= c * total,
                        c * total + total <= len,
                        out@ == goal.take(c * total + p),
                    decreases total - p,
                {
                    proof {
                        assert(0 <= p * channels && p * channels + channels <= total * channels)
                            by (nonlinear_arith)
                            requires
                                0 <= p < total,
                                0 <= channels,
                        ;
                        lemma_fundamental_div_mod_converse(
                            c * total + p,
                            total as int,
                            c as int,
                            p as int,
                        );
                        assert(goal.take(c * total + p + 1) =~= goal.take(c * total + p).push(
                            goal[c * total + p],
                        ));
                    }
                    out.push(data[p * channels + c]);
                    p = p + 1;
                }
                c = c + 1;
                proof {
                    assert((c - 1) * total + total == c * total) by (nonlinear_arith);
                }
            }
            proof {
                assert(channels * total == total * channels) by (nonlinear_arith);
            }
            out
        },
    }
}

} // verus!
