//! Building a tile: cropping an image pair at a corner, rejecting crops of
//! low quality, and labelling what is left.

use vstd::prelude::*;
use crate::augment_split::{AugmentSplit, ConfigView};
use crate::classifier::{policy_of, FindLabel};
use crate::color_analysis::color_count;
use crate::color_values::ColorValues;
use crate::img_reader::{ImagePair, PairView};
use crate::label::Label;
use crate::raster::{Raster, RasterView};
use crate::ratio::Ratio;
use crate::split_image::{view_of_tile, SplitImage, TileView};

verus! {

/// The colour of the scanner background where none is configured.
pub open spec fn black() -> ColorValues {
    ColorValues::RGB([0u8, 0u8, 0u8])
}

/// The colour of the foreground of a mask.
pub open spec fn white() -> ColorValues {
    ColorValues::LUMA([255u8])
}

/// The colour whose share decides whether a crop is rejected.
pub open spec fn barrier_color(cfg: ConfigView) -> ColorValues {
    match cfg.discard_barrier {
        Some((c, _)) => ColorValues::RGB(c),
        None => black(),
    }
}

/// The share of the barrier colour above which a crop is rejected: the
/// configured one, or one fifth.
pub open spec fn barrier_share(cfg: ConfigView) -> Ratio {
    match cfg.discard_barrier {
        Some((_, share)) => share,
        None => Ratio::of(1, 5),
    }
}

/// Whether `n` of `total` pixels are a share of at most `share`.
pub open spec fn share_at_most(n: nat, total: nat, share: Ratio) -> bool {
    n * share.spec_den() <= share.spec_num() * total
}

/// The size of the tiles cut from an image: the configured one, or the
/// whole image.
pub open spec fn tile_size(cfg: ConfigView, image: RasterView) -> (u32, u32) {
    match cfg.split_size {
        Some(size) => size,
        None => (image.width as u32, image.height as u32),
    }
}

/// The tile of an image pair whose corner is at `(x, y)`, or nothing where
/// it is rejected. A tile is rejected where the crop is smaller than the
/// tile size or empty, where the barrier colour cannot be counted in the
/// real crop or covers more than the barrier share of it, where the
/// foreground cannot be counted in the mask crop, and where the policy
/// gives the foreground share no label.
pub open spec fn tile_at(
    cfg: ConfigView,
    pair: PairView,
    decide: spec_fn(Ratio) -> Option<Label>,
    x: u32,
    y: u32,
) -> Option<TileView> {
    let size = tile_size(cfg, pair.real);
    let real_crop = pair.real.crop(x as nat, y as nat, size.0 as nat, size.1 as nat);
    let mask_crop = pair.mask.crop(x as nat, y as nat, size.0 as nat, size.1 as nat);
    let pixels = size.0 * size.1;
    if real_crop.width != size.0 || real_crop.height != size.1 || pixels == 0 {
        None
    } else {
        match color_count(real_crop, barrier_color(cfg)) {
            Err(_) => None,
            Ok(background) => if !share_at_most(background, pixels as nat, barrier_share(cfg)) {
                None
            } else {
                match color_count(mask_crop, white()) {
                    Err(_) => None,
                    Ok(foreground) => match decide(Ratio::of(foreground as u64, pixels as u64)) {
                        None => None,
                        Some(label) => Some(
                            TileView {
                                source: pair.name,
                                real: Some(real_crop),
                                mask: Some(mask_crop),
                                label: Some(label),
                                dimension: size,
                                rotation: 0,
                                x_offset: x,
                                y_offset: y,
                            },
                        ),
                    },
                }
            },
        }
    }
}

impl AugmentSplit {
    /// The size of the tiles cut from `image`.
    pub fn tile_size_for(&self, image: &Raster) -> (size: (u32, u32))
        ensures
            size == tile_size(self@, image@),
    {
        match self.split_size() {
            Some(size) => size,
            None => image.dimensions(),
        }
    }

    /// The colour and share of the quality gate.
    pub fn barrier(&self) -> (barrier: (ColorValues, Ratio))
        ensures
            barrier.0 == barrier_color(self@),
            barrier.1 == barrier_share(self@),
    {
        match self.get_discard_barrier() {
            Some((c, share)) => (ColorValues::RGB(c), share),
            None => {
                let made = Ratio::new(1, 5);
                let color = ColorValues::black_rgb();
                proof {
                    color.lemma_channels_decide(black());
                }
                (color, made.unwrap())
            },
        }
    }

    /// Builds the tile of `pair` whose corner is at `(x, y)`: crops both
    /// images, runs the quality gate on the real crop, and asks `label_fn`
    /// for the label of the mask crop's foreground share. Returns nothing
    /// where the tile is rejected.
    pub fn tile_at<T: FindLabel>(&self, pair: &ImagePair, label_fn: &mut T, x: u32, y: u32) -> (tile:
        Option<SplitImage>)
        ensures
            view_of_tile(tile) == tile_at(self@, pair@, policy_of(*old(label_fn)), x, y),
            policy_of(*final(label_fn)) == policy_of(*old(label_fn)),
    {
        broadcast use Ratio::lemma_of;

        let size = self.tile_size_for(&pair.real);
        let real_crop = pair.real.crop(x, y, size.0, size.1);
        let mask_crop = pair.mask.crop(x, y, size.0, size.1);
        proof {
            assert(0 <= (size.0 as int) * (size.1 as int) <= 0xffff_ffff * 0xffff_ffff)
                by (nonlinear_arith)
                requires
                    0 <= size.0 <= 0xffff_ffff,
                    0 <= size.1 <= 0xffff_ffff,
            ;
        }
        let pixels: u64 = (size.0 as u64) * (size.1 as u64);
        let dims = real_crop.dimensions();
        if dims.0 != size.0 || dims.1 != size.1 || pixels == 0 {
            return None;
        }
        let (color, share) = self.barrier();
        let background = match AugmentSplit::get_color(color, &real_crop) {
            Ok((_, n)) => n,
            Err(_) => {
                return None;
            },
        };
        let share_num = share.num();
        let share_den = share.den();
        proof {
            crate::ratio::lemma_product_fits(background as u64, share_den);
            crate::ratio::lemma_product_fits(share_num, pixels);
        }
        let within = (background as u128) * (share_den as u128) <= (share_num as u128) * (
        pixels as u128);
        if !within {
            return None;
        }
        let white_luma = ColorValues::white_luma();
        proof {
            assert(white().channels() =~= seq![255u8]);
            white_luma.lemma_channels_decide(white());
        }
        let foreground = match AugmentSplit::get_color(white_luma, &mask_crop) {
            Ok((_, n)) => n,
            Err(_) => {
                return None;
            },
        };
        let ratio = Ratio::new(foreground as u64, pixels).unwrap();
        let label = label_fn.label(ratio);
        match label {
            Some(label) => Some(
                SplitImage::new(&pair.name, real_crop, mask_crop, label, size, 0, x, y),
            ),
            None => None,
        }
    }
}

} // verus!
