//! The two runs: the grid scan over every image pair, and biased sampling
//! over every image pair.

use vstd::prelude::*;
use crate::augment_split::{AugmentSplit, ConfigView};
use crate::classifier::{policy_of, FindLabel};
use crate::color_values::ColorValues;
use crate::grid::{grid_coords, grid_scan};
use crate::img_reader::{pair_views, ImagePair, ImgReader, PairView};
use crate::label::Label;
use crate::output::{emitted_files, manifest_for, manifest_of, views, TileFile, TileFileView};
use crate::ratio::Ratio;
use crate::sampling::{can_sample, oversample_points, sampled_points};
use crate::seeds::{derive_seed, mix, OVERSAMPLE_SEED, SPLIT_SEED};
use crate::tile_builder::{tile_at, tile_size};

verus! {

/// What a run produces: the tile files in the order in which they are to
/// be written, and the text to append to the manifest.
#[derive(Debug)]
pub struct RunOutput {
    pub files: Vec<TileFile>,
    pub manifest: String,
}

/// The seed of a run: the configured one, or the run's default.
pub open spec fn run_seed(cfg: ConfigView, default: u64) -> u64 {
    match cfg.seed {
        Some(seed) => seed,
        None => default,
    }
}

/// The files that the candidate tile at `corner` gives rise to: none where
/// the tile is rejected.
pub open spec fn candidate_files(
    cfg: ConfigView,
    pair: PairView,
    decide: spec_fn(Ratio) -> Option<Label>,
    corner: (u32, u32),
    seed: u64,
) -> Seq<TileFileView> {
    match tile_at(cfg, pair, decide, corner.0, corner.1) {
        Some(tile) => emitted_files(cfg, tile, seed),
        None => Seq::empty(),
    }
}

/// The files of the candidate tiles of one pair at `corners`, in their
/// order. The `j`-th candidate draws with the seed derived from
/// `pair_seed` for `j`.
pub open spec fn pair_files(
    cfg: ConfigView,
    pair: PairView,
    decide: spec_fn(Ratio) -> Option<Label>,
    corners: Seq<(u32, u32)>,
    pair_seed: u64,
) -> Seq<TileFileView>
    decreases corners.len(),
{
    if corners.len() == 0 {
        Seq::empty()
    } else {
        pair_files(cfg, pair, decide, corners.drop_last(), pair_seed) + candidate_files(
            cfg,
            pair,
            decide,
            corners.last(),
            mix(pair_seed, (corners.len() - 1) as u64),
        )
    }
}

/// The corners of the grid scan over the real image of a pair.
pub open spec fn grid_for(cfg: ConfigView, pair: PairView) -> Seq<(u32, u32)> {
    grid_coords(
        pair.real.width as u32,
        pair.real.height as u32,
        tile_size(cfg, pair.real).0,
        tile_size(cfg, pair.real).1,
        cfg.stride_x(),
        cfg.stride_y(),
    )
}

/// The corners that biased sampling draws for a pair: none where points
/// cannot be drawn from its mask.
pub open spec fn sample_for(
    pair: PairView,
    color: ColorValues,
    multiplier: Ratio,
    pair_seed: u64,
) -> Seq<(u32, u32)> {
    if can_sample(pair.mask, color) {
        sampled_points(pair.mask, color, multiplier, pair_seed)
    } else {
        Seq::empty()
    }
}

/// The files of a grid scan over `pairs`, pair after pair. The `i`-th pair
/// works with the seed derived from `seed` for `i`.
pub open spec fn split_files(
    cfg: ConfigView,
    pairs: Seq<PairView>,
    decide: spec_fn(Ratio) -> Option<Label>,
    seed: u64,
) -> Seq<TileFileView>
    decreases pairs.len(),
{
    if pairs.len() == 0 {
        Seq::empty()
    } else {
        split_files(cfg, pairs.drop_last(), decide, seed) + pair_files(
            cfg,
            pairs.last(),
            decide,
            grid_for(cfg, pairs.last()),
            mix(seed, (pairs.len() - 1) as u64),
        )
    }
}

/// The files of biased sampling over `pairs`, pair after pair. The `i`-th
/// pair samples and draws with the seed derived from `seed` for `i`.
pub open spec fn oversample_files(
    cfg: ConfigView,
    pairs: Seq<PairView>,
    decide: spec_fn(Ratio) -> Option<Label>,
    color: ColorValues,
    multiplier: Ratio,
    seed: u64,
) -> Seq<TileFileView>
    decreases pairs.len(),
{
    if pairs.len() == 0 {
        Seq::empty()
    } else {
        oversample_files(cfg, pairs.drop_last(), decide, color, multiplier, seed) + pair_files(
            cfg,
            pairs.last(),
            decide,
            sample_for(pairs.last(), color, multiplier, mix(seed, (pairs.len() - 1) as u64)),
            mix(seed, (pairs.len() - 1) as u64),
        )
    }
}

impl AugmentSplit {
    /// The seed of a run.
    pub fn seed_or(&self, default: u64) -> (seed: u64)
        ensures
            seed == run_seed(self@, default),
    {
        match self.get_seed() {
            Some(seed) => seed,
            None => default,
        }
    }

    /// Appends the files of the candidate tiles of `pair` at `corners`.
    pub fn pair_tiles<T: FindLabel>(
        &self,
        pair: &ImagePair,
        label_fn: &mut T,
        corners: &Vec<(u32, u32)>,
        pair_seed: u64,
        files: &mut Vec<TileFile>,
    )
        ensures
            views(final(files)@) == views(old(files)@) + pair_files(
                self@,
                pair@,
                policy_of(*old(label_fn)),
                corners@,
                pair_seed,
            ),
            policy_of(*final(label_fn)) == policy_of(*old(label_fn)),
    {
        let ghost start = views(files@);
        let ghost decide = policy_of(*label_fn);
        let mut j: usize = 0;
        assert(views(files@) =~= start + pair_files(
            self@,
            pair@,
            decide,
            corners@.take(0),
            pair_seed,
        ));
        while j < corners.len()
            invariant
                j <= corners@.len(),
                policy_of(*label_fn) == decide,
                views(files@) == start + pair_files(
                    self@,
                    pair@,
                    decide,
                    corners@.take(j as int),
                    pair_seed,
                ),
            decreases corners@.len() - j,
        {
            let ghost before = views(files@);
            let corner = corners[j];
            let seed = derive_seed(pair_seed, j as u64);
            match self.tile_at(pair, label_fn, corner.0, corner.1) {
                Some(tile) => {
                    self.save(tile, seed, files);
                },
                None => {},
            }
            proof {
                let next = corners@.take(j + 1);
                assert(next.drop_last() =~= corners@.take(j as int));
                assert(views(files@) =~= before + candidate_files(
                    self@,
                    pair@,
                    decide,
                    corner,
                    seed,
                ));
            }
            j = j + 1;
        }
        assert(corners@.take(corners@.len() as int) =~= corners@);
    }

    /// Appends the files of the grid scan over one pair, the `index`-th of
    /// a run with seed `seed`.
    pub fn split_pair<T: FindLabel>(
        &self,
        pair: &ImagePair,
        index: usize,
        seed: u64,
        label_fn: &mut T,
        files: &mut Vec<TileFile>,
    )
        ensures
            views(final(files)@) == views(old(files)@) + pair_files(
                self@,
                pair@,
                policy_of(*old(label_fn)),
                grid_for(self@, pair@),
                mix(seed, index as u64),
            ),
            policy_of(*final(label_fn)) == policy_of(*old(label_fn)),
    {
        let size = self.tile_size_for(&pair.real);
        let strides = self.strides();
        let (width, height) = pair.real.dimensions();
        let corners = grid_scan(width, height, size.0, size.1, strides.0, strides.1);
        let pair_seed = derive_seed(seed, index as u64);
        self.pair_tiles(pair, label_fn, &corners, pair_seed, files);
    }

    /// Appends the files of biased sampling over one pair, the `index`-th
    /// of a run with seed `seed`.
    pub fn oversample_pair<T: FindLabel>(
        &self,
        pair: &ImagePair,
        index: usize,
        seed: u64,
        sample_mpy: &Ratio,
        cv: &ColorValues,
        label_fn: &mut T,
        files: &mut Vec<TileFile>,
    )
        ensures
            views(final(files)@) == views(old(files)@) + pair_files(
                self@,
                pair@,
                policy_of(*old(label_fn)),
                sample_for(pair@, *cv, *sample_mpy, mix(seed, index as u64)),
                mix(seed, index as u64),
            ),
            policy_of(*final(label_fn)) == policy_of(*old(label_fn)),
    {
        let pair_seed = derive_seed(seed, index as u64);
        let corners = match oversample_points(&pair.mask, cv, sample_mpy, pair_seed) {
            Some(points) => points,
            None => Vec::new(),
        };
        self.pair_tiles(pair, label_fn, &corners, pair_seed, files);
    }

    /// The grid scan over every image pair. Each pair is cut along the
    /// grid of the configured tile size and strides; each crop passes the
    /// quality gate and the policy `label_fn` or is dropped; each accepted
    /// tile is emitted with its rotated variants. The manifest holds one
    /// line for each real tile, in the order of the files. The files are a
    /// function of the configuration, the pairs, the policy and the seed:
    /// a second run over the same input gives the same output.
    pub fn split<T: FindLabel>(&self, img_reader: &ImgReader, label_fn: &mut T) -> (out: RunOutput)
        ensures
            views(out.files@) == split_files(
                self@,
                img_reader.spec_pairs(),
                policy_of(*old(label_fn)),
                run_seed(self@, SPLIT_SEED),
            ),
            out.manifest@ == manifest_of(views(out.files@)),
            policy_of(*final(label_fn)) == policy_of(*old(label_fn)),
    {
        let seed = self.seed_or(SPLIT_SEED);
        let ghost decide = policy_of(*label_fn);
        let list = img_reader.pairs();
        let ghost pairs = pair_views(list@);
        let mut files: Vec<TileFile> = Vec::new();
        let mut i: usize = 0;
        while i < list.len()
            invariant
                i <= list@.len(),
                pairs == pair_views(list@),
                policy_of(*label_fn) == decide,
                views(files@) == split_files(self@, pairs.take(i as int), decide, seed),
            decreases list@.len() - i,
        {
            self.split_pair(&list[i], i, seed, label_fn, &mut files);
            proof {
                let next = pairs.take(i + 1);
                assert(next.drop_last() =~= pairs.take(i as int));
            }
            i = i + 1;
        }
        assert(pairs.take(pairs.len() as int) =~= pairs);
        let manifest = manifest_for(&files);
        RunOutput { files, manifest }
    }

    /// Biased sampling over every image pair. For each pair, corners are
    /// drawn from the pixels of the mask that have the colour `cv`, about
    /// `sample_mpy` times as many as there are such pixels; each tile cut
    /// at a drawn corner passes the quality gate and the policy `label_fn`
    /// or is dropped, and a tile that reaches past the image is dropped;
    /// each accepted tile is emitted with its rotated variants. The files
    /// are a function of the configuration, the pairs, the policy, the
    /// colour, the multiplier and the seed.
    pub fn oversample<T: FindLabel>(
        &self,
        img_reader: &ImgReader,
        sample_mpy: Ratio,
        cv: ColorValues,
        label_fn: &mut T,
    ) -> (out: RunOutput)
        ensures
            views(out.files@) == oversample_files(
                self@,
                img_reader.spec_pairs(),
                policy_of(*old(label_fn)),
                cv,
                sample_mpy,
                run_seed(self@, OVERSAMPLE_SEED),
            ),
            out.manifest@ == manifest_of(views(out.files@)),
            policy_of(*final(label_fn)) == policy_of(*old(label_fn)),
    {
        let seed = self.seed_or(OVERSAMPLE_SEED);
        let ghost decide = policy_of(*label_fn);
        let list = img_reader.pairs();
        let ghost pairs = pair_views(list@);
        let mut files: Vec<TileFile> = Vec::new();
        let mut i: usize = 0;
        assert(views(files@) =~= oversample_files(
            self@,
            pairs.take(0),
            decide,
            cv,
            sample_mpy,
            seed,
        ));
        while i < list.len()
            invariant
                i <= list@.len(),
                pairs == pair_views(list@),
                policy_of(*label_fn) == decide,
                views(files@) == oversample_files(
                    self@,
                    pairs.take(i as int),
                    decide,
                    cv,
                    sample_mpy,
                    seed,
                ),
            decreases list@.len() - i,
        {
            self.oversample_pair(
                &list[i],
                i,
                seed,
                &sample_mpy,
                &cv,
                label_fn,
                &mut files,
            );
            proof {
                let next = pairs.take(i + 1);
                assert(next.drop_last() =~= pairs.take(i as int));
            }
            i = i + 1;
        }
        assert(pairs.take(pairs.len() as int) =~= pairs);
        let manifest = manifest_for(&files);
        RunOutput { files, manifest }
    }
}

} // verus!
