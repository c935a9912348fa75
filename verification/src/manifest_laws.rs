//! The manifest of a run has one line for each real tile that the run
//! writes.

use vstd::prelude::*;
use crate::augment_split::ConfigView;
use crate::color_values::ColorValues;
use crate::img_reader::PairView;
use crate::label::Label;
use crate::naming::{decimal, tile_name};
use crate::output::{
    emitted_files, files_of, line_breaks, lemma_manifest_lines, manifest_of, real_count,
    TileFileView,
};
use crate::pipeline::{grid_for, oversample_files, pair_files, sample_for, split_files};
use crate::seeds::mix;
use crate::ratio::Ratio;
use crate::return_type::ImgFormat;
use crate::split_image::TileView;
use crate::text::lemma_first_of_bound;
use crate::tile_builder::tile_at;

verus! {

/// No character of the text is a line break.
pub open spec fn unbroken(text: Seq<char>) -> bool {
    forall|i: int| 0 <= i < text.len() ==> text[i] != '\n'
}

/// No name of the files holds a line break.
pub open spec fn all_unbroken(files: Seq<TileFileView>) -> bool {
    forall|i: int| 0 <= i < files.len() ==> unbroken(#[trigger] files[i].name)
}

/// No name of the pairs holds a line break.
pub open spec fn sources_unbroken(pairs: Seq<PairView>) -> bool {
    forall|i: int| 0 <= i < pairs.len() ==> unbroken(#[trigger] pairs[i].name)
}

/// A text without a line break counts no line break.
pub proof fn lemma_unbroken_counts_none(text: Seq<char>)
    requires
        unbroken(text),
    ensures
        line_breaks(text) == 0,
    decreases text.len(),
{
    if text.len() > 0 {
        lemma_unbroken_counts_none(text.drop_last());
    }
}

/// Decimal notation holds no line break.
pub proof fn lemma_decimal_unbroken(n: nat)
    ensures
        unbroken(decimal(n)),
    decreases n,
{
    if n >= 10 {
        lemma_decimal_unbroken(n / 10);
    }
}

/// The name of a tile holds no line break where the name of its source
/// holds none.
pub proof fn lemma_tile_name_unbroken(
    source: Seq<char>,
    x: u32,
    y: u32,
    rotation: u8,
    label: Option<Label>,
    format: ImgFormat,
)
    requires
        unbroken(source),
    ensures
        unbroken(tile_name(source, x, y, rotation, label, format)),
{
    lemma_first_of_bound(source, '.');
    lemma_decimal_unbroken(x as nat);
    lemma_decimal_unbroken(y as nat);
}

/// The files of a tile have names without a line break where the name of
/// the tile's source holds none.
pub proof fn lemma_files_of_unbroken(cfg: ConfigView, tile: TileView)
    requires
        unbroken(tile.source),
    ensures
        all_unbroken(files_of(cfg, tile)),
{
    lemma_tile_name_unbroken(
        tile.source,
        tile.x_offset,
        tile.y_offset,
        tile.rotation,
        tile.label,
        cfg.img_format,
    );
}

/// The files that a tile gives rise to, rotated variants included, have
/// names without a line break where the name of the tile's source holds
/// none.
pub proof fn lemma_emitted_unbroken(cfg: ConfigView, tile: TileView, seed: u64)
    requires
        unbroken(tile.source),
    ensures
        all_unbroken(emitted_files(cfg, tile, seed)),
{
    lemma_files_of_unbroken(cfg, tile);
    lemma_files_of_unbroken(cfg, tile.rotated(1));
    lemma_files_of_unbroken(cfg, tile.rotated(2));
    lemma_files_of_unbroken(cfg, tile.rotated(3));
    match tile.random_rotation(seed) {
        Some(v) => {
            lemma_files_of_unbroken(cfg, v);
        },
        None => {},
    }
}

/// The files of the candidates of a pair have names without a line break
/// where the name of the pair holds none.
pub proof fn lemma_pair_files_unbroken(
    cfg: ConfigView,
    pair: PairView,
    decide: spec_fn(Ratio) -> Option<Label>,
    corners: Seq<(u32, u32)>,
    pair_seed: u64,
)
    requires
        unbroken(pair.name),
    ensures
        all_unbroken(pair_files(cfg, pair, decide, corners, pair_seed)),
    decreases corners.len(),
{
    if corners.len() > 0 {
        lemma_pair_files_unbroken(cfg, pair, decide, corners.drop_last(), pair_seed);
        let corner = corners.last();
        match tile_at(cfg, pair, decide, corner.0, corner.1) {
            Some(tile) => {
                lemma_emitted_unbroken(
                    cfg,
                    tile,
                    mix(pair_seed, (corners.len() - 1) as u64),
                );
            },
            None => {},
        }
    }
}

/// The manifest of a grid scan has as many lines as the scan writes real
/// tiles, rotated variants included, provided that no name of a source
/// image holds a line break.
pub proof fn lemma_split_manifest_lines(
    cfg: ConfigView,
    pairs: Seq<PairView>,
    decide: spec_fn(Ratio) -> Option<Label>,
    seed: u64,
)
    requires
        sources_unbroken(pairs),
    ensures
        all_unbroken(split_files(cfg, pairs, decide, seed)),
        line_breaks(manifest_of(split_files(cfg, pairs, decide, seed))) == real_count(
            split_files(cfg, pairs, decide, seed),
        ),
    decreases pairs.len(),
{
    let files = split_files(cfg, pairs, decide, seed);
    if pairs.len() > 0 {
        let rest = pairs.drop_last();
        assert(sources_unbroken(rest)) by {
            assert(forall|i: int| 0 <= i < rest.len() ==> rest[i] == pairs[i]);
        }
        lemma_split_manifest_lines(cfg, rest, decide, seed);
        lemma_pair_files_unbroken(
            cfg,
            pairs.last(),
            decide,
            grid_for(cfg, pairs.last()),
            mix(seed, (pairs.len() - 1) as u64),
        );
    }
    assert forall|i: int| 0 <= i < files.len() implies line_breaks(#[trigger] files[i].name)
        == 0 by {
        lemma_unbroken_counts_none(files[i].name);
    }
    lemma_manifest_lines(files);
}

/// The manifest of a sampling run has as many lines as the run writes
/// real tiles, rotated variants included, provided that no name of a
/// source image holds a line break.
pub proof fn lemma_oversample_manifest_lines(
    cfg: ConfigView,
    pairs: Seq<PairView>,
    decide: spec_fn(Ratio) -> Option<Label>,
    color: ColorValues,
    multiplier: Ratio,
    seed: u64,
)
    requires
        sources_unbroken(pairs),
    ensures
        all_unbroken(oversample_files(cfg, pairs, decide, color, multiplier, seed)),
        line_breaks(manifest_of(oversample_files(cfg, pairs, decide, color, multiplier, seed)))
            == real_count(oversample_files(cfg, pairs, decide, color, multiplier, seed)),
    decreases pairs.len(),
{
    let files = oversample_files(cfg, pairs, decide, color, multiplier, seed);
    if pairs.len() > 0 {
        let rest = pairs.drop_last();
        assert(sources_unbroken(rest)) by {
            assert(forall|i: int| 0 <= i < rest.len() ==> rest[i] == pairs[i]);
        }
        lemma_oversample_manifest_lines(cfg, rest, decide, color, multiplier, seed);
        let pair_seed = mix(seed, (pairs.len() - 1) as u64);
        lemma_pair_files_unbroken(
            cfg,
            pairs.last(),
            decide,
            sample_for(pairs.last(), color, multiplier, pair_seed),
            pair_seed,
        );
    }
    assert forall|i: int| 0 <= i < files.len() implies line_breaks(#[trigger] files[i].name)
        == 0 by {
        lemma_unbroken_counts_none(files[i].name);
    }
    lemma_manifest_lines(files);
}

} // verus!
