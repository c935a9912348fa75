//! Biased point sampling: tile corners drawn from the pixels of a mask that
//! have a target colour.

use vstd::prelude::*;
use vstd::arithmetic::div_mod::lemma_fundamental_div_mod;
use crate::color_analysis::{color_count, lemma_pixel_in_buffer, matches_at};
use crate::color_values::ColorValues;
use crate::random::{drawn_indices, sample_indices};
use crate::raster::{PixelKind, Raster, RasterView};
use crate::ratio::Ratio;

verus! {

/// The coordinates of all pixels, row by row.
pub open spec fn all_points(v: RasterView) -> Seq<(u32, u32)> {
    Seq::new(
        v.pixel_count(),
        |p: int| ((p % (v.width as int)) as u32, (p / (v.width as int)) as u32),
    )
}

/// Whether the pixel at a point has the channels `color`.
pub open spec fn has_color(v: RasterView, color: Seq<u8>) -> spec_fn((u32, u32)) -> bool {
    |pt: (u32, u32)| v.pixel_at(pt.1 * v.width + pt.0) == color
}

/// The coordinates of the pixels of colour `color`, row by row.
pub open spec fn candidates(v: RasterView, color: ColorValues) -> Seq<(u32, u32)> {
    all_points(v).filter(has_color(v, color.channels()))
}

/// The number of points to draw from `n` candidates: `multiplier * n`
/// rounded to the nearest integer, halves up, and at most `n`.
pub open spec fn sample_size(multiplier: Ratio, n: nat) -> nat {
    if multiplier.spec_scale(n) < n {
        multiplier.spec_scale(n)
    } else {
        n
    }
}

/// The candidates that stand at the picked indices, in the order of the
/// picks.
pub open spec fn selected(points: Seq<(u32, u32)>, picks: Seq<usize>) -> Seq<(u32, u32)> {
    Seq::new(picks.len(), |i: int| points[picks[i] as int])
}

/// The points that biased sampling draws from a mask.
pub open spec fn sampled_points(
    v: RasterView,
    color: ColorValues,
    multiplier: Ratio,
    seed: u64,
) -> Seq<(u32, u32)> {
    let points = candidates(v, color);
    selected(
        points,
        drawn_indices(
            seed,
            points.len() as usize,
            sample_size(multiplier, points.len()) as usize,
        ),
    )
}

/// The coordinates of the pixels of `mask` that have the colour `color`,
/// row by row; nothing where the colour cannot be held against the mask.
pub fn foreground_points(mask: &Raster, color: &ColorValues) -> (found: Option<Vec<(u32, u32)>>)
    ensures
        found is Some <==> color_count(mask@, *color) is Ok,
        found matches Some(points) ==> points@ == candidates(mask@, *color),
{
    let comparable = match (mask.kind(), color) {
        (PixelKind::Luma8, ColorValues::LUMA(_)) => true,
        (PixelKind::Rgb8, ColorValues::RGB(_)) => true,
        _ => false,
    };
    if !comparable {
        return None;
    }
    let total = mask.pixel_count();
    let width = mask.width() as usize;
    let channels = mask.kind().channels();
    let data = mask.samples();
    let len = data.len();
    let ghost pred = has_color(mask@, color.channels());
    let ghost points = all_points(mask@);
    let mut found: Vec<(u32, u32)> = Vec::new();
    let mut p: usize = 0;
    proof {
        reveal(Seq::filter);
    }
    while p < total
        invariant
            p <= total,
            len == data@.len(),
            total == mask@.pixel_count(),
            width == mask@.width,
            channels == mask@.kind.channel_count(),
            color.channels().len() == channels,
            data@ == mask@.samples,
            mask@.wf(),
            mask@.width <= u32::MAX,
            mask@.height <= u32::MAX,
            pred == has_color(mask@, color.channels()),
            points == all_points(mask@),
            found@ == points.take(p as int).filter(pred),
        decreases total - p,
    {
        proof {
            lemma_pixel_in_buffer(mask@, p as int);
            assert(width > 0) by (nonlinear_arith)
                requires
                    p < width * mask@.height,
                    0 <= width,
                    0 <= mask@.height,
            ;
            let pi = p as int;
            let wi = width as int;
            let row = pi / wi;
            lemma_fundamental_div_mod(pi, wi);
            assert(row < mask@.height) by (nonlinear_arith)
                requires
                    pi == wi * row + pi % wi,
                    0 <= pi % wi,
                    pi < wi * mask@.height,
                    0 < wi,
            ;
        }
        let x = (p % width) as u32;
        let y = (p / width) as u32;
        let hit = matches_at(data, p * channels, color);
        proof {
            let point = points[p as int];
            assert(point == (x, y));
            assert(y * mask@.width + x == p);
            assert(points.take(p + 1) =~= points.take(p as int).push(point));
            points.take(p as int).lemma_filter_push(point, pred);
        }
        if hit {
            found.push((x, y));
        }
        p = p + 1;
    }
    assert(points.take(total as int) =~= points);
    Some(found)
}

/// The number of points to draw from `n` candidates.
pub fn sample_amount(multiplier: &Ratio, n: usize) -> (amount: usize)
    ensures
        amount == sample_size(*multiplier, n as nat),
        amount <= n,
{
    let scaled: u128 = multiplier.scale(n as u64);
    if scaled < n as u128 {
        scaled as usize
    } else {
        n
    }
}

/// The points that stand at the picked indices, in the order of the picks.
pub fn select_points(points: &Vec<(u32, u32)>, picks: &Vec<usize>) -> (chosen: Vec<(u32, u32)>)
    requires
        forall|i: int| 0 <= i < picks@.len() ==> #[trigger] picks@[i] < points@.len(),
    ensures
        chosen@ == selected(points@, picks@),
{
    let mut chosen: Vec<(u32, u32)> = Vec::new();
    let mut i: usize = 0;
    while i < picks.len()
        invariant
            i <= picks@.len(),
            forall|k: int| 0 <= k < picks@.len() ==> #[trigger] picks@[k] < points@.len(),
            chosen@ == selected(points@, picks@.take(i as int)),
        decreases picks@.len() - i,
    {
        chosen.push(points[picks[i]]);
        i = i + 1;
    }
    chosen
}

/// Whether points can be drawn from a mask: the colour can be held against
/// it, and the candidates are few enough to be drawn from alike on every
/// platform.
pub open spec fn can_sample(v: RasterView, color: ColorValues) -> bool {
    color_count(v, color) is Ok && candidates(v, color).len() <= u32::MAX
}

/// Whether `picks` are `amount` different positions in a sequence of
/// length `n`.
pub open spec fn distinct_picks(picks: Seq<usize>, n: nat, amount: nat) -> bool {
    &&& picks.len() == amount
    &&& forall|i: int| 0 <= i < picks.len() ==> #[trigger] picks[i] < n
    &&& forall|i: int, j: int|
        0 <= i < j < picks.len() ==> #[trigger] picks[i] != #[trigger] picks[j]
}

/// Biased point sampling. Of the `n` pixels of `mask` that have the colour
/// `color`, `round(multiplier * n)` are drawn without replacement by a
/// generator seeded with `seed`; their coordinates are returned in the
/// order of the draw. The result is a function of the four arguments: the
/// same mask, colour, multiplier and seed give the same points. Nothing is
/// returned where the colour cannot be held against the mask, or where
/// there are more candidates than `u32::MAX`.
pub fn oversample_points(mask: &Raster, color: &ColorValues, multiplier: &Ratio, seed: u64) -> (drawn:
    Option<Vec<(u32, u32)>>)
    ensures
        drawn is Some <==> can_sample(mask@, *color),
        drawn matches Some(points) ==> points@ == sampled_points(
            mask@,
            *color,
            *multiplier,
            seed,
        ),
        drawn is Some ==> distinct_picks(
            drawn_indices(
                seed,
                candidates(mask@, *color).len() as usize,
                sample_size(*multiplier, candidates(mask@, *color).len()) as usize,
            ),
            candidates(mask@, *color).len(),
            sample_size(*multiplier, candidates(mask@, *color).len()),
        ),
{
    match foreground_points(mask, color) {
        Some(points) => {
            let n = points.len();
            if n > u32::MAX as usize {
                None
            } else {
                let amount = sample_amount(multiplier, n);
                let picks = sample_indices(seed, n, amount);
                Some(select_points(&points, &picks))
            }
        },
        None => None,
    }
}

} // verus!
