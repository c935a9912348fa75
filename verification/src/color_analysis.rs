//! Counting the pixels of a colour in a raster.

use vstd::prelude::*;
use vstd::multiset::Multiset;
use vstd::seq_lib::group_to_multiset_ensures;
use vstd::std_specs::hash::group_hash_axioms;
use std::collections::HashMap;
use crate::label::Label;
use crate::ratio::Ratio;
use crate::augment_split::AugmentSplit;
use crate::color_values::ColorValues;
use crate::raster::{PixelKind, Raster, RasterView};

verus! {

/// Why a colour cannot be counted in a raster.
#[derive(Clone, Copy, Debug, PartialEq, Eq, Structural)]
pub enum ColorError {
    /// A three-channel colour was held against a single-channel raster.
    RgbColorOnLumaRaster,
    /// A single-channel colour was held against a three-channel raster.
    LumaColorOnRgbRaster,
    /// The raster's layout is neither single-channel nor three-channel.
    UnsupportedFormat,
}

impl ColorError {
    /// What the error says.
    pub open spec fn text(self) -> Seq<char> {
        match self {
            ColorError::RgbColorOnLumaRaster => "Tried to compare [u8; 3] with [u8; 1]"@,
            ColorError::LumaColorOnRgbRaster => "Tried to compare [u8; 1] with [u8; 3]"@,
            ColorError::UnsupportedFormat => "unsupported image format"@,
        }
    }

    pub fn message(&self) -> (text: &'static str)
        ensures
            text@ == self.text(),
    {
        match self {
            ColorError::RgbColorOnLumaRaster => "Tried to compare [u8; 3] with [u8; 1]",
            ColorError::LumaColorOnRgbRaster => "Tried to compare [u8; 1] with [u8; 3]",
            ColorError::UnsupportedFormat => "unsupported image format",
        }
    }
}

/// The number of pixels of `color` in a raster, or the reason why the two
/// cannot be compared.
pub open spec fn color_count(v: RasterView, color: ColorValues) -> Result<nat, ColorError> {
    match v.kind {
        PixelKind::Luma8 => if color is LUMA {
            Ok(v.count(color.channels()))
        } else {
            Err(ColorError::RgbColorOnLumaRaster)
        },
        PixelKind::Rgb8 => if color is RGB {
            Ok(v.count(color.channels()))
        } else {
            Err(ColorError::LumaColorOnRgbRaster)
        },
        _ => Err(ColorError::UnsupportedFormat),
    }
}

/// The first `p + 1` pixels are the first `p` pixels and the `p`-th one.
pub proof fn lemma_pixels_step(v: RasterView, p: int)
    requires
        0 <= p < v.pixel_count(),
    ensures
        v.pixels().take(p + 1) == v.pixels().take(p).push(v.pixel_at(p)),
        v.pixels().take(p + 1).to_multiset() == v.pixels().take(p).to_multiset().insert(
            v.pixel_at(p),
        ),
{
    broadcast use group_to_multiset_ensures;

    assert(v.pixels().take(p + 1) =~= v.pixels().take(p).push(v.pixel_at(p)));
}

/// The samples of the `p`-th pixel lie inside the buffer.
pub proof fn lemma_pixel_in_buffer(v: RasterView, p: int)
    requires
        v.wf(),
        0 <= p < v.pixel_count(),
    ensures
        0 <= p * v.kind.channel_count(),
        p * v.kind.channel_count() + v.kind.channel_count() <= v.samples.len(),
        v.pixel_at(p).len() == v.kind.channel_count(),
{
    let c = v.kind.channel_count() as int;
    let n = v.pixel_count() as int;
    assert(0 <= p * c && p * c + c <= n * c) by (nonlinear_arith)
        requires
            0 <= p < n,
            0 <= c,
    ;
}

/// Whether the samples from `offset` on are the channels of `color`.
pub(crate) fn matches_at(data: &Vec<u8>, offset: usize, color: &ColorValues) -> (same: bool)
    requires
        offset + color.channels().len() <= data@.len(),
    ensures
        same == (data@.subrange(offset as int, offset + color.channels().len())
            == color.channels()),
{
    let ghost found = data@.subrange(offset as int, offset + color.channels().len());
    let len = data.len();
    match color {
        ColorValues::RGB(c) => {
            let same = data[offset] == c[0] && data[offset + 1] == c[1] && data[offset + 2] == c[2];
            proof {
                if same {
                    assert(found =~= c@);
                }
            }
            same
        },
        ColorValues::LUMA(c) => {
            let same = data[offset] == c[0];
            proof {
                if same {
                    assert(found =~= c@);
                }
            }
            same
        },
    }
}

/// Number of pixels of `color` in a raster of the colour's layout.
fn count_matching(image: &Raster, color: &ColorValues) -> (n: usize)
    requires
        color.channels().len() == image@.kind.channel_count(),
    ensures
        n == image@.count(color.channels()),
{
    let total = image.pixel_count();
    let channels = image.kind().channels();
    let data = image.samples();
    let len = data.len();
    let mut n: usize = 0;
    let mut p: usize = 0;
    proof {
        broadcast use group_to_multiset_ensures;

    }
    while p < total
        invariant
            p <= total,
            len == data@.len(),
            total == image@.pixel_count(),
            channels == image@.kind.channel_count(),
            color.channels().len() == channels,
            data@ == image@.samples,
            image@.wf(),
            n <= p,
            n == image@.pixels().take(p as int).to_multiset().count(color.channels()),
        decreases total - p,
    {
        proof {
            lemma_pixel_in_buffer(image@, p as int);
            lemma_pixels_step(image@, p as int);
        }
        if matches_at(data, p * channels, color) {
            n = n + 1;
        }
        p = p + 1;
    }
    assert(image@.pixels().take(total as int) =~= image@.pixels());
    n
}

impl AugmentSplit {
    /// Counts the pixels of `color` in `image`. The colour and the raster
    /// must have the same layout, single-channel or three-channel.
    pub fn get_color(color: ColorValues, image: &Raster) -> (found: Result<
        (ColorValues, usize),
        ColorError,
    >)
        ensures
            match found {
                Ok((c, n)) => c == color && color_count(image@, color) == Ok::<nat, ColorError>(
                    n as nat,
                ),
                Err(e) => color_count(image@, color) == Err::<nat, ColorError>(e),
            },
    {
        match image.kind() {
            PixelKind::Luma8 => match color {
                ColorValues::LUMA(_) => Ok((color, count_matching(image, &color))),
                ColorValues::RGB(_) => Err(ColorError::RgbColorOnLumaRaster),
            },
            PixelKind::Rgb8 => match color {
                ColorValues::RGB(_) => Ok((color, count_matching(image, &color))),
                ColorValues::LUMA(_) => Err(ColorError::LumaColorOnRgbRaster),
            },
            _ => Err(ColorError::UnsupportedFormat),
        }
    }
}

/// The number by which colours are ordered where two are equally frequent:
/// the channels read as one integer, the first channel weighing most.
pub open spec fn color_key(color: Seq<u8>) -> int {
    if color.len() == 3 {
        color[0] * 65536 + color[1] * 256 + color[2]
    } else if color.len() == 1 {
        color[0] as int
    } else {
        0
    }
}

/// `color` occurs `n` times in `bag`, no colour of `channels` channels
/// occurs more often, and of those that occur as often none has a smaller
/// key.
pub open spec fn is_majority(
    bag: Multiset<Seq<u8>>,
    channels: nat,
    color: Seq<u8>,
    n: nat,
) -> bool {
    &&& color.len() == channels
    &&& n > 0
    &&& bag.count(color) == n
    &&& forall|other: Seq<u8>|
        #![trigger bag.count(other)]
        other.len() == channels ==> bag.count(other) < n || (bag.count(other) == n && color_key(
            color,
        ) <= color_key(other))
}

/// The most frequent colour of a single-channel or three-channel raster
/// and the number of its pixels; among equally frequent colours the one
/// with the smallest key. Nothing for an empty raster or another layout.
pub open spec fn majority(v: RasterView) -> Option<(Seq<u8>, nat)> {
    if (v.kind == PixelKind::Luma8 || v.kind == PixelKind::Rgb8) && exists|c: Seq<u8>, n: nat|
        is_majority(v.pixel_bag(), v.kind.channel_count(), c, n) {
        Some(choose|c: Seq<u8>, n: nat| is_majority(v.pixel_bag(), v.kind.channel_count(), c, n))
    } else {
        None
    }
}

/// Colours of one or of three channels with the same key are the same.
pub proof fn lemma_key_decides(a: Seq<u8>, b: Seq<u8>)
    requires
        a.len() == b.len(),
        a.len() == 1 || a.len() == 3,
        color_key(a) == color_key(b),
    ensures
        a == b,
{
}

/// A bag has at most one majority.
pub proof fn lemma_majority_unique(
    bag: Multiset<Seq<u8>>,
    channels: nat,
    c1: Seq<u8>,
    n1: nat,
    c2: Seq<u8>,
    n2: nat,
)
    requires
        channels == 1 || channels == 3,
        is_majority(bag, channels, c1, n1),
        is_majority(bag, channels, c2, n2),
    ensures
        c1 == c2,
        n1 == n2,
{
    lemma_key_decides(c1, c2);
}

/// The majority colour depends on the pixels only as a bag: two rasters of
/// one layout that hold the same pixels in any order have the same
/// majority.
pub proof fn lemma_majority_order_invariant(a: RasterView, b: RasterView)
    requires
        a.kind == b.kind,
        a.pixel_bag() == b.pixel_bag(),
    ensures
        majority(a) == majority(b),
{
}

/// The key of the pixel whose samples start at `offset`.
fn key_at(data: &Vec<u8>, offset: usize, channels: usize) -> (key: u32)
    requires
        channels == 1 || channels == 3,
        offset + channels <= data@.len(),
    ensures
        key == color_key(data@.subrange(offset as int, offset + channels)),
        key < 0x100_0000,
{
    let len = data.len();
    if channels == 1 {
        data[offset] as u32
    } else {
        (data[offset] as u32) * 65536 + (data[offset + 1] as u32) * 256 + (data[offset + 2] as u32)
    }
}

/// How often each colour occurs, by the colour's key.
fn tally(image: &Raster) -> (counts: HashMap<u32, usize>)
    requires
        image@.kind == PixelKind::Luma8 || image@.kind == PixelKind::Rgb8,
    ensures
        forall|x: Seq<u8>|
            #![trigger image@.count(x)]
            x.len() == image@.kind.channel_count() && image@.count(x) > 0
                ==> counts@.contains_key(color_key(x) as u32) && counts@[color_key(x) as u32]
                == image@.count(x),
{
    broadcast use group_hash_axioms;
    broadcast use group_to_multiset_ensures;

    let total = image.pixel_count();
    let channels = image.kind().channels();
    let data = image.samples();
    let len = data.len();
    let mut counts: HashMap<u32, usize> = HashMap::new();
    let mut p: usize = 0;
    while p < total
        invariant
            p <= total,
            len == data@.len(),
            total == image@.pixel_count(),
            channels == image@.kind.channel_count(),
            channels == 1 || channels == 3,
            data@ == image@.samples,
            image@.wf(),
            forall|x: Seq<u8>|
                #![trigger image@.pixels().take(p as int).to_multiset().count(x)]
                x.len() == channels ==> (counts@.contains_key(color_key(x) as u32)
                    <==> image@.pixels().take(p as int).to_multiset().count(x) > 0),
            forall|x: Seq<u8>|
                #![trigger image@.pixels().take(p as int).to_multiset().count(x)]
                x.len() == channels && image@.pixels().take(p as int).to_multiset().count(x) > 0
                    ==> counts@[color_key(x) as u32] == image@.pixels().take(
                    p as int,
                ).to_multiset().count(x),
        decreases total - p,
    {
        let ghost before = image@.pixels().take(p as int).to_multiset();
        let ghost after = image@.pixels().take(p + 1).to_multiset();
        let ghost px = image@.pixel_at(p as int);
        proof {
            lemma_pixel_in_buffer(image@, p as int);
            lemma_pixels_step(image@, p as int);
            vstd::seq_lib::to_multiset_len(image@.pixels().take(p as int));
        }
        let key = key_at(data, p * channels, channels);
        let seen: usize = match counts.get(&key) {
            Some(n) => *n,
            None => 0,
        };
        assert(seen == before.count(px));
        counts.insert(key, seen + 1);
        proof {
            assert forall|x: Seq<u8>| x.len() == channels implies (counts@.contains_key(
                color_key(x) as u32,
            ) <==> #[trigger] after.count(x) > 0) && (after.count(x) > 0 ==> counts@[color_key(
                x,
            ) as u32] == after.count(x)) by {
                if x != px && color_key(x) == color_key(px) {
                    lemma_key_decides(x, px);
                }
            }
        }
        p = p + 1;
    }
    assert(image@.pixels().take(total as int) =~= image@.pixels());
    counts
}

/// Whether `n` of `total` pixels are a share of at least `share`.
pub open spec fn share_at_least(n: nat, total: nat, share: Ratio) -> bool {
    share.spec_num() * total <= n * share.spec_den()
}

/// Whether the majority colour of a raster is `color` and covers a share of
/// at least `share` of its pixels.
pub open spec fn dominated_by(v: RasterView, color: ColorValues, share: Ratio) -> bool {
    majority(v) matches Some((c, n)) && c == color.channels() && share_at_least(
        n,
        v.pixel_count(),
        share,
    )
}

/// An empty bag has no majority.
proof fn lemma_empty_has_no_majority(v: RasterView)
    requires
        v.pixel_count() == 0,
    ensures
        majority(v) is None,
{
    broadcast use group_to_multiset_ensures;

    assert(forall|c: Seq<u8>, n: nat| !is_majority(v.pixel_bag(), v.kind.channel_count(), c, n));
}

/// The colour of the pixel whose samples start at `offset`.
fn color_at(data: &Vec<u8>, offset: usize, kind: PixelKind) -> (color: ColorValues)
    requires
        kind == PixelKind::Luma8 || kind == PixelKind::Rgb8,
        offset + kind.channel_count() <= data@.len(),
    ensures
        color.channels() == data@.subrange(offset as int, offset + kind.channel_count()),
{
    let len = data.len();
    let ghost found = data@.subrange(offset as int, offset + kind.channel_count());
    match kind {
        PixelKind::Luma8 => {
            let c: [u8; 1] = [data[offset]];
            ColorValues::LUMA(c)
        },
        _ => {
            let c: [u8; 3] = [data[offset], data[offset + 1], data[offset + 2]];
            ColorValues::RGB(c)
        },
    }
}

impl AugmentSplit {
    /// The most frequent colour of `image` and the number of its pixels.
    /// Of several equally frequent colours the one with the smallest key
    /// is returned, so the result does not depend on the order of the
    /// pixels. Nothing is returned for an empty raster and for a layout
    /// that is neither single-channel nor three-channel.
    pub fn majority_color(image: &Raster) -> (found: Option<(ColorValues, usize)>)
        ensures
            match found {
                Some((color, n)) => majority(image@) == Some((color.channels(), n as nat)),
                None => majority(image@) is None,
            },
    {
        broadcast use group_hash_axioms;
        broadcast use group_to_multiset_ensures;

        let kind = image.kind();
        match kind {
            PixelKind::Luma8 | PixelKind::Rgb8 => {},
            _ => {
                return None;
            },
        }
        let total = image.pixel_count();
        if total == 0 {
            proof {
                lemma_empty_has_no_majority(image@);
            }
            return None;
        }
        let channels = kind.channels();
        let data = image.samples();
        let len = data.len();
        let counts = tally(image);
        let mut best_p: usize = 0;
        let mut best_n: usize = 0;
        let mut best_key: u32 = 0;
        let mut p: usize = 0;
        while p < total
            invariant
                p <= total,
                0 < total,
                len == data@.len(),
                total == image@.pixel_count(),
                channels == image@.kind.channel_count(),
                channels == 1 || channels == 3,
                data@ == image@.samples,
                image@.wf(),
                forall|x: Seq<u8>|
                    #![trigger image@.count(x)]
                    x.len() == channels && image@.count(x) > 0 ==> counts@.contains_key(
                        color_key(x) as u32,
                    ) && counts@[color_key(x) as u32] == image@.count(x),
                p > 0 ==> best_p < p,
                p > 0 ==> best_n > 0,
                p > 0 ==> best_n == image@.count(image@.pixel_at(best_p as int)),
                p > 0 ==> best_key == color_key(image@.pixel_at(best_p as int)),
                forall|q: int|
                    #![trigger image@.pixel_at(q)]
                    0 <= q < p ==> image@.count(image@.pixel_at(q)) < best_n || (image@.count(
                        image@.pixel_at(q),
                    ) == best_n && best_key <= color_key(image@.pixel_at(q))),
            decreases total - p,
        {
            let ghost px = image@.pixel_at(p as int);
            proof {
                lemma_pixel_in_buffer(image@, p as int);
                assert(image@.pixels()[p as int] == px);
                vstd::seq_lib::to_multiset_contains(image@.pixels(), px);
            }
            let key = key_at(data, p * channels, channels);
            let n: usize = match counts.get(&key) {
                Some(n) => *n,
                None => 0,
            };
            if p == 0 || n > best_n || (n == best_n && key < best_key) {
                best_p = p;
                best_n = n;
                best_key = key;
            }
            p = p + 1;
        }
        proof {
            lemma_pixel_in_buffer(image@, best_p as int);
        }
        let color = color_at(data, best_p * channels, kind);
        proof {
            let bag = image@.pixel_bag();
            let c = color.channels();
            assert forall|other: Seq<u8>| other.len() == channels implies #[trigger] bag.count(
                other,
            ) < best_n || (bag.count(other) == best_n && color_key(c) <= color_key(other)) by {
                if bag.count(other) > 0 {
                    vstd::seq_lib::to_multiset_contains(image@.pixels(), other);
                    let q = choose|q: int|
                        0 <= q < image@.pixels().len() && image@.pixels()[q] == other;
                }
            }
            assert(is_majority(bag, channels as nat, c, best_n as nat));
            let (c2, n2) = choose|c: Seq<u8>, n: nat| is_majority(bag, channels as nat, c, n);
            lemma_majority_unique(bag, channels as nat, c, best_n as nat, c2, n2);
        }
        Some((color, best_n))
    }

    /// Whether the majority colour of `image` is `color` and covers a share
    /// of at least `percentage` of its pixels.
    pub fn check_color(image: &Raster, color: ColorValues, percentage: Ratio) -> (held: bool)
        ensures
            held == dominated_by(image@, color, percentage),
    {
        let total = image.pixel_count();
        match AugmentSplit::majority_color(image) {
            Some((found, n)) => {
                proof {
                    if found.channels() == color.channels() {
                        found.lemma_channels_decide(color);
                    }
                    crate::ratio::lemma_product_fits(percentage.spec_num() as u64, total as u64);
                    crate::ratio::lemma_product_fits(n as u64, percentage.spec_den() as u64);
                }
                found == color && (percentage.num() as u128) * (total as u128) <= (n as u128) * (
                percentage.den() as u128)
            },
            None => false,
        }
    }
}

impl Label {
    /// `Sick` where the majority colour of the mask is `color`, `Healthy`
    /// otherwise.
    pub fn determine_label(label_image: &Raster, color: ColorValues) -> (label: Label)
        ensures
            label == if majority(label_image@) matches Some((c, _)) && c == color.channels() {
                Label::Sick
            } else {
                Label::Healthy
            },
    {
        match AugmentSplit::majority_color(label_image) {
            Some((found, _)) => {
                proof {
                    if found.channels() == color.channels() {
                        found.lemma_channels_decide(color);
                    }
                }
                if found == color {
                    Label::Sick
                } else {
                    Label::Healthy
                }
            },
            None => Label::Healthy,
        }
    }
}

} // verus!
