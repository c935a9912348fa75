//! Rasters as plain pixel buffers, and the mathematical model of their
//! geometry: cropping and the three quarter-turn rotations.

use vstd::prelude::*;
use vstd::multiset::Multiset;
use vstd::arithmetic::div_mod::lemma_fundamental_div_mod;
use vstd::arithmetic::div_mod::lemma_fundamental_div_mod_converse;
use crate::image_ops::{crop_samples, rotate180_samples, rotate270_samples, rotate90_samples};

verus! {

/// The channel layout of an 8-bit raster.
#[derive(Clone, Copy, Debug, PartialEq, Eq, Structural)]
pub enum PixelKind {
    /// One grey channel.
    Luma8,
    /// Grey and alpha.
    LumaA8,
    /// Red, green, blue.
    Rgb8,
    /// Red, green, blue, alpha.
    Rgba8,
}

impl PixelKind {
    /// Number of samples that make up one pixel.
    pub open spec fn channel_count(self) -> nat {
        match self {
            PixelKind::Luma8 => 1,
            PixelKind::LumaA8 => 2,
            PixelKind::Rgb8 => 3,
            PixelKind::Rgba8 => 4,
        }
    }

    pub fn channels(self) -> (n: usize)
        ensures
            n == self.channel_count(),
    {
        match self {
            PixelKind::Luma8 => 1,
            PixelKind::LumaA8 => 2,
            PixelKind::Rgb8 => 3,
            PixelKind::Rgba8 => 4,
        }
    }
}

/// The mathematical value of a raster: its dimensions, its layout, and its
/// samples in row-major order, the channels of one pixel side by side.
pub struct RasterView {
    pub width: nat,
    pub height: nat,
    pub kind: PixelKind,
    pub samples: Seq<u8>,
}

/// The raster that a buffer of the given shape holds.
pub open spec fn as_view(kind: PixelKind, width: u32, height: u32, data: Seq<u8>) -> RasterView {
    RasterView { width: width as nat, height: height as nat, kind, samples: data }
}

impl RasterView {
    /// The buffer holds exactly the samples of `width * height` pixels.
    pub open spec fn wf(self) -> bool {
        self.samples.len() == self.width * self.height * self.kind.channel_count()
    }

    /// Position in `samples` of channel `k` of the pixel in column `x`, row `y`.
    pub open spec fn index_of(self, x: int, y: int, k: int) -> int {
        (y * self.width + x) * self.kind.channel_count() + k
    }

    pub open spec fn in_bounds(self, x: int, y: int, k: int) -> bool {
        0 <= x < self.width && 0 <= y < self.height && 0 <= k < self.kind.channel_count()
    }

    /// Channel `k` of the pixel in column `x`, row `y`.
    pub open spec fn sample_at(self, x: int, y: int, k: int) -> u8 {
        self.samples[self.index_of(x, y, k)]
    }

    /// The channels of the `p`-th pixel in row-major order.
    pub open spec fn pixel_at(self, p: int) -> Seq<u8> {
        self.samples.subrange(
            p * self.kind.channel_count(),
            p * self.kind.channel_count() + self.kind.channel_count(),
        )
    }

    pub open spec fn pixel_count(self) -> nat {
        self.width * self.height
    }

    /// The pixels in row-major order, each as its channels.
    pub open spec fn pixels(self) -> Seq<Seq<u8>> {
        Seq::new(self.pixel_count(), |p: int| self.pixel_at(p))
    }

    /// The pixels without their order.
    pub open spec fn pixel_bag(self) -> Multiset<Seq<u8>> {
        self.pixels().to_multiset()
    }

    /// Number of pixels whose channels are `color`.
    pub open spec fn count(self, color: Seq<u8>) -> nat {
        self.pixel_bag().count(color)
    }

    /// The raster of the given shape whose sample at `(x, y, k)` is `f(x, y, k)`.
    pub open spec fn from_fn(
        width: nat,
        height: nat,
        kind: PixelKind,
        f: spec_fn(int, int, int) -> u8,
    ) -> RasterView {
        let c = kind.channel_count() as int;
        RasterView {
            width,
            height,
            kind,
            samples: Seq::new(
                width * height * kind.channel_count(),
                |i: int| f((i / c) % (width as int), (i / c) / (width as int), i % c),
            ),
        }
    }

    /// The cut-out of at most `w` by `h` pixels whose top-left corner is at
    /// `(x, y)`. A rectangle that reaches past the raster is clipped to it.
    pub open spec fn crop(self, x: nat, y: nat, w: nat, h: nat) -> RasterView {
        let cx = if x < self.width { x } else { self.width };
        let cy = if y < self.height { y } else { self.height };
        let cw = if w < self.width - cx { w } else { (self.width - cx) as nat };
        let ch = if h < self.height - cy { h } else { (self.height - cy) as nat };
        RasterView::from_fn(
            cw,
            ch,
            self.kind,
            |i: int, j: int, k: int| self.sample_at(cx + i, cy + j, k),
        )
    }

    /// The raster turned a quarter clockwise: the pixel at `(x, y)` moves to
    /// `(height - 1 - y, x)`.
    pub open spec fn rotate90(self) -> RasterView {
        RasterView::from_fn(
            self.height,
            self.width,
            self.kind,
            |i: int, j: int, k: int| self.sample_at(j, self.height - 1 - i, k),
        )
    }

    /// The raster turned by a half: the pixel at `(x, y)` moves to
    /// `(width - 1 - x, height - 1 - y)`.
    pub open spec fn rotate180(self) -> RasterView {
        RasterView::from_fn(
            self.width,
            self.height,
            self.kind,
            |i: int, j: int, k: int| self.sample_at(self.width - 1 - i, self.height - 1 - j, k),
        )
    }

    /// The raster turned three quarters clockwise: the pixel at `(x, y)`
    /// moves to `(y, width - 1 - x)`.
    pub open spec fn rotate270(self) -> RasterView {
        RasterView::from_fn(
            self.height,
            self.width,
            self.kind,
            |i: int, j: int, k: int| self.sample_at(self.width - 1 - j, i, k),
        )
    }

    /// The raster turned clockwise by `quarters` quarter turns, counted
    /// modulo four.
    pub open spec fn rotate(self, quarters: nat) -> RasterView {
        if quarters % 4 == 1 {
            self.rotate90()
        } else if quarters % 4 == 2 {
            self.rotate180()
        } else if quarters % 4 == 3 {
            self.rotate270()
        } else {
            self
        }
    }
}

/// An in-bounds position lies inside the buffer, and its pixel's offset is
/// below the number of pixels.
pub proof fn lemma_index_in_range(v: RasterView, x: int, y: int, k: int)
    requires
        v.wf(),
        v.in_bounds(x, y, k),
    ensures
        0 <= y * v.width + x < v.width * v.height,
        0 <= v.index_of(x, y, k) < v.samples.len(),
{
    let w = v.width as int;
    let h = v.height as int;
    let c = v.kind.channel_count() as int;
    assert(0 <= y * w && y * w + w <= h * w) by (nonlinear_arith)
        requires
            0 <= y < h,
            0 <= w,
    ;
    let p = y * w + x;
    assert(0 <= p * c && p * c + c <= w * h * c) by (nonlinear_arith)
        requires
            0 <= p < w * h,
            0 <= c,
    ;
}

/// The position of `(x, y, k)` splits back into its three coordinates.
pub proof fn lemma_index_split(w: int, c: int, x: int, y: int, k: int)
    requires
        0 < w,
        0 < c,
        0 <= x < w,
        0 <= y,
        0 <= k < c,
    ensures
        ((y * w + x) * c + k) % c == k,
        ((y * w + x) * c + k) / c == y * w + x,
        (y * w + x) % w == x,
        (y * w + x) / w == y,
{
    lemma_fundamental_div_mod_converse((y * w + x) * c + k, c, y * w + x, k);
    lemma_fundamental_div_mod_converse(y * w + x, w, y, x);
}

/// Every position below `w * h * c` is the position of in-bounds coordinates.
pub proof fn lemma_index_join(w: int, h: int, c: int, i: int)
    requires
        0 < c,
        0 <= w,
        0 <= h,
        0 <= i < w * h * c,
    ensures
        0 < w,
        0 <= i % c < c,
        0 <= (i / c) % w < w,
        0 <= (i / c) / w < h,
        i == (((i / c) / w) * w + (i / c) % w) * c + i % c,
{
    assert(0 < w) by (nonlinear_arith)
        requires
            0 <= w,
            0 <= i < w * h * c,
    ;
    lemma_fundamental_div_mod(i, c);
    let p = i / c;
    assert(0 <= p < w * h) by (nonlinear_arith)
        requires
            i == c * p + i % c,
            0 <= i % c < c,
            0 <= i < w * h * c,
            0 < c,
    ;
    lemma_fundamental_div_mod(p, w);
    let y = p / w;
    assert(0 <= y < h) by (nonlinear_arith)
        requires
            p == w * y + p % w,
            0 <= p % w < w,
            0 <= p < w * h,
            0 < w,
    ;
    assert(c * p == p * c) by (nonlinear_arith);
}

/// A raster built from a function is well formed and holds the function's
/// value at every in-bounds position.
pub proof fn lemma_from_fn(
    width: nat,
    height: nat,
    kind: PixelKind,
    f: spec_fn(int, int, int) -> u8,
)
    ensures
        RasterView::from_fn(width, height, kind, f).wf(),
        RasterView::from_fn(width, height, kind, f).width == width,
        RasterView::from_fn(width, height, kind, f).height == height,
        RasterView::from_fn(width, height, kind, f).kind == kind,
        forall|x: int, y: int, k: int|
            #![trigger RasterView::from_fn(width, height, kind, f).sample_at(x, y, k)]
            RasterView::from_fn(width, height, kind, f).in_bounds(x, y, k)
                ==> RasterView::from_fn(width, height, kind, f).sample_at(x, y, k) == f(x, y, k),
{
    let r = RasterView::from_fn(width, height, kind, f);
    assert forall|x: int, y: int, k: int| r.in_bounds(x, y, k) implies #[trigger] r.sample_at(
        x,
        y,
        k,
    ) == f(x, y, k) by {
        lemma_index_in_range(r, x, y, k);
        lemma_index_split(width as int, kind.channel_count() as int, x, y, k);
    }
}

/// Two well-formed rasters of one shape that agree at every in-bounds
/// position are the same raster.
pub proof fn lemma_raster_ext(a: RasterView, b: RasterView)
    requires
        a.wf(),
        b.wf(),
        a.width == b.width,
        a.height == b.height,
        a.kind == b.kind,
        forall|x: int, y: int, k: int|
            a.in_bounds(x, y, k) ==> a.sample_at(x, y, k) == b.sample_at(x, y, k),
    ensures
        a == b,
{
    let w = a.width as int;
    let h = a.height as int;
    let c = a.kind.channel_count() as int;
    assert forall|i: int| 0 <= i < a.samples.len() implies a.samples[i] == b.samples[i] by {
        lemma_index_join(w, h, c, i);
        let x = (i / c) % w;
        let y = (i / c) / w;
        let k = i % c;
        assert(a.sample_at(x, y, k) == b.sample_at(x, y, k));
    }
    assert(a.samples =~= b.samples);
}

/// A cut-out is well formed, has the clipped size, and holds at `(i, j)` the
/// pixel that the source holds at `(x + i, y + j)`.
pub proof fn lemma_crop(v: RasterView, x: nat, y: nat, w: nat, h: nat)
    requires
        v.wf(),
    ensures
        v.crop(x, y, w, h).wf(),
        v.crop(x, y, w, h).kind == v.kind,
        v.crop(x, y, w, h).width == if x >= v.width {
            0
        } else if w < v.width - x {
            w as int
        } else {
            v.width - x
        },
        v.crop(x, y, w, h).height == if y >= v.height {
            0
        } else if h < v.height - y {
            h as int
        } else {
            v.height - y
        },
        forall|i: int, j: int, k: int|
            #![trigger v.crop(x, y, w, h).sample_at(i, j, k)]
            v.crop(x, y, w, h).in_bounds(i, j, k) ==> v.in_bounds(x + i, y + j, k) && v.crop(
                x,
                y,
                w,
                h,
            ).sample_at(i, j, k) == v.sample_at(x + i, y + j, k),
{
    let cx = if x < v.width { x } else { v.width };
    let cy = if y < v.height { y } else { v.height };
    let cw = if w < v.width - cx { w } else { (v.width - cx) as nat };
    let ch = if h < v.height - cy { h } else { (v.height - cy) as nat };
    lemma_from_fn(cw, ch, v.kind, |i: int, j: int, k: int| v.sample_at(cx + i, cy + j, k));
}

/// A quarter turn swaps the dimensions and holds at `(i, j)` the pixel that
/// the source holds at `(j, height - 1 - i)`.
pub proof fn lemma_rotate90(v: RasterView)
    requires
        v.wf(),
    ensures
        v.rotate90().wf(),
        v.rotate90().kind == v.kind,
        v.rotate90().width == v.height,
        v.rotate90().height == v.width,
        forall|i: int, j: int, k: int|
            #![trigger v.rotate90().sample_at(i, j, k)]
            v.rotate90().in_bounds(i, j, k) ==> v.rotate90().sample_at(i, j, k) == v.sample_at(
                j,
                v.height - 1 - i,
                k,
            ),
{
    lemma_from_fn(
        v.height,
        v.width,
        v.kind,
        |i: int, j: int, k: int| v.sample_at(j, v.height - 1 - i, k),
    );
}

/// A half turn keeps the dimensions and holds at `(i, j)` the pixel that the
/// source holds at `(width - 1 - i, height - 1 - j)`.
pub proof fn lemma_rotate180(v: RasterView)
    requires
        v.wf(),
    ensures
        v.rotate180().wf(),
        v.rotate180().kind == v.kind,
        v.rotate180().width == v.width,
        v.rotate180().height == v.height,
        forall|i: int, j: int, k: int|
            #![trigger v.rotate180().sample_at(i, j, k)]
            v.rotate180().in_bounds(i, j, k) ==> v.rotate180().sample_at(i, j, k) == v.sample_at(
                v.width - 1 - i,
                v.height - 1 - j,
                k,
            ),
{
    lemma_from_fn(
        v.width,
        v.height,
        v.kind,
        |i: int, j: int, k: int| v.sample_at(v.width - 1 - i, v.height - 1 - j, k),
    );
}

/// Three quarter turns swap the dimensions and hold at `(i, j)` the pixel
/// that the source holds at `(width - 1 - j, i)`.
pub proof fn lemma_rotate270(v: RasterView)
    requires
        v.wf(),
    ensures
        v.rotate270().wf(),
        v.rotate270().kind == v.kind,
        v.rotate270().width == v.height,
        v.rotate270().height == v.width,
        forall|i: int, j: int, k: int|
            #![trigger v.rotate270().sample_at(i, j, k)]
            v.rotate270().in_bounds(i, j, k) ==> v.rotate270().sample_at(i, j, k) == v.sample_at(
                v.width - 1 - j,
                i,
                k,
            ),
{
    lemma_from_fn(
        v.height,
        v.width,
        v.kind,
        |i: int, j: int, k: int| v.sample_at(v.width - 1 - j, i, k),
    );
}

/// Turning by any number of quarters keeps a raster well formed.
pub proof fn lemma_rotate_wf(v: RasterView, quarters: nat)
    requires
        v.wf(),
    ensures
        v.rotate(quarters).wf(),
        v.rotate(quarters).kind == v.kind,
        v.rotate(quarters).samples.len() == v.samples.len(),
{
    lemma_rotate90(v);
    lemma_rotate180(v);
    lemma_rotate270(v);
    assert(v.height * v.width == v.width * v.height) by (nonlinear_arith);
}

/// Two quarter turns are a half turn.
pub proof fn lemma_quarter_twice(v: RasterView)
    requires
        v.wf(),
    ensures
        v.rotate90().rotate90() == v.rotate180(),
{
    lemma_rotate90(v);
    lemma_rotate90(v.rotate90());
    lemma_rotate180(v);
    lemma_raster_ext(v.rotate90().rotate90(), v.rotate180());
}

/// A quarter turn after a half turn is three quarter turns.
pub proof fn lemma_quarter_after_half(v: RasterView)
    requires
        v.wf(),
    ensures
        v.rotate180().rotate90() == v.rotate270(),
{
    lemma_rotate180(v);
    lemma_rotate90(v.rotate180());
    lemma_rotate270(v);
    lemma_raster_ext(v.rotate180().rotate90(), v.rotate270());
}

/// A quarter turn after three quarter turns gives the raster back.
pub proof fn lemma_quarter_after_three(v: RasterView)
    requires
        v.wf(),
    ensures
        v.rotate270().rotate90() == v,
{
    lemma_rotate270(v);
    lemma_rotate90(v.rotate270());
    lemma_raster_ext(v.rotate270().rotate90(), v);
}

/// One more quarter turn adds one to the number of quarters.
pub proof fn lemma_rotate_succ(v: RasterView, quarters: nat)
    requires
        v.wf(),
    ensures
        v.rotate(quarters).rotate90() == v.rotate(quarters + 1),
{
    lemma_quarter_twice(v);
    lemma_quarter_after_half(v);
    lemma_quarter_after_three(v);
}

/// The rotations form a group of order four: turning by `a` quarters and
/// then by `b` quarters is turning by `a + b` quarters, and four quarters
/// give every sample back.
pub proof fn lemma_rotation_group(v: RasterView, a: nat, b: nat)
    requires
        v.wf(),
    ensures
        v.rotate(a).rotate(b) == v.rotate(a + b),
        v.rotate(4) == v,
        v.rotate90().rotate90().rotate90().rotate90() == v,
        v.rotate180().rotate180() == v,
{
    let u = v.rotate(a);
    lemma_rotate_wf(v, a);
    lemma_rotate_succ(v, a);
    lemma_rotate_succ(v, a + 1);
    lemma_rotate_succ(v, a + 2);
    lemma_rotate_wf(u, 1);
    lemma_rotate_wf(u, 2);
    lemma_rotate_succ(u, 0);
    lemma_rotate_succ(u, 1);
    lemma_rotate_succ(u, 2);
    lemma_quarter_twice(v);
    lemma_quarter_after_half(v);
    lemma_quarter_after_three(v);
    lemma_rotate180(v);
    lemma_quarter_twice(v.rotate180());
}

/// A decoded raster: `width * height` pixels of one layout, row by row.
#[derive(Debug)]
pub struct Raster {
    width: u32,
    height: u32,
    kind: PixelKind,
    data: Vec<u8>,
}

impl View for Raster {
    type V = RasterView;

    closed spec fn view(&self) -> RasterView {
        RasterView {
            width: self.width as nat,
            height: self.height as nat,
            kind: self.kind,
            samples: self.data@,
        }
    }
}

impl Clone for Raster {
    fn clone(&self) -> (copy: Self)
        ensures
            copy@ == self@,
    {
        proof {
            use_type_invariant(self);
        }
        let data = self.data.clone();
        Raster { width: self.width, height: self.height, kind: self.kind, data }
    }
}

impl Raster {
    #[verifier::type_invariant]
    spec fn well_formed(self) -> bool {
        self@.wf()
    }

    /// A raster over `data`, or nothing where `data` does not hold exactly
    /// the samples of `width * height` pixels of layout `kind`.
    pub fn new(width: u32, height: u32, kind: PixelKind, data: Vec<u8>) -> (made: Option<Raster>)
        ensures
            made is Some <==> data@.len() == width * height * kind.channel_count(),
            made matches Some(r) ==> r@ == as_view(kind, width, height, data@),
    {
        proof {
            assert(0 <= (width as int) * (height as int) <= 0xffff_ffff * 0xffff_ffff)
                by (nonlinear_arith)
                requires
                    0 <= width <= 0xffff_ffff,
                    0 <= height <= 0xffff_ffff,
            ;
        }
        let pixels: u64 = (width as u64) * (height as u64);
        proof {
            assert(0 <= (pixels as int) * (kind.channel_count() as int) <= 0xffff_ffff_ffff_ffff * 4)
                by (nonlinear_arith)
                requires
                    0 <= pixels <= 0xffff_ffff_ffff_ffff,
                    0 <= kind.channel_count() <= 4,
            ;
        }
        let needed: u128 = (pixels as u128) * (kind.channels() as u128);
        if data.len() as u128 == needed {
            Some(Raster { width, height, kind, data })
        } else {
            None
        }
    }

    pub fn width(&self) -> (w: u32)
        ensures
            w == self@.width,
            self@.height <= u32::MAX,
    {
        self.width
    }

    pub fn height(&self) -> (h: u32)
        ensures
            h == self@.height,
    {
        self.height
    }

    pub fn dimensions(&self) -> (dim: (u32, u32))
        ensures
            dim.0 == self@.width,
            dim.1 == self@.height,
            self@.wf(),
    {
        proof {
            use_type_invariant(self);
        }
        (self.width, self.height)
    }

    pub fn kind(&self) -> (k: PixelKind)
        ensures
            k == self@.kind,
            self@.wf(),
    {
        proof {
            use_type_invariant(self);
        }
        self.kind
    }

    /// The samples, row by row.
    pub fn samples(&self) -> (data: &Vec<u8>)
        ensures
            data@ == self@.samples,
            self@.wf(),
    {
        proof {
            use_type_invariant(self);
        }
        &self.data
    }

    /// Number of pixels.
    pub fn pixel_count(&self) -> (n: usize)
        ensures
            n == self@.width * self@.height,
            self@.wf(),
    {
        let len = self.data.len();
        proof {
            use_type_invariant(self);
            let w = self.width as int;
            let h = self.height as int;
            let c = self.kind.channel_count() as int;
            assert(0 <= w * h <= w * h * c) by (nonlinear_arith)
                requires
                    0 <= w,
                    0 <= h,
                    1 <= c,
            ;
        }
        (self.width as usize) * (self.height as usize)
    }

    /// Channel `k` of the pixel in column `x`, row `y`.
    pub fn sample(&self, x: u32, y: u32, k: usize) -> (s: u8)
        requires
            self@.in_bounds(x as int, y as int, k as int),
        ensures
            s == self@.sample_at(x as int, y as int, k as int),
    {
        let len = self.data.len();
        proof {
            use_type_invariant(self);
            lemma_index_in_range(self@, x as int, y as int, k as int);
            let w = self.width as int;
            let c = self.kind.channel_count() as int;
            let h = self.height as int;
            assert(w * h <= w * h * c) by (nonlinear_arith)
                requires
                    0 <= w * h,
                    1 <= c,
            ;
            assert(0 <= y * w <= y * w + x) by (nonlinear_arith)
                requires
                    0 <= y,
                    0 <= w,
                    0 <= x,
            ;
            assert(0 <= (y * w + x) * c <= (y * w + x) * c + k) by (nonlinear_arith)
                requires
                    0 <= y * w + x,
                    0 <= c,
                    0 <= k,
            ;
        }
        let row: usize = (y as usize) * (self.width as usize);
        let offset: usize = (row + x as usize) * self.kind.channels();
        self.data[offset + k]
    }

    /// The cut-out of at most `w` by `h` pixels whose top-left corner is at
    /// `(x, y)`, clipped to the raster.
    pub fn crop(&self, x: u32, y: u32, w: u32, h: u32) -> (cut: Raster)
        ensures
            cut@ == self@.crop(x as nat, y as nat, w as nat, h as nat),
    {
        proof {
            use_type_invariant(self);
            lemma_crop(self@, x as nat, y as nat, w as nat, h as nat);
        }
        let cx = if x < self.width { x } else { self.width };
        let cy = if y < self.height { y } else { self.height };
        let cw = if w < self.width - cx { w } else { self.width - cx };
        let ch = if h < self.height - cy { h } else { self.height - cy };
        let data = crop_samples(self.kind, self.width, self.height, &self.data, x, y, w, h);
        Raster { width: cw, height: ch, kind: self.kind, data }
    }

    /// The raster turned a quarter clockwise.
    pub fn rotate90(&self) -> (turned: Raster)
        ensures
            turned@ == self@.rotate90(),
    {
        proof {
            use_type_invariant(self);
            lemma_rotate90(self@);
        }
        let data = rotate90_samples(self.kind, self.width, self.height, &self.data);
        Raster { width: self.height, height: self.width, kind: self.kind, data }
    }

    /// The raster turned by a half.
    pub fn rotate180(&self) -> (turned: Raster)
        ensures
            turned@ == self@.rotate180(),
    {
        proof {
            use_type_invariant(self);
            lemma_rotate180(self@);
        }
        let data = rotate180_samples(self.kind, self.width, self.height, &self.data);
        Raster { width: self.width, height: self.height, kind: self.kind, data }
    }

    /// The raster turned three quarters clockwise.
    pub fn rotate270(&self) -> (turned: Raster)
        ensures
            turned@ == self@.rotate270(),
    {
        proof {
            use_type_invariant(self);
            lemma_rotate270(self@);
        }
        let data = rotate270_samples(self.kind, self.width, self.height, &self.data);
        Raster { width: self.height, height: self.width, kind: self.kind, data }
    }
}

} // verus!
