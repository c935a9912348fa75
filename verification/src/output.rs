//! What a run hands to the writer: the tile files in the order in which
//! they are produced, and the manifest that lists the real tiles.

use vstd::prelude::*;
use crate::augment_split::{AugmentSplit, ConfigView, ImageKind, RotationMode};
use crate::label::{Label, LabelScheme};
use crate::naming::{manifest_line, push_manifest_line, tile_file_name, tile_name};
use crate::raster::{PixelKind, Raster, RasterView};
use crate::split_image::{SplitImage, TileView};

verus! {

/// The mathematical value of a tile file.
pub struct TileFileView {
    pub kind: ImageKind,
    pub name: Seq<char>,
    pub raster: RasterView,
}

/// A tile to be written: its kind, which decides the directory, its file
/// name, and its pixels.
#[derive(Debug)]
pub struct TileFile {
    pub kind: ImageKind,
    pub name: String,
    pub raster: Raster,
}

impl View for TileFile {
    type V = TileFileView;

    open spec fn view(&self) -> TileFileView {
        TileFileView { kind: self.kind, name: self.name@, raster: self.raster@ }
    }
}

/// The values of a sequence of tile files.
pub open spec fn views(files: Seq<TileFile>) -> Seq<TileFileView> {
    Seq::new(files.len(), |i: int| files[i]@)
}

/// The intensity that the foreground of a written mask gets: that of the
/// tile's label, or 0 where the tile has none.
pub open spec fn intensity_of(label: Option<Label>, scheme: LabelScheme) -> u8 {
    match label {
        Some(l) => l.mask_intensity(scheme),
        None => 0,
    }
}

/// The mask as it is written: every sample that is not zero becomes the
/// intensity of the label, every other sample stays zero.
pub open spec fn coded_mask(mask: RasterView, label: Option<Label>, scheme: LabelScheme) -> RasterView {
    RasterView {
        samples: Seq::new(
            mask.samples.len(),
            |i: int| if mask.samples[i] != 0 {
                intensity_of(label, scheme)
            } else {
                0u8
            },
        ),
        ..mask
    }
}

/// The real file of a tile: the real raster under the tile's name, where
/// the tile has a label and the raster is there and has three channels.
pub open spec fn real_file(cfg: ConfigView, tile: TileView) -> Seq<TileFileView> {
    match tile.real {
        Some(r) => if r.kind == PixelKind::Rgb8 && tile.label is Some {
            seq![
                TileFileView {
                    kind: ImageKind::Real,
                    name: tile_name(
                        tile.source,
                        tile.x_offset,
                        tile.y_offset,
                        tile.rotation,
                        tile.label,
                        cfg.img_format,
                    ),
                    raster: r,
                },
            ]
        } else {
            Seq::empty()
        },
        None => Seq::empty(),
    }
}

/// The mask file of a tile: the coded mask under the tile's name, where a
/// mask output is configured and the mask is there and has one channel.
pub open spec fn mask_file(cfg: ConfigView, tile: TileView) -> Seq<TileFileView> {
    match tile.mask {
        Some(m) => if m.kind == PixelKind::Luma8 && cfg.output_mask is Some {
            seq![
                TileFileView {
                    kind: ImageKind::Mask,
                    name: tile_name(
                        tile.source,
                        tile.x_offset,
                        tile.y_offset,
                        tile.rotation,
                        tile.label,
                        cfg.img_format,
                    ),
                    raster: coded_mask(m, tile.label, cfg.label_scheme),
                },
            ]
        } else {
            Seq::empty()
        },
        None => Seq::empty(),
    }
}

/// The files of one tile: the real file, then the mask file.
pub open spec fn files_of(cfg: ConfigView, tile: TileView) -> Seq<TileFileView> {
    real_file(cfg, tile) + mask_file(cfg, tile)
}

/// The files of the rotated variants that follow a tile.
pub open spec fn variant_files(cfg: ConfigView, tile: TileView, seed: u64) -> Seq<TileFileView> {
    match cfg.rotation {
        RotationMode::Fixed(_) => (if cfg.fixed_rotations() >= 1 {
            files_of(cfg, tile.rotated(1))
        } else {
            Seq::empty()
        }) + (if cfg.fixed_rotations() >= 2 {
            files_of(cfg, tile.rotated(2))
        } else {
            Seq::empty()
        }) + (if cfg.fixed_rotations() >= 3 {
            files_of(cfg, tile.rotated(3))
        } else {
            Seq::empty()
        }),
        RotationMode::Stochastic => match tile.random_rotation(seed) {
            Some(v) => files_of(cfg, v),
            None => Seq::empty(),
        },
    }
}

/// Everything that an accepted tile gives rise to: its own files, then
/// those of its rotated variants.
pub open spec fn emitted_files(cfg: ConfigView, tile: TileView, seed: u64) -> Seq<TileFileView> {
    files_of(cfg, tile) + variant_files(cfg, tile, seed)
}

/// The manifest of a sequence of files: one line for each real file, in
/// the order of the files.
pub open spec fn manifest_of(files: Seq<TileFileView>) -> Seq<char>
    decreases files.len(),
{
    if files.len() == 0 {
        Seq::empty()
    } else {
        manifest_of(files.drop_last()) + (if files.last().kind == ImageKind::Real {
            manifest_line(files.last().name)
        } else {
            Seq::empty()
        })
    }
}

/// The number of real files among `files`.
pub open spec fn real_count(files: Seq<TileFileView>) -> nat
    decreases files.len(),
{
    if files.len() == 0 {
        0
    } else {
        real_count(files.drop_last()) + (if files.last().kind == ImageKind::Real {
            1nat
        } else {
            0nat
        })
    }
}

/// The number of line breaks in a text.
pub open spec fn line_breaks(text: Seq<char>) -> nat
    decreases text.len(),
{
    if text.len() == 0 {
        0
    } else {
        line_breaks(text.drop_last()) + (if text.last() == '\n' {
            1nat
        } else {
            0nat
        })
    }
}

/// The line breaks of two texts add up in their concatenation.
pub proof fn lemma_line_breaks_add(a: Seq<char>, b: Seq<char>)
    ensures
        line_breaks(a + b) == line_breaks(a) + line_breaks(b),
    decreases b.len(),
{
    if b.len() > 0 {
        assert((a + b).drop_last() =~= a + b.drop_last());
        lemma_line_breaks_add(a, b.drop_last());
    }
}

/// The manifest has as many lines as real tiles were written, rotated
/// variants included, provided that no file name holds a line break.
pub proof fn lemma_manifest_lines(files: Seq<TileFileView>)
    requires
        forall|i: int| 0 <= i < files.len() ==> line_breaks(#[trigger] files[i].name) == 0,
    ensures
        line_breaks(manifest_of(files)) == real_count(files),
    decreases files.len(),
{
    if files.len() > 0 {
        let rest = files.drop_last();
        let last = files.last();
        assert(forall|i: int| 0 <= i < rest.len() ==> line_breaks(#[trigger] rest[i].name) == 0);
        lemma_manifest_lines(rest);
        if last.kind == ImageKind::Real {
            let line = manifest_line(last.name);
            lemma_line_breaks_add(seq!['/'], last.name);
            lemma_line_breaks_add(seq!['/'] + last.name, seq!['\n']);
            assert(seq!['/'].drop_last() =~= Seq::<char>::empty());
            assert(seq!['\n'].drop_last() =~= Seq::<char>::empty());
            assert(line_breaks(Seq::<char>::empty()) == 0);
            lemma_line_breaks_add(manifest_of(rest), line);
        }
    }
}

/// The manifest of two runs of files is the manifest of the first
/// followed by that of the second: manifests accumulate.
pub proof fn lemma_manifest_add(a: Seq<TileFileView>, b: Seq<TileFileView>)
    ensures
        manifest_of(a + b) == manifest_of(a) + manifest_of(b),
        real_count(a + b) == real_count(a) + real_count(b),
    decreases b.len(),
{
    if b.len() > 0 {
        assert((a + b).drop_last() =~= a + b.drop_last());
        lemma_manifest_add(a, b.drop_last());
    }
}

/// The mask as it is written for a label.
pub fn code_mask(mask: &Raster, label: Option<Label>, scheme: LabelScheme) -> (coded: Raster)
    ensures
        coded@ == coded_mask(mask@, label, scheme),
{
    let value: u8 = match label {
        Some(l) => l.intensity(scheme),
        None => 0,
    };
    let data = mask.samples();
    let mut out: Vec<u8> = Vec::new();
    let mut i: usize = 0;
    while i < data.len()
        invariant
            i <= data@.len(),
            value == intensity_of(label, scheme),
            out@ == coded_mask(mask@, label, scheme).samples.take(i as int),
            data@ == mask@.samples,
        decreases data@.len() - i,
    {
        let coded: u8 = if data[i] != 0 { value } else { 0 };
        out.push(coded);
        i = i + 1;
    }
    assert(out@ =~= coded_mask(mask@, label, scheme).samples);
    let (width, height) = mask.dimensions();
    let made = Raster::new(width, height, mask.kind(), out);
    made.unwrap()
}

/// The manifest of a sequence of files.
pub fn manifest_for(files: &Vec<TileFile>) -> (manifest: String)
    ensures
        manifest@ == manifest_of(views(files@)),
{
    let mut manifest = String::new();
    let mut i: usize = 0;
    while i < files.len()
        invariant
            i <= files@.len(),
            manifest@ == manifest_of(views(files@).take(i as int)),
        decreases files@.len() - i,
    {
        let ghost before = views(files@).take(i as int);
        let ghost after = views(files@).take(i + 1);
        proof {
            assert(after.drop_last() =~= before);
        }
        match files[i].kind {
            ImageKind::Real => {
                push_manifest_line(&mut manifest, files[i].name.as_str());
            },
            ImageKind::Mask => {},
        }
        i = i + 1;
    }
    assert(views(files@).take(files@.len() as int) =~= views(files@));
    manifest
}

impl AugmentSplit {
    /// The file name of a tile.
    pub fn create_name(&self, split_image: &SplitImage) -> (name: String)
        ensures
            name@ == tile_name(
                split_image@.source,
                split_image@.x_offset,
                split_image@.y_offset,
                split_image@.rotation,
                split_image@.label,
                self@.img_format,
            ),
    {
        let format = self.get_img_format();
        tile_file_name(
            split_image.get_name(),
            split_image.get_x_offset(),
            split_image.get_y_offset(),
            split_image.get_rotation(),
            split_image.get_label(),
            &format,
        )
    }

    /// Appends the files of one tile: the real raster, where the tile is
    /// labelled and the raster has three channels, and the coded mask,
    /// where it has one channel and a mask output is configured.
    pub fn tile_files(&self, split_image: &SplitImage, files: &mut Vec<TileFile>)
        ensures
            views(final(files)@) == views(old(files)@) + files_of(self@, split_image@),
    {
        match split_image.get_real() {
            Some(r) => {
                if r.kind() == PixelKind::Rgb8 && split_image.get_label().is_some() {
                    let name = self.create_name(split_image);
                    let file = TileFile { kind: ImageKind::Real, name, raster: r.clone() };
                    files.push(file);
                }
            },
            None => {},
        }
        match split_image.get_mask() {
            Some(m) => {
                if m.kind() == PixelKind::Luma8 && self.writes_masks() {
                    let name = self.create_name(split_image);
                    let raster = code_mask(m, split_image.get_label(), self.get_label_scheme());
                    let file = TileFile { kind: ImageKind::Mask, name, raster };
                    files.push(file);
                }
            },
            None => {},
        }
    }

    /// Appends everything that an accepted tile gives rise to: its own
    /// files and those of its rotated variants. With a fixed rotation
    /// count the variants are the rotations by 90, 180 and 270 degrees, as
    /// many as are configured; in stochastic mode the variant, if any, is
    /// the one that the generator seeded with `seed` selects.
    pub fn save(&self, split: SplitImage, seed: u64, files: &mut Vec<TileFile>)
        ensures
            views(final(files)@) == views(old(files)@) + emitted_files(self@, split@, seed),
    {
        self.tile_files(&split, files);
        match self.get_rotation() {
            RotationMode::Fixed(n) => {
                if n >= 1 {
                    let variant = split.rotated(1);
                    self.tile_files(&variant, files);
                }
                if n >= 2 {
                    let variant = split.rotated(2);
                    self.tile_files(&variant, files);
                }
                if n >= 3 {
                    let variant = split.rotated(3);
                    self.tile_files(&variant, files);
                }
            },
            RotationMode::Stochastic => {
                match split.random_rotation(seed) {
                    Some(variant) => {
                        self.tile_files(&variant, files);
                    },
                    None => {},
                }
            },
        }
    }
}

} // verus!
