//! Tiles: crops of an image pair with their label and geometry.

use vstd::prelude::*;
use vstd::string::StringExecFns;
use crate::label::Label;
use crate::naming::{decimal, push_decimal};
use crate::random::{draw_below, first_draw};
use crate::raster::{Raster, RasterView};

verus! {

/// The mathematical value of a tile.
pub struct TileView {
    pub source: Seq<char>,
    pub real: Option<RasterView>,
    pub mask: Option<RasterView>,
    pub label: Option<Label>,
    pub dimension: (u32, u32),
    pub rotation: u8,
    pub x_offset: u32,
    pub y_offset: u32,
}

/// The value of a raster that may be absent.
pub open spec fn view_of(raster: Option<Raster>) -> Option<RasterView> {
    match raster {
        Some(r) => Some(r@),
        None => None,
    }
}

/// A raster that may be absent, turned by `quarters` quarter turns.
pub open spec fn turned(raster: Option<RasterView>, quarters: nat) -> Option<RasterView> {
    match raster {
        Some(r) => Some(r.rotate(quarters)),
        None => None,
    }
}

/// The rotation that two draws select: with a first draw below 40 of 100,
/// one more quarter turn than the second draw of 3 says; none otherwise.
pub open spec fn rotation_choice(gate: u32, pick: u32) -> Option<u8> {
    if gate < 40 && pick < 3 {
        Some((pick + 1) as u8)
    } else {
        None
    }
}

/// The seed of the second draw of a tile.
pub open spec fn next_seed(seed: u64) -> u64 {
    if seed == u64::MAX {
        0
    } else {
        (seed + 1) as u64
    }
}

impl TileView {
    /// The tile turned clockwise by `quarters` quarter turns: both rasters
    /// are turned alike, and the rotation index advances modulo four.
    pub open spec fn rotated(self, quarters: nat) -> TileView {
        TileView {
            real: turned(self.real, quarters),
            mask: turned(self.mask, quarters),
            rotation: ((self.rotation + quarters) % 4) as u8,
            ..self
        }
    }

    /// The rotated variant that the draws `gate` and `pick` select.
    pub open spec fn rotated_by_draws(self, gate: u32, pick: u32) -> Option<TileView> {
        match rotation_choice(gate, pick) {
            Some(quarters) => Some(self.rotated(quarters as nat)),
            None => None,
        }
    }

    /// The rotated variant that the generator seeded with `seed` selects.
    pub open spec fn random_rotation(self, seed: u64) -> Option<TileView> {
        self.rotated_by_draws(first_draw(seed, 100), first_draw(next_seed(seed), 3))
    }

    /// The text that describes the tile.
    pub open spec fn description(self) -> Seq<char> {
        self.source + seq!['\n', 'x', ':', ' '] + decimal(self.x_offset as nat) + seq![
            ',',
            ' ',
            'y',
            ':',
            ' ',
        ] + decimal(self.y_offset as nat) + seq!['\n']
    }
}

/// A tile: a crop of a real image and of its mask, with the label, the
/// size, the rotation index and the offset of the crop in its source.
#[derive(Debug)]
pub struct SplitImage {
    source: String,
    pub real: Option<Raster>,
    pub mask: Option<Raster>,
    pub label: Option<Label>,
    dimension: (u32, u32),
    pub rotation: u8,
    x_offset: u32,
    y_offset: u32,
}

impl View for SplitImage {
    type V = TileView;

    closed spec fn view(&self) -> TileView {
        TileView {
            source: self.source@,
            real: view_of(self.real),
            mask: view_of(self.mask),
            label: self.label,
            dimension: self.dimension,
            rotation: self.rotation,
            x_offset: self.x_offset,
            y_offset: self.y_offset,
        }
    }
}

/// A copy of a raster that may be absent.
pub fn clone_raster(raster: &Option<Raster>) -> (copy: Option<Raster>)
    ensures
        view_of(copy) == view_of(*raster),
{
    match raster {
        Some(r) => Some(r.clone()),
        None => None,
    }
}

/// A raster that may be absent, turned by `quarters` quarter turns.
pub fn turn_raster(raster: &Option<Raster>, quarters: u8) -> (out: Option<Raster>)
    ensures
        view_of(out) == turned(view_of(*raster), quarters as nat),
{
    match raster {
        Some(r) => {
            let q = quarters % 4;
            if q == 1 {
                Some(r.rotate90())
            } else if q == 2 {
                Some(r.rotate180())
            } else if q == 3 {
                Some(r.rotate270())
            } else {
                Some(r.clone())
            }
        },
        None => None,
    }
}

impl Clone for SplitImage {
    fn clone(&self) -> (copy: Self)
        ensures
            copy@ == self@,
    {
        SplitImage {
            source: self.source.clone(),
            real: clone_raster(&self.real),
            mask: clone_raster(&self.mask),
            label: self.label,
            dimension: self.dimension,
            rotation: self.rotation,
            x_offset: self.x_offset,
            y_offset: self.y_offset,
        }
    }
}

impl SplitImage {
    /// A labelled tile with both rasters.
    pub fn new(
        src: &String,
        real_crop: Raster,
        mask_crop: Raster,
        label: Label,
        dim: (u32, u32),
        rot: u8,
        x: u32,
        y: u32,
    ) -> (tile: SplitImage)
        ensures
            tile@ == (TileView {
                source: src@,
                real: Some(real_crop@),
                mask: Some(mask_crop@),
                label: Some(label),
                dimension: dim,
                rotation: rot,
                x_offset: x,
                y_offset: y,
            }),
    {
        SplitImage {
            source: src.clone(),
            real: Some(real_crop),
            mask: Some(mask_crop),
            label: Some(label),
            dimension: dim,
            rotation: rot,
            x_offset: x,
            y_offset: y,
        }
    }

    /// An empty tile of known geometry.
    pub fn build(src: &String, x_dim: u32, y_dim: u32, rot: u8, x: u32, y: u32) -> (tile:
        SplitImage)
        ensures
            tile@ == (TileView {
                source: src@,
                real: None,
                mask: None,
                label: None,
                dimension: (x_dim, y_dim),
                rotation: rot,
                x_offset: x,
                y_offset: y,
            }),
    {
        SplitImage {
            source: src.clone(),
            real: None,
            mask: None,
            label: None,
            dimension: (x_dim, y_dim),
            rotation: rot,
            x_offset: x,
            y_offset: y,
        }
    }

    /// The source name and the offset of the tile, as text:
    /// the name, a line break, `x: <x>, y: <y>` and a line break.
    pub fn describe(&self) -> (text: String)
        ensures
            text@ == self@.description(),
    {
        proof {
            reveal_strlit("\nx: ");
            reveal_strlit(", y: ");
            reveal_strlit("\n");
        }
        let mut text = self.source.clone();
        text.append("\nx: ");
        push_decimal(&mut text, self.x_offset);
        text.append(", y: ");
        push_decimal(&mut text, self.y_offset);
        text.append("\n");
        text
    }

    pub fn get_name(&self) -> (name: &str)
        ensures
            name@ == self@.source,
    {
        self.source.as_str()
    }

    pub fn get_x_dim(&self) -> (w: u32)
        ensures
            w == self@.dimension.0,
    {
        self.dimension.0
    }

    pub fn get_y_dim(&self) -> (h: u32)
        ensures
            h == self@.dimension.1,
    {
        self.dimension.1
    }

    pub fn get_x_offset(&self) -> (x: u32)
        ensures
            x == self@.x_offset,
    {
        self.x_offset
    }

    pub fn get_y_offset(&self) -> (y: u32)
        ensures
            y == self@.y_offset,
    {
        self.y_offset
    }

    pub fn get_real(&self) -> (raster: &Option<Raster>)
        ensures
            view_of(*raster) == self@.real,
    {
        &self.real
    }

    pub fn get_mask(&self) -> (raster: &Option<Raster>)
        ensures
            view_of(*raster) == self@.mask,
    {
        &self.mask
    }

    pub fn get_label(&self) -> (label: Option<Label>)
        ensures
            label == self@.label,
    {
        self.label
    }

    pub fn set_real(&mut self, img: Raster)
        ensures
            final(self)@ == (TileView { real: Some(img@), ..old(self)@ }),
    {
        self.real = Some(img);
    }

    pub fn set_mask(&mut self, img: Raster)
        ensures
            final(self)@ == (TileView { mask: Some(img@), ..old(self)@ }),
    {
        self.mask = Some(img);
    }

    pub fn get_rotation(&self) -> (r: u8)
        ensures
            r == self@.rotation,
    {
        self.rotation
    }

    pub fn set_rotation(&mut self, r: u8)
        ensures
            final(self)@ == (TileView { rotation: r, ..old(self)@ }),
    {
        self.rotation = r;
    }

    /// The tile turned clockwise by `quarters` quarter turns.
    pub fn rotated(&self, quarters: u8) -> (tile: SplitImage)
        ensures
            tile@ == self@.rotated(quarters as nat),
    {
        SplitImage {
            source: self.source.clone(),
            real: turn_raster(&self.real, quarters),
            mask: turn_raster(&self.mask, quarters),
            label: self.label,
            dimension: self.dimension,
            rotation: (((self.rotation % 4) + (quarters % 4)) % 4),
            x_offset: self.x_offset,
            y_offset: self.y_offset,
        }
    }

    /// The rotated variant that two draws select, the first below 100 and
    /// the second below 3: with a first draw below 40, the tile turned by
    /// one quarter more than the second draw says; none otherwise.
    pub fn rotated_by_draws(self, gate: u32, pick: u32) -> (variant: Option<SplitImage>)
        ensures
            view_of_tile(variant) == self@.rotated_by_draws(gate, pick),
    {
        if gate < 40 && pick < 3 {
            Some(self.rotated((pick + 1) as u8))
        } else {
            None
        }
    }

    /// The rotated variant that a generator seeded with `seed` selects. In
    /// four cases of ten there is one, each of the three rotations being
    /// as likely as the others. The same tile and seed give the same
    /// variant.
    pub fn random_rotation(self, seed: u64) -> (variant: Option<SplitImage>)
        ensures
            view_of_tile(variant) == self@.random_rotation(seed),
    {
        let gate = draw_below(seed, 100);
        let second = if seed == u64::MAX { 0 } else { seed + 1 };
        let pick = draw_below(second, 3);
        self.rotated_by_draws(gate, pick)
    }
}

/// The value of a tile that may be absent.
pub open spec fn view_of_tile(tile: Option<SplitImage>) -> Option<TileView> {
    match tile {
        Some(t) => Some(t@),
        None => None,
    }
}

} // verus!
