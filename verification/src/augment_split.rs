//! The configuration of a run.

use vstd::prelude::*;
use crate::img_reader::LabelType;
use crate::label::LabelScheme;
use crate::ratio::Ratio;
use crate::return_type::ImgFormat;
use crate::split_offset::{SplitOffset, DEFAULT_OFFSET};

verus! {

/// How accepted tiles are multiplied by rotation.
#[derive(Clone, Copy, Debug, PartialEq, Eq, Structural)]
pub enum RotationMode {
    /// After each accepted tile, its first `n` quarter-turn rotations (at
    /// most three) are emitted, in the order 90, 180, 270 degrees.
    Fixed(u8),
    /// After each accepted tile, at most one rotation is emitted, chosen by
    /// a seeded draw.
    Stochastic,
}

/// The two kinds of written tiles.
#[derive(Clone, Copy, Debug, PartialEq, Eq, Structural)]
pub enum ImageKind {
    Real,
    Mask,
}

/// The mathematical value of a configuration.
pub struct ConfigView {
    pub img_dir: Seq<char>,
    pub label_type: LabelType,
    pub split_size: Option<(u32, u32)>,
    pub split_offset: (Option<SplitOffset>, Option<SplitOffset>),
    pub img_format: ImgFormat,
    pub discard_barrier: Option<([u8; 3], Ratio)>,
    pub rotation: RotationMode,
    pub output_real: Seq<char>,
    pub output_mask: Option<Seq<char>>,
    pub seed: Option<u64>,
    pub label_scheme: LabelScheme,
}

/// The stride that an offset stands for: its value where that is at least
/// one pixel, the default otherwise.
pub open spec fn stride_of(offset: Option<SplitOffset>) -> u32 {
    match offset {
        Some(o) => if o.value() > 0 {
            o.value()
        } else {
            DEFAULT_OFFSET
        },
        None => DEFAULT_OFFSET,
    }
}

/// The offsets that are kept when a pair of offsets is configured: both
/// are dropped where both are given and one of them is zero.
pub open spec fn checked_offsets(offset: (Option<SplitOffset>, Option<SplitOffset>)) -> (
    Option<SplitOffset>,
    Option<SplitOffset>,
) {
    match offset {
        (Some(a), Some(b)) => if a.value() == 0 || b.value() == 0 {
            (None, None)
        } else {
            offset
        },
        _ => offset,
    }
}

impl ConfigView {
    /// The stride along `x`.
    pub open spec fn stride_x(self) -> u32 {
        stride_of(self.split_offset.0)
    }

    /// The stride along `y`.
    pub open spec fn stride_y(self) -> u32 {
        stride_of(self.split_offset.1)
    }

    /// The number of fixed rotations emitted after each tile.
    pub open spec fn fixed_rotations(self) -> nat {
        match self.rotation {
            RotationMode::Fixed(n) => if n <= 3 {
                n as nat
            } else {
                3
            },
            RotationMode::Stochastic => 0,
        }
    }
}

/// The configuration of a run: where the images are, how they are cut, and
/// where and how the tiles are written.
#[derive(Debug)]
pub struct AugmentSplit {
    img_dir: String,
    label_type: LabelType,
    split_size: Option<(u32, u32)>,
    split_offset: (Option<SplitOffset>, Option<SplitOffset>),
    img_format: ImgFormat,
    discard_barrier: Option<([u8; 3], Ratio)>,
    rotation: RotationMode,
    output_real: String,
    output_mask: Option<String>,
    seed: Option<u64>,
    label_scheme: LabelScheme,
}

/// The characters of a string that may be absent.
pub open spec fn text_of(s: Option<String>) -> Option<Seq<char>> {
    match s {
        Some(t) => Some(t@),
        None => None,
    }
}

impl View for AugmentSplit {
    type V = ConfigView;

    closed spec fn view(&self) -> ConfigView {
        ConfigView {
            img_dir: self.img_dir@,
            label_type: self.label_type,
            split_size: self.split_size,
            split_offset: self.split_offset,
            img_format: self.img_format,
            discard_barrier: self.discard_barrier,
            rotation: self.rotation,
            output_real: self.output_real@,
            output_mask: text_of(self.output_mask),
            seed: self.seed,
            label_scheme: self.label_scheme,
        }
    }
}

impl AugmentSplit {
    /// A configuration from all its parts. No seed is chosen: each run
    /// uses its own default. Masks are written for three classes.
    pub fn build(
        img_dir: String,
        label_type: LabelType,
        split_size: Option<(u32, u32)>,
        split_offset: (Option<SplitOffset>, Option<SplitOffset>),
        img_format: ImgFormat,
        discard_barrier: Option<([u8; 3], Ratio)>,
        rotation: RotationMode,
        output_real: String,
        output_mask: Option<String>,
    ) -> (cfg: AugmentSplit)
        ensures
            cfg@ == (ConfigView {
                img_dir: img_dir@,
                label_type,
                split_size,
                split_offset,
                img_format,
                discard_barrier,
                rotation,
                output_real: output_real@,
                output_mask: text_of(output_mask),
                seed: None,
                label_scheme: LabelScheme::ThreeClass,
            }),
    {
        AugmentSplit {
            img_dir,
            label_type,
            split_size,
            split_offset,
            img_format,
            discard_barrier,
            rotation,
            output_real,
            output_mask,
            seed: None,
            label_scheme: LabelScheme::ThreeClass,
        }
    }

    pub fn get_imgdir(&self) -> (dir: String)
        ensures
            dir@ == self@.img_dir,
    {
        self.img_dir.clone()
    }

    pub fn get_label_type(&self) -> (label_type: LabelType)
        ensures
            label_type == self@.label_type,
    {
        self.label_type.clone()
    }

    pub fn get_img_format(&self) -> (format: ImgFormat)
        ensures
            format == self@.img_format,
    {
        self.img_format
    }

    pub fn get_rotation(&self) -> (mode: RotationMode)
        ensures
            mode == self@.rotation,
    {
        self.rotation
    }

    pub fn get_discard_barrier(&self) -> (barrier: Option<([u8; 3], Ratio)>)
        ensures
            barrier == self@.discard_barrier,
    {
        self.discard_barrier
    }

    pub fn get_seed(&self) -> (seed: Option<u64>)
        ensures
            seed == self@.seed,
    {
        self.seed
    }

    pub fn get_label_scheme(&self) -> (scheme: LabelScheme)
        ensures
            scheme == self@.label_scheme,
    {
        self.label_scheme
    }

    /// Chooses the set of labels that masks are written for.
    pub fn set_label_scheme(&mut self, scheme: LabelScheme)
        ensures
            final(self)@ == (ConfigView { label_scheme: scheme, ..old(self)@ }),
    {
        self.label_scheme = scheme;
    }

    /// Chooses the seed of every run.
    pub fn set_seed(&mut self, seed: u64)
        ensures
            final(self)@ == (ConfigView { seed: Some(seed), ..old(self)@ }),
    {
        self.seed = Some(seed);
    }

    pub fn set_split_size(&mut self, x: u32, y: u32)
        ensures
            final(self)@ == (ConfigView { split_size: Some((x, y)), ..old(self)@ }),
    {
        self.split_size = Some((x, y));
    }

    /// The configured tile size; `(0, 0)` where none is configured.
    pub fn get_split_size(&self) -> (size: (u32, u32))
        ensures
            size == match self@.split_size {
                Some(s) => s,
                None => (0u32, 0u32),
            },
    {
        match self.split_size {
            Some((x, y)) => (x, y),
            None => (0, 0),
        }
    }

    /// The configured tile size.
    pub fn split_size(&self) -> (size: Option<(u32, u32)>)
        ensures
            size == self@.split_size,
    {
        self.split_size
    }

    /// Sets the strides; an axis without a value gets the default.
    pub fn set_split_offset(&mut self, x: Option<u32>, y: Option<u32>)
        ensures
            final(self)@ == (ConfigView {
                split_offset: (
                    Some(
                        match x {
                            Some(v) => SplitOffset::Val(v),
                            None => SplitOffset::Random,
                        },
                    ),
                    Some(
                        match y {
                            Some(v) => SplitOffset::Val(v),
                            None => SplitOffset::Random,
                        },
                    ),
                ),
                ..old(self)@
            }),
    {
        let ox = match x {
            Some(v) => SplitOffset::Val(v),
            None => SplitOffset::Random,
        };
        let oy = match y {
            Some(v) => SplitOffset::Val(v),
            None => SplitOffset::Random,
        };
        self.split_offset = (Some(ox), Some(oy));
    }

    /// The strides along `x` and `y`.
    pub fn strides(&self) -> (strides: (u32, u32))
        ensures
            strides.0 == self@.stride_x(),
            strides.1 == self@.stride_y(),
            strides.0 >= 1,
            strides.1 >= 1,
    {
        (resolve_stride(&self.split_offset.0), resolve_stride(&self.split_offset.1))
    }

    /// The directory that tiles of a kind are written to, relative to the
    /// parent of the image directory; nothing for mask tiles where no
    /// mask output is configured.
    pub fn output_dir(&self, kind: ImageKind) -> (dir: Option<&str>)
        ensures
            match kind {
                ImageKind::Real => dir matches Some(d) && d@ == self@.output_real,
                ImageKind::Mask => match self@.output_mask {
                    Some(m) => dir matches Some(d) && d@ == m,
                    None => dir is None,
                },
            },
    {
        match kind {
            ImageKind::Real => Some(self.output_real.as_str()),
            ImageKind::Mask => match &self.output_mask {
                Some(m) => Some(m.as_str()),
                None => None,
            },
        }
    }

    /// Whether mask tiles are written.
    pub fn writes_masks(&self) -> (yes: bool)
        ensures
            yes == self@.output_mask is Some,
    {
        self.output_mask.is_some()
    }
}

/// The stride that an offset stands for.
pub fn resolve_stride(offset: &Option<SplitOffset>) -> (stride: u32)
    ensures
        stride == stride_of(*offset),
        stride >= 1,
{
    match offset {
        Some(o) => {
            let v = o.get_value();
            if v > 0 {
                v
            } else {
                DEFAULT_OFFSET
            }
        },
        None => DEFAULT_OFFSET,
    }
}

} // verus!
