//! Building a configuration step by step.

use vstd::prelude::*;
use vstd::string::StringExecFns;
use crate::augment_split::{checked_offsets, text_of, AugmentSplit, ConfigView, RotationMode};
use crate::img_reader::LabelType;
use crate::label::LabelScheme;
use crate::return_type::{ImgFormat, RasterFormat};
use crate::split_offset::SplitOffset;

verus! {

/// The mandatory field that a configuration lacks.
#[derive(Clone, Copy, Debug, PartialEq, Eq, Structural)]
pub enum ConfigError {
    /// No image directory was set.
    MissingImgDir,
    /// No label source was set.
    MissingLabelType,
    /// No output path for the real tiles was set.
    MissingOutputReal,
}

/// The mathematical value of a configuration under construction.
pub struct BuilderView {
    pub img_dir: Option<Seq<char>>,
    pub label_type: Option<LabelType>,
    pub split_size: Option<(u32, u32)>,
    pub split_offset: (Option<SplitOffset>, Option<SplitOffset>),
    pub img_format: Option<ImgFormat>,
    pub rotation: RotationMode,
    pub output_real: Option<Seq<char>>,
    pub output_mask: Option<Seq<char>>,
    pub seed: Option<u64>,
    pub label_scheme: LabelScheme,
}

impl BuilderView {
    /// The configuration that the builder stands for, or the first
    /// mandatory field that is missing. Without an output format, tiles
    /// are written as PNG.
    pub open spec fn finished(self) -> Result<ConfigView, ConfigError> {
        if self.img_dir is None {
            Err(ConfigError::MissingImgDir)
        } else if self.label_type is None {
            Err(ConfigError::MissingLabelType)
        } else if self.output_real is None {
            Err(ConfigError::MissingOutputReal)
        } else {
            Ok(
                ConfigView {
                    img_dir: self.img_dir->0,
                    label_type: self.label_type->0,
                    split_size: self.split_size,
                    split_offset: self.split_offset,
                    img_format: match self.img_format {
                        Some(f) => f,
                        None => ImgFormat::Img(RasterFormat::Png),
                    },
                    discard_barrier: None,
                    rotation: self.rotation,
                    output_real: self.output_real->0,
                    output_mask: self.output_mask,
                    seed: self.seed,
                    label_scheme: self.label_scheme,
                },
            )
        }
    }
}

/// A configuration under construction.
#[derive(Debug)]
pub struct AugmentSplitBuilder {
    img_dir: Option<String>,
    label_type: Option<LabelType>,
    split_size: Option<(u32, u32)>,
    split_offset: (Option<SplitOffset>, Option<SplitOffset>),
    img_format: Option<ImgFormat>,
    rotation: RotationMode,
    output_real: Option<String>,
    output_mask: Option<String>,
    seed: Option<u64>,
    label_scheme: LabelScheme,
}

impl View for AugmentSplitBuilder {
    type V = BuilderView;

    closed spec fn view(&self) -> BuilderView {
        BuilderView {
            img_dir: text_of(self.img_dir),
            label_type: self.label_type,
            split_size: self.split_size,
            split_offset: self.split_offset,
            img_format: self.img_format,
            rotation: self.rotation,
            output_real: text_of(self.output_real),
            output_mask: text_of(self.output_mask),
            seed: self.seed,
            label_scheme: self.label_scheme,
        }
    }
}

impl AugmentSplitBuilder {
    /// A builder with nothing set, no rotation and three classes.
    pub fn new() -> (builder: AugmentSplitBuilder)
        ensures
            builder@ == (BuilderView {
                img_dir: None,
                label_type: None,
                split_size: None,
                split_offset: (None, None),
                img_format: None,
                rotation: RotationMode::Fixed(0),
                output_real: None,
                output_mask: None,
                seed: None,
                label_scheme: LabelScheme::ThreeClass,
            }),
    {
        AugmentSplitBuilder {
            img_dir: None,
            label_type: None,
            split_size: None,
            split_offset: (None, None),
            img_format: None,
            rotation: RotationMode::Fixed(0),
            output_real: None,
            output_mask: None,
            seed: None,
            label_scheme: LabelScheme::ThreeClass,
        }
    }

    pub fn set_img_dir(self, path: String) -> (builder: AugmentSplitBuilder)
        ensures
            builder@ == (BuilderView { img_dir: Some(path@), ..self@ }),
    {
        let mut builder = self;
        builder.img_dir = Some(path);
        builder
    }

    pub fn set_output_real(self, path: &str) -> (builder: AugmentSplitBuilder)
        ensures
            builder@ == (BuilderView { output_real: Some(path@), ..self@ }),
    {
        let mut builder = self;
        builder.output_real = Some(String::from_str(path));
        builder
    }

    pub fn set_output_mask(self, path: &str) -> (builder: AugmentSplitBuilder)
        ensures
            builder@ == (BuilderView { output_mask: Some(path@), ..self@ }),
    {
        let mut builder = self;
        builder.output_mask = Some(String::from_str(path));
        builder
    }

    pub fn set_label_type(self, label_type: LabelType) -> (builder: AugmentSplitBuilder)
        ensures
            builder@ == (BuilderView { label_type: Some(label_type), ..self@ }),
    {
        let mut builder = self;
        builder.label_type = Some(label_type);
        builder
    }

    pub fn set_split_size(self, size: Option<(u32, u32)>) -> (builder: AugmentSplitBuilder)
        ensures
            builder@ == (BuilderView { split_size: size, ..self@ }),
    {
        let mut builder = self;
        builder.split_size = size;
        builder
    }

    /// Switches to stochastic rotation.
    pub fn with_rotation(self) -> (builder: AugmentSplitBuilder)
        ensures
            builder@ == (BuilderView { rotation: RotationMode::Stochastic, ..self@ }),
    {
        let mut builder = self;
        builder.rotation = RotationMode::Stochastic;
        builder
    }

    /// Switches to a fixed number of rotated variants per tile.
    pub fn with_rotation_count(self, count: u8) -> (builder: AugmentSplitBuilder)
        ensures
            builder@ == (BuilderView { rotation: RotationMode::Fixed(count), ..self@ }),
    {
        let mut builder = self;
        builder.rotation = RotationMode::Fixed(count);
        builder
    }

    /// Sets the strides. Where both are given and one of them is zero,
    /// both are dropped.
    pub fn set_split_offset(self, offset: (Option<SplitOffset>, Option<SplitOffset>)) -> (builder:
        AugmentSplitBuilder)
        ensures
            builder@ == (BuilderView { split_offset: checked_offsets(offset), ..self@ }),
    {
        let mut builder = self;
        let kept = match offset {
            (Some(a), Some(b)) => {
                if a.get_value() == 0 || b.get_value() == 0 {
                    (None, None)
                } else {
                    offset
                }
            },
            _ => offset,
        };
        builder.split_offset = kept;
        builder
    }

    pub fn set_img_type(self, format: RasterFormat) -> (builder: AugmentSplitBuilder)
        ensures
            builder@ == (BuilderView { img_format: Some(ImgFormat::Img(format)), ..self@ }),
    {
        let mut builder = self;
        builder.img_format = Some(ImgFormat::Img(format));
        builder
    }

    /// Chooses the set of labels that masks are written for.
    pub fn set_label_scheme(self, scheme: LabelScheme) -> (builder: AugmentSplitBuilder)
        ensures
            builder@ == (BuilderView { label_scheme: scheme, ..self@ }),
    {
        let mut builder = self;
        builder.label_scheme = scheme;
        builder
    }

    /// Chooses the seed of every run.
    pub fn set_seed(self, seed: u64) -> (builder: AugmentSplitBuilder)
        ensures
            builder@ == (BuilderView { seed: Some(seed), ..self@ }),
    {
        let mut builder = self;
        builder.seed = Some(seed);
        builder
    }

    /// The configuration, or the first mandatory field that is missing:
    /// the image directory, the label source, or the output path of the
    /// real tiles.
    pub fn build(self) -> (built: Result<AugmentSplit, ConfigError>)
        ensures
            match built {
                Ok(cfg) => self@.finished() == Ok::<ConfigView, ConfigError>(cfg@),
                Err(e) => self@.finished() == Err::<ConfigView, ConfigError>(e),
            },
    {
        let img_dir = match self.img_dir {
            Some(dir) => dir,
            None => {
                return Err(ConfigError::MissingImgDir);
            },
        };
        let label_type = match self.label_type {
            Some(label_type) => label_type,
            None => {
                return Err(ConfigError::MissingLabelType);
            },
        };
        let output_real = match self.output_real {
            Some(path) => path,
            None => {
                return Err(ConfigError::MissingOutputReal);
            },
        };
        let img_format = match self.img_format {
            Some(format) => format,
            None => ImgFormat::Img(RasterFormat::Png),
        };
        let mut cfg = AugmentSplit::build(
            img_dir,
            label_type,
            self.split_size,
            self.split_offset,
            img_format,
            None,
            self.rotation,
            output_real,
            self.output_mask,
        );
        cfg.set_label_scheme(self.label_scheme);
        match self.seed {
            Some(seed) => {
                cfg.set_seed(seed);
            },
            None => {},
        }
        Ok(cfg)
    }
}

} // verus!
