//! Cutting paired image/mask rasters into labelled tiles.
//!
//! The crate holds the tiling-and-labelling engine: colour counting, region
//! enumeration, label classification, tile construction, rotation, and the
//! naming scheme of the written tiles. Reading and writing files is left to
//! the caller, who hands rasters in as plain pixel buffers.

pub mod ans_builder;
pub mod augment_split;
pub mod classifier;
pub mod color_analysis;
pub mod color_values;
pub mod grid;
pub mod image_ops;
pub mod img_reader;
pub mod label;
pub mod manifest_laws;
pub mod naming;
pub mod output;
pub mod pipeline;
pub mod random;
pub mod raster;
pub mod ratio;
pub mod return_type;
pub mod sampling;
pub mod seeds;
pub mod split_data;
pub mod split_image;
pub mod split_offset;
pub mod text;
pub mod tile_builder;
