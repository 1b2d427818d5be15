//! Rendering of one 256x256 raster map tile from a stream of text commands.
//!
//! A stream is a sequence of lines. Each line sets the tile's position in the
//! slippy-map grid, opens a new layer of markers, or places one marker in the
//! open layer. Layers are flattened onto the tile in the order in which they
//! were opened.
//!
//! Real numbers (longitudes, latitudes, marker widths) are carried through
//! this library as IEEE 754 binary64 bit patterns held in `u64`. The library
//! never does arithmetic on them: projecting a point and building the outline
//! of its marker is left to the caller, who hands the outline back to be
//! painted.

pub mod canvas;
pub mod color;
pub mod command;
pub mod error;
pub mod json;
pub mod stream;
pub mod tile;
