//! A sparse-world glyph compositor: world-positioned renderable sources are
//! projected through a scrollable viewport onto a fixed-size grid of cells,
//! overlaps are resolved by a priority rule, and a pool of per-cell visual
//! sink objects is kept in step with the grid across resizes.

pub mod map;
pub mod player;
pub mod rect;
pub mod terminal;
