//! Hierarchical hexagonal grid cells: resolution-aware bookkeeping for cell
//! sets, buffer sizing, and a typed scalar value model with classifiers for
//! filtering raster samples.

pub mod cell;
pub mod classify;
pub mod sizing;
pub mod value;
