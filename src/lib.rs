//! Selection engine behind a "random nearby pub" service: normalization of
//! raw map records, the directional cone filter, and duplicate-free sampling.
//!
//! Coordinates and angles are fixed-point integers in millionths of a degree.

pub mod geo;
pub mod osm;
pub mod roulette;
