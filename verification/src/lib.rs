//! A minimal software triangle rasterizer over fixed-point coordinates.
//!
//! Every scalar is a signed fixed-point number with sixteen fractional bits,
//! so that orientation tests, edge functions and bounding boxes are computed
//! exactly and can be stated over mathematical integers.

pub mod rasterizer;
