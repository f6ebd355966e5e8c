//! Stroke styling and elliptical-arc geometry for a 2-D renderer.
//!
//! Numbers are single-precision values carried as IEEE-754 bit patterns
//! ([`Scalar`]). Everything the library decides about a number is computed on
//! its bits and proved against the exact value the bits denote.

pub mod arc;
pub mod color;
pub mod geometry;
mod hashing;
pub mod scalar;
pub mod stroke;

pub use arc::{
    needs_full_turn, sample_parameters, segment_count, tolerance_or_default, ArcShape,
    ArcShapeKey, Parameter,
};
pub use color::{paint_gives, Color32, ColorMode, PaintFn};
pub use geometry::{PairKey, Pos2, Rect, Vec2};
pub use scalar::{Scalar, ScalarKey, ScalarValue};
pub use stroke::{LineCap, LineJoin, PathStroke, PathStrokeKey, Stroke, StrokeKey, StrokeKind};
