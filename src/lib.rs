//! Shapes in two and three dimensions, with the capabilities that set them
//! apart: every shape has an area, solids have a volume, and round shapes have a
//! radius that can be changed in place.
//!
//! A [`Shape`] is generic over the type of its measures. The library decides
//! which operation a shape supports, what a radius change stores and what a
//! report line says; the arithmetic on the measures is left to the caller.

mod report;
mod shape;

pub use report::{describe, description, measure_text, measures_text};
pub use shape::{RadiusOutcome, Shape, ShapeError, ShapeKind, Solid};
