//! Dimension-generic abstraction over fixed-size numeric vectors.
//!
//! Geometric algorithms can be written once against the [`VectorN`]
//! capability instead of a concrete vector representation; the
//! [`VectorNExtensions`] layer derives component-wise arithmetic, folds,
//! predicates, dot products and min/max from the minimal interface, and the
//! [`TwoDimensional`] / [`ThreeDimensional`] markers let data structures
//! statically require an exact dimension.

pub mod cgmath_vectors;
pub mod laws;
pub mod nalgebra_vectors;
pub mod scalar;
pub mod vector_traits;

pub use scalar::SpadeNum;
pub use vector_traits::{ThreeDimensional, TwoDimensional, VectorN, VectorNExtensions};
