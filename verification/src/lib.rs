//! Pairwise vector-comparison operations over one-dimensional numeric
//! sequences: cosine similarity and Euclidean distance, generic over
//! the floating-point element type and over owned and borrowed operand
//! forms.

pub mod cosine;
pub mod elementwise;
pub mod euclidean;
pub mod scalar;

pub use cosine::{CosineSimilarity, CosineSimilarityError};
pub use elementwise::{Pow, Sqrt};
pub use euclidean::{EuclideanDistance, EuclideanDistanceError};
pub use scalar::Scalar;
