//! Core types for a face-recognition pipeline: a fixed-length face
//! embedding with exact, element-wise comparison semantics, and the
//! interface through which a detection backend reports face regions.
//!
//! The embedding's components are carried as the 64-bit patterns of the
//! IEEE-754 doubles that an embedding model produces; interpreting them
//! numerically (in particular, the euclidean distance between two
//! embeddings) is floating-point work and is left to the caller.

pub mod detection;
pub mod encoding;
