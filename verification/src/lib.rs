//! Two-dimensional vectors over an arbitrary numeric element type.
//!
//! [`Vec2`] is a plain pair of coordinates with no invariant. The module
//! [`vec2`] holds the type and its constructors, the module [`ops`] the
//! operators `+`, `-`, `*` and `/`, each by a vector and, for `*` and `/`,
//! by a scalar as well.

pub mod ops;
pub mod vec2;

pub use crate::vec2::Vec2;
