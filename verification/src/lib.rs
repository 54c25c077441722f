//! A minimal owning-pointer library: a box that owns a single heap
//! allocation, releases it exactly once, and preserves the contained
//! type's substitutability, together with two small fixtures that probe
//! the destruction contract — a wrapper whose destructor reads its value,
//! and a producer that never owns one.

mod fixtures;
mod owning;

pub use fixtures::Empty;
pub use fixtures::Oisann;
pub use owning::Boks;
