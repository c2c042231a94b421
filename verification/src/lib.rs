//! Vectors whose elements all share one type out of a fixed union of types,
//! and that can switch, as a whole, from one member type to another.

pub mod layout;
pub mod capacity;
pub mod unionvec;
pub mod laws;
