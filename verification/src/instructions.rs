//! The instruction sets: the primitives that both share, and one decoder for
//! each.

pub mod basic_ops;
pub mod masks_32bit;
pub mod arm;
pub mod thumb;
