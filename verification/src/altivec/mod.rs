//! AltiVec (VMX) SIMD support: the vector value type, the AltiVec state
//! registers and the vector operations.
pub mod types;

pub mod arithmetic;
pub mod compare;
pub mod logical;
pub mod shift;
pub mod permute;
pub mod pack;
pub mod memory;
pub mod state;
