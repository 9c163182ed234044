//! Exact vector algebra for 2-, 3-, and 4-component vectors.
//!
//! Each vector type is a plain aggregate of named components. Construction
//! and component permutation (swizzling) are generic over the component
//! type; the componentwise ring operations are provided for `i64`
//! components with contracts that pin down every component of the result.

pub mod scalar;
pub mod vector2;
pub mod vector3;
pub mod vector4;
