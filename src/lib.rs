//! Fixed-dimension geometric algebra over `i64` scalars: vectors, bivectors,
//! trivectors, rotors and multivectors, with exterior and geometric products.

pub mod combinatorics;
pub mod components;
pub mod ops;
pub mod vector;
pub mod bivector;
mod roots;
pub mod rotor;
pub mod traits;
pub mod trivector;
pub mod laws;
pub mod multivector;
