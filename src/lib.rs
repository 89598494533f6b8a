//! Arithmetic for the sextic extension field built as a cubic tower over a
//! quadratic extension of a prime field, with the sparse products used by
//! pairing evaluation.

pub mod fp;
pub mod fp2;
pub mod fp6;
pub mod small;
