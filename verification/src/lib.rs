//! Elliptic-curve gadgets for arithmetic circuits over the Pallas curve:
//! typed points and scalars, the instruction set a chip offers, and
//! fixed-base scalar multiplication by 3-bit windows.

pub mod circuit;
pub mod constraints;
pub mod curve;
pub mod ecc;
pub mod field;
pub mod sinsemilla;
pub mod utilities;
