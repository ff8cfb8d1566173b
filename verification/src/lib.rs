//! A staggered-grid (MAC) two-dimensional velocity field with semi-Lagrangian
//! advection.  Scalar samples are IEEE 754 binary32 values carried as their
//! 32-bit patterns; the arithmetic itself is performed by rustc_apfloat's
//! software implementation of binary32, which is bit-identical to hardware
//! float arithmetic under round-to-nearest-even.

pub mod arith;
pub mod bits;
pub mod fieldview;
pub mod grid;

pub use grid::Grid;
