//! A small linear-algebra kernel for real-time rendering: vectors of three and
//! four components, row-major 4x4 matrices, the affine builders (scale,
//! rotation, translation, alignment with a viewing direction) and the view
//! matrix of a camera.
//!
//! A scalar is a single-precision IEEE-754 number held as its 32-bit pattern.
//! What moves, compares or negates scalars is decided on the bits. Rounded
//! arithmetic is not: every function that needs it takes the arithmetic as an
//! argument, a function from an operation and two scalars to a scalar, and its
//! contract states the result over that arithmetic, operation by operation and
//! in the order in which the operations are performed.
//!
//! Matrices compose from the left: `m.scale(v)` is `m` times the scale matrix,
//! so the new transform acts in the frame that `m` has already set up.

pub mod scalar;
pub mod arithmetic;
pub mod vectors;
pub mod matrices;
pub mod camera;
pub mod laws;
pub mod scene;
