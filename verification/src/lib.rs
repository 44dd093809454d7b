//! Three-dimensional geometry value types: vectors, homogeneous 4x4 matrices,
//! unit quaternions and rigid isometries.
//!
//! The components of every value are double-precision numbers, held as their
//! sixty-four bit encodings ([`scalar`]); [`number`] says which number an
//! encoding denotes. The types offer what is exact on encodings:
//! construction, access by component and by index, numeric equality, change
//! of sign, conjugation and transposition. Each operation states its result
//! completely.
//!
//! Arithmetic that rounds (sums, products, lengths, angles) is not done here.
//! For the products and transforms that take more than one kind of operand,
//! [`operand`] decides which operation an operand selects, or that it
//! selects none; a numeric kernel then carries the operation out.
//! [`text`] lays out the canonical text of a matrix from its formatted
//! entries.
pub mod compare;
pub mod error;
pub mod index;
pub mod iso;
pub mod mat4;
pub mod number;
pub mod operand;
pub mod quat;
pub mod scalar;
pub mod text;
pub mod vec3;
