//! Texts of numbers in buffers that the caller owns.

pub mod impl_to_ascii;
