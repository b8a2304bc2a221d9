//! The conversion of single- and double-precision values to their shortest
//! decimal: estimates of logarithms, tables of powers of five, the scaling of
//! the rounding interval, the removal of digits, and the text.

pub mod common;
pub mod d2s;
pub mod divisibility;
pub mod exact;
pub mod exact_double;
pub mod exact_float;
pub mod f2s;
pub mod interval;
pub mod logarithm;
pub mod numeral;
pub mod powers;
pub mod pretty;
pub mod reads_back;
pub mod shortest;
pub mod table_proofs;
pub mod tables;
