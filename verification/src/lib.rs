//! Rolling K-period percentage returns over a numeric column of a small
//! tabular container.
//!
//! The library validates the request (the column must exist, must hold
//! floating-point data, and must have at least `k` rows), computes the
//! return `(end - start) / start` for every window of `k` consecutive
//! rows, and assembles a fresh single-column table named
//! `"<column>_return_<k>_day"`. Floating-point cells are carried as
//! IEEE-754 double bit patterns, so the selection, ordering and assembly
//! logic is verified end to end; only the two arithmetic operations on
//! bit patterns are trusted.

pub mod float_bits;
pub mod rolling;
pub mod table;
pub mod text;
