//! Checks that let a strided n-dimensional array be handed to BLAS-style
//! routines, which take a base pointer plus lengths and strides in a C `int`:
//! every length and stride must fit that integer, and a matrix's innermost
//! axis must be unit-stride.
//!
//! `layout` models an array's shape and strides and decides the checks;
//! `adapter` wraps a view together with a layout that passed them and gives
//! the vector and matrix descriptors; `laws` states what holds of them.
use vstd::prelude::*;

pub mod adapter;
pub mod laws;
pub mod layout;
