//! Decision logic of a scientific-notation number for idle games: a value is
//! `mantissa × 10^exponent`, with the mantissa kept in `[1, 10)`.
//!
//! The mantissa itself is a float and is handled by the caller; this library
//! decides everything that is not float arithmetic: how the exponent moves
//! while the mantissa is normalized, how two exponents are aligned for a sum,
//! what exponent a product or quotient gets, and how a value is laid out as
//! text.
use vstd::prelude::*;

pub mod exponent;
pub mod render;
