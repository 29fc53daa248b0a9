// Verified structure of an L1 finite-difference engine for the
// time-fractional Garman-Kohlhagen equation: input validation, the constant
// tridiagonal step operator, the plan of the memory sum over all earlier
// time levels, the append-only solution history, and the backward march.
// The floating-point arithmetic that fills these in runs outside the library.

pub mod error;
pub mod march;
pub mod memory;
pub mod operator;
pub mod solution;
