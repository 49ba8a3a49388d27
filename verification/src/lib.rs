//! Input checks and training control for regression models and their metrics.
//!
//! The numerical work (floating-point sums, matrix products and inverses) is
//! done by the surrounding program; this library decides, from plain counts
//! and flags, when an input is rejected and how the Newton iteration of the
//! logistic regression proceeds.

pub mod metric;
pub mod supervised;
