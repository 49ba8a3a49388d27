//! Regression metrics: mean squared error and the coefficient of determination.

pub mod mse;
pub mod r_2;
