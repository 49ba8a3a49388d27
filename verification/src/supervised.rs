//! Supervised models: the checks that training runs before any numerical work.

pub mod logistic_regression;

use vstd::prelude::*;

verus! {

/// Why a training set (or a model's parameter) is rejected before training.
#[derive(Debug, Clone, Copy, PartialEq, Eq, Structural)]
pub enum TrainingInputError {
    /// The model's nonnegative parameter (the ridge penalty of the linear
    /// regression, the gradient tolerance of the logistic regression) is negative.
    ParameterIsNegative,
    /// The design matrix and the targets do not have the same number of samples.
    SampleCountsDoNotMatch { x_sample_count: usize, y_sample_count: usize },
    /// The training set is empty.
    SampleCountIsZero,
}

/// Checks, in the order training does, what a model is trained with: first
/// its parameter, then that the rows of the design matrix and the targets
/// agree in number, then that there is at least one sample. Returns the
/// sample count.
pub fn check_training_input(
    parameter_is_negative: bool,
    x_sample_count: usize,
    y_sample_count: usize,
) -> (res: Result<usize, TrainingInputError>)
    ensures
        res is Ok <==> !parameter_is_negative && x_sample_count == y_sample_count
            && x_sample_count > 0,
        res matches Ok(n) ==> n == x_sample_count,
        parameter_is_negative ==> res == Err::<usize, TrainingInputError>(
            TrainingInputError::ParameterIsNegative,
        ),
        !parameter_is_negative && x_sample_count != y_sample_count ==> res == Err::<
            usize,
            TrainingInputError,
        >(TrainingInputError::SampleCountsDoNotMatch { x_sample_count, y_sample_count }),
        !parameter_is_negative && x_sample_count == y_sample_count == 0 ==> res == Err::<
            usize,
            TrainingInputError,
        >(TrainingInputError::SampleCountIsZero),
{
    if parameter_is_negative {
        return Err(TrainingInputError::ParameterIsNegative);
    }
    if x_sample_count != y_sample_count {
        return Err(TrainingInputError::SampleCountsDoNotMatch { x_sample_count, y_sample_count });
    }
    if x_sample_count == 0 {
        return Err(TrainingInputError::SampleCountIsZero);
    }
    Ok(x_sample_count)
}

} // verus!
