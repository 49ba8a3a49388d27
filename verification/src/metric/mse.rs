use vstd::prelude::*;

verus! {

/// Why the mean squared error of two samples is not defined.
#[derive(Debug, Clone, Copy, PartialEq, Eq, Structural)]
pub enum MseError {
    /// The true and the predicted values do not have the same number of samples.
    SampleCountsDoNotMatch { y_true_sample_count: usize, y_pred_sample_count: usize },
}

/// Checks the sample counts handed to the mean squared error and returns the
/// common count `n`, by which the sum of squared differences is divided.
///
/// Counts that differ are answered with `SampleCountsDoNotMatch`, which
/// carries both counts. Two empty samples are accepted.
pub fn mse_sample_count(y_true_sample_count: usize, y_pred_sample_count: usize) -> (res: Result<
    usize,
    MseError,
>)
    ensures
        res is Ok <==> y_true_sample_count == y_pred_sample_count,
        res matches Ok(n) ==> n == y_true_sample_count,
        res matches Err(e) ==> e == (MseError::SampleCountsDoNotMatch {
            y_true_sample_count,
            y_pred_sample_count,
        }),
{
    if y_true_sample_count != y_pred_sample_count {
        return Err(MseError::SampleCountsDoNotMatch { y_true_sample_count, y_pred_sample_count });
    }
    Ok(y_true_sample_count)
}

} // verus!
