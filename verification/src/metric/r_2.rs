use vstd::prelude::*;

verus! {

/// Why the coefficient of determination of two samples is not defined.
#[derive(Debug, Clone, Copy, PartialEq, Eq, Structural)]
pub enum R2Error {
    /// The true and the predicted values do not have the same number of samples.
    SampleCountsDoNotMatch { y_true_sample_count: usize, y_pred_sample_count: usize },
    /// Both samples are empty, so the mean of the true values is not defined.
    SampleCountIsZero,
}

/// Checks the sample counts handed to the coefficient of determination and
/// returns the common, nonzero count.
///
/// Counts that differ are answered with `SampleCountsDoNotMatch`; only equal
/// counts that are zero are answered with `SampleCountIsZero`.
pub fn r_2_sample_count(y_true_sample_count: usize, y_pred_sample_count: usize) -> (res: Result<
    usize,
    R2Error,
>)
    ensures
        res is Ok <==> y_true_sample_count == y_pred_sample_count && y_true_sample_count > 0,
        res matches Ok(n) ==> n == y_true_sample_count,
        y_true_sample_count != y_pred_sample_count ==> res == Err::<usize, R2Error>(
            R2Error::SampleCountsDoNotMatch { y_true_sample_count, y_pred_sample_count },
        ),
        y_true_sample_count == y_pred_sample_count == 0 ==> res == Err::<usize, R2Error>(
            R2Error::SampleCountIsZero,
        ),
{
    if y_true_sample_count != y_pred_sample_count {
        return Err(R2Error::SampleCountsDoNotMatch { y_true_sample_count, y_pred_sample_count });
    }
    if y_true_sample_count == 0 {
        return Err(R2Error::SampleCountIsZero);
    }
    Ok(y_true_sample_count)
}

} // verus!
