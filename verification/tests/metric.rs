use mlkit::metric::mse::{mse_sample_count, MseError};
use mlkit::metric::r_2::{r_2_sample_count, R2Error};

#[test]
fn mse_sample_counts_do_not_match() {
    // y_true has 4 samples, y_pred 3 and then 5.
    let mse_result = mse_sample_count(4, 3);
    assert!(matches!(mse_result, Err(MseError::SampleCountsDoNotMatch { .. })));

    let mse_result = mse_sample_count(4, 5);
    assert!(matches!(mse_result, Err(MseError::SampleCountsDoNotMatch { .. })));
}

#[test]
fn mse_error_carries_both_counts() {
    assert_eq!(
        mse_sample_count(4, 3),
        Err(MseError::SampleCountsDoNotMatch { y_true_sample_count: 4, y_pred_sample_count: 3 })
    );
}

#[test]
fn mse_accepts_equal_counts() {
    assert_eq!(mse_sample_count(2, 2), Ok(2));
    assert_eq!(mse_sample_count(0, 0), Ok(0));
}

#[test]
fn r_2_sample_counts_do_not_match() {
    let r_2_result = r_2_sample_count(4, 3);
    assert!(matches!(r_2_result, Err(R2Error::SampleCountsDoNotMatch { .. })));

    let r_2_result = r_2_sample_count(4, 5);
    assert!(matches!(r_2_result, Err(R2Error::SampleCountsDoNotMatch { .. })));
}

#[test]
fn r_2_error_carries_both_counts() {
    assert_eq!(
        r_2_sample_count(0, 2),
        Err(R2Error::SampleCountsDoNotMatch { y_true_sample_count: 0, y_pred_sample_count: 2 })
    );
}

#[test]
fn r_2_sample_count_is_zero() {
    assert_eq!(r_2_sample_count(0, 0), Err(R2Error::SampleCountIsZero));
}

#[test]
fn r_2_accepts_equal_nonzero_counts() {
    assert_eq!(r_2_sample_count(2, 2), Ok(2));
}
