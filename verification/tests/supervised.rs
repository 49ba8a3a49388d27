use mlkit::supervised::logistic_regression::{
    NewtonAction, NewtonEvent, NewtonIteration, NewtonOutcome,
};
use mlkit::supervised::{check_training_input, TrainingInputError};

const GRADIENT_LARGE: NewtonEvent = NewtonEvent::Gradient { norm_below_epsilon: false };
const GRADIENT_SMALL: NewtonEvent = NewtonEvent::Gradient { norm_below_epsilon: true };
const HESSIAN_INVERTED: NewtonEvent = NewtonEvent::Hessian { invertible: true };
const HESSIAN_SINGULAR: NewtonEvent = NewtonEvent::Hessian { invertible: false };

#[test]
fn lambda_is_negative() {
    // ridge(-1.0) on a 2 x 9 design matrix with 1 target.
    let train_result = check_training_input(true, 2, 1);
    assert!(matches!(train_result, Err(TrainingInputError::ParameterIsNegative)));
}

#[test]
fn linear_regression_sample_counts_do_not_match() {
    let train_result = check_training_input(false, 4, 3);
    assert!(matches!(train_result, Err(TrainingInputError::SampleCountsDoNotMatch { .. })));

    let train_result = check_training_input(false, 4, 5);
    assert!(matches!(train_result, Err(TrainingInputError::SampleCountsDoNotMatch { .. })));
}

#[test]
fn epsilon_is_negative() {
    // new(-1.0, 100) on a 4 x 4 design matrix with 4 targets.
    let train_result = check_training_input(true, 4, 4);
    assert!(matches!(train_result, Err(TrainingInputError::ParameterIsNegative)));
}

#[test]
fn logistic_regression_sample_counts_do_not_match() {
    let train_result = check_training_input(false, 4, 3);
    assert!(matches!(train_result, Err(TrainingInputError::SampleCountsDoNotMatch { .. })));

    let train_result = check_training_input(false, 4, 5);
    assert!(matches!(train_result, Err(TrainingInputError::SampleCountsDoNotMatch { .. })));
}

#[test]
fn training_checks_come_in_order() {
    assert_eq!(check_training_input(true, 0, 3), Err(TrainingInputError::ParameterIsNegative));
    assert_eq!(
        check_training_input(false, 0, 3),
        Err(TrainingInputError::SampleCountsDoNotMatch { x_sample_count: 0, y_sample_count: 3 })
    );
    assert_eq!(check_training_input(false, 0, 0), Err(TrainingInputError::SampleCountIsZero));
    assert_eq!(check_training_input(false, 6, 6), Ok(6));
}

#[test]
fn no_iterations_means_not_converged() {
    let newton = NewtonIteration::new(0);
    assert_eq!(newton.action(), NewtonAction::Stop(NewtonOutcome::NotConverged));
    assert_eq!(newton.iteration(), 0);
}

#[test]
fn small_gradient_converges() {
    let mut newton = NewtonIteration::new(100);
    assert_eq!(newton.action(), NewtonAction::EvaluateGradient);
    assert_eq!(newton.advance(GRADIENT_LARGE), NewtonAction::InvertHessian);
    assert_eq!(newton.advance(HESSIAN_INVERTED), NewtonAction::EvaluateGradient);
    assert_eq!(newton.iteration(), 1);
    assert_eq!(newton.advance(GRADIENT_SMALL), NewtonAction::Stop(NewtonOutcome::Converged));
    assert_eq!(newton.iteration(), 1);
}

#[test]
fn singular_hessian_stops() {
    let mut newton = NewtonIteration::new(100);
    assert_eq!(newton.advance(GRADIENT_LARGE), NewtonAction::InvertHessian);
    assert_eq!(
        newton.advance(HESSIAN_SINGULAR),
        NewtonAction::Stop(NewtonOutcome::HessianIsSingular)
    );
}

#[test]
fn iterations_run_out() {
    let mut newton = NewtonIteration::new(3);
    for round in 0..3 {
        assert_eq!(newton.iteration(), round);
        assert_eq!(newton.advance(GRADIENT_LARGE), NewtonAction::InvertHessian);
        let action = newton.advance(HESSIAN_INVERTED);
        if round < 2 {
            assert_eq!(action, NewtonAction::EvaluateGradient);
        } else {
            assert_eq!(action, NewtonAction::Stop(NewtonOutcome::NotConverged));
        }
    }
    assert_eq!(newton.iteration(), 3);
}

#[test]
fn finished_iteration_ignores_events() {
    let mut newton = NewtonIteration::new(1);
    assert_eq!(newton.advance(GRADIENT_SMALL), NewtonAction::Stop(NewtonOutcome::Converged));
    assert_eq!(newton.advance(GRADIENT_LARGE), NewtonAction::Stop(NewtonOutcome::Converged));
    assert_eq!(newton.advance(HESSIAN_SINGULAR), NewtonAction::Stop(NewtonOutcome::Converged));
}

#[test]
fn unexpected_event_is_ignored() {
    let mut newton = NewtonIteration::new(2);
    assert_eq!(newton.advance(HESSIAN_INVERTED), NewtonAction::EvaluateGradient);
    assert_eq!(newton.iteration(), 0);
    assert_eq!(newton.advance(GRADIENT_LARGE), NewtonAction::InvertHessian);
    assert_eq!(newton.advance(GRADIENT_SMALL), NewtonAction::InvertHessian);
}
