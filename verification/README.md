# mlkit

Regression models (ordinary/ridge least squares, logistic regression by
Newton's method) and two metrics (mean squared error, R²) on `ndarray`
arrays.

- `src/` is verified with Verus. It holds what the models and metrics decide
  from plain values: which inputs are rejected and with which error
  (`metric::mse`, `metric::r_2`, `supervised::check_training_input`), and the
  control of the Newton iteration (`supervised::logistic_regression`), with
  proofs that it never takes more than `max_iteration_count` steps, ends
  converged only on a small gradient, and ends unconverged exactly when all
  steps were used.
- `app/` holds the floating-point work (sums, matrix products, inverses via
  `ndarray-linalg`), the public model types with their `thiserror` errors, and
  drives the library's checks and iteration.
