//! Bookkeeping for linear equations in one unknown.
//!
//! An affine element `a*x + b` is tracked here by its form: whether it
//! carries the unknown (and which storage slot that unknown lives in) and
//! the error status accumulated while it was built. The numbers `a` and `b`
//! themselves are 64-bit floats that the caller carries beside the form.
pub mod error;
pub mod form;
pub mod equation;
pub mod logger;
